use suzu::date::GensoDate;
use suzu::game_system::{DayWorkType, GoingOutEvent, WeekWorkSchedule};
use suzu::week_schedule::{WeekScheduleMessage, WeekScheduleWindow};

fn full_week(first_day: GensoDate) -> WeekWorkSchedule {
    WeekWorkSchedule::new(
        first_day,
        [
            DayWorkType::ShopWork,
            DayWorkType::TakingRest,
            DayWorkType::GoingOut(GoingOutEvent::Dangoya),
            DayWorkType::ShopWork,
            DayWorkType::ShopWork,
            DayWorkType::TakingRest,
            DayWorkType::ShopWork,
        ],
    )
}

#[test]
fn window_opens_with_the_held_schedule() {
    let day = GensoDate::new(112, 7, 23);
    let w = WeekScheduleWindow::new(&full_week(day), false);
    assert!(w.all_day_sched_determined());
    let sched = w.export_week_sched(GensoDate::new(112, 7, 30)).unwrap();
    assert_eq!(sched.get_first_day(), GensoDate::new(112, 7, 30));
    assert_eq!(sched.get_schedule_at(2), Some(DayWorkType::GoingOut(GoingOutEvent::Dangoya)));
}

#[test]
fn window_for_a_new_plan_starts_empty() {
    let day = GensoDate::new(112, 7, 23);
    let w = WeekScheduleWindow::new(&full_week(day), true);
    assert!(!w.all_day_sched_determined());
    assert!(w.export_week_sched(day).is_none());
    assert!(w.click_ok(false, day).is_none());
}

#[test]
fn planning_every_day_then_confirming() {
    let day = GensoDate::new(112, 7, 23);
    let mut w = WeekScheduleWindow::new(&WeekWorkSchedule::new_empty(day), false);
    for i in 0..7u32 {
        assert!(w.click_day(false, i));
        let work = if i % 2 == 0 { DayWorkType::ShopWork } else { DayWorkType::TakingRest };
        w.apply_message(WeekScheduleMessage::DetermineDaySchedule(work));
        assert_eq!(w.all_day_sched_determined(), i == 6);
    }
    // While the held schedule still runs, nothing is confirmed or chosen.
    assert!(w.click_ok(true, day).is_none());
    assert!(!w.click_day(true, 3));
    // Only the seven columns of the week are days.
    assert!(!w.click_day(false, 7));
    let sched = w.click_ok(false, day).unwrap();
    assert_eq!(sched.get_first_day(), day);
    assert_eq!(sched.get_schedule_at(0), Some(DayWorkType::ShopWork));
    assert_eq!(sched.get_schedule_at(1), Some(DayWorkType::TakingRest));
    assert_eq!(sched.get_schedule_at(6), Some(DayWorkType::ShopWork));
}

#[test]
fn choosing_again_overwrites_the_day() {
    let day = GensoDate::new(112, 7, 23);
    let mut w = WeekScheduleWindow::new(&full_week(day), false);
    assert!(w.click_day(false, 4));
    w.apply_message(WeekScheduleMessage::DetermineDaySchedule(DayWorkType::TakingRest));
    let sched = w.export_week_sched(day).unwrap();
    assert_eq!(sched.get_schedule_at(4), Some(DayWorkType::TakingRest));
    assert_eq!(sched.get_schedule_at(3), Some(DayWorkType::ShopWork));
}
