use suzu::date::{GensoDate, RentalLimit};
use suzu::game_system::{AwardData, DayWorkType, GoingOutEvent, WeekWorkSchedule};
use suzu::util::{get_unique_id, max, min, random_select, select_at, year_to_season, DayOfWeek};

#[test]
fn add_day_within_month() {
    let mut date = GensoDate::new(112, 7, 23);
    date.add_day(8);
    assert_eq!(date, GensoDate::new(112, 7, 31));
}

#[test]
fn add_day_into_next_month() {
    let mut date = GensoDate::new(112, 7, 23);
    date.add_day(9);
    assert_eq!(date, GensoDate::new(112, 8, 1));
}

#[test]
fn add_day_zero_keeps_date() {
    let date = GensoDate::new(112, 3, 15).add_day_chain(0);
    assert_eq!(date, GensoDate::new(112, 3, 15));
}

#[test]
fn add_day_across_several_months() {
    // Months are read from the calendar table by their own number: month 1
    // has 28 days, month 2 has 31, month 3 has 30.
    let date = GensoDate::new(112, 1, 20).add_day_chain(50);
    // 8 days to the end of month 1, 31 through month 2, 11 into month 3.
    assert_eq!(date, GensoDate::new(112, 3, 11));
}

#[test]
fn law_add_day_then_diff_day_on_values() {
    let start = GensoDate::new(112, 7, 23);
    for n in [0, 1, 7, 8, 9, 14, 40, 100] {
        let later = start.add_day_chain(n);
        assert_eq!(start.diff_day(&later), n);
        if n > 0 {
            assert!(later.is_past(&start));
        }
    }
}

#[test]
fn law_add_day_compose_on_values() {
    let start = GensoDate::new(112, 5, 10);
    let twice = start.add_day_chain(20).add_day_chain(35);
    let once = start.add_day_chain(55);
    assert_eq!(twice, once);
}

#[test]
fn diff_day_same_month() {
    let a = GensoDate::new(112, 7, 23);
    let b = GensoDate::new(112, 7, 30);
    assert_eq!(a.diff_day(&b), 7);
    assert_eq!(b.diff_day(&a), 7);
}

#[test]
fn diff_day_later_month() {
    let a = GensoDate::new(112, 7, 23);
    let b = GensoDate::new(112, 8, 6);
    assert_eq!(a.diff_day(&b), 14);
}

#[test]
fn diff_day_earlier_month_is_negative() {
    let a = GensoDate::new(112, 8, 6);
    let b = GensoDate::new(112, 7, 23);
    // Counting back to an earlier month measures whole months only.
    assert_eq!(a.diff_day(&b), -31);
}

#[test]
fn rental_limit_type_values() {
    let borrow = GensoDate::new(112, 7, 23);
    assert_eq!(borrow.rental_limit_type(&GensoDate::new(112, 7, 23)), Some(RentalLimit::Today));
    assert_eq!(borrow.rental_limit_type(&GensoDate::new(112, 7, 30)), Some(RentalLimit::ShortTerm));
    assert_eq!(borrow.rental_limit_type(&GensoDate::new(112, 8, 6)), Some(RentalLimit::LongTerm));
    assert_eq!(borrow.rental_limit_type(&GensoDate::new(112, 8, 1)), None);
}

#[test]
fn is_past_compares_season_month_day() {
    let d = GensoDate::new(112, 7, 23);
    assert!(GensoDate::new(113, 1, 1).is_past(&d));
    assert!(GensoDate::new(112, 8, 1).is_past(&d));
    assert!(GensoDate::new(112, 7, 24).is_past(&d));
    assert!(!GensoDate::new(112, 7, 23).is_past(&d));
    assert!(!GensoDate::new(111, 12, 31).is_past(&d));
}

#[test]
fn is_week_first_on_opening_week() {
    assert!(GensoDate::new(112, 7, 23).is_week_first());
    assert!(GensoDate::new(112, 7, 30).is_week_first());
    assert!(!GensoDate::new(112, 7, 24).is_week_first());
    assert!(GensoDate::new(112, 7, 16).is_week_first());
}

#[test]
fn month_names() {
    assert_eq!(GensoDate::new(112, 1, 1).to_month_string_eng_short(), "Jan.");
    assert_eq!(GensoDate::new(112, 5, 1).to_month_string_eng_short(), "May");
    assert_eq!(GensoDate::new(112, 12, 1).to_month_string_eng_short(), "Dec.");
}

#[test]
fn empty_date_is_zero() {
    assert_eq!(GensoDate::new_empty(), GensoDate::new(0, 0, 0));
}

#[test]
fn rental_limit_labels_and_random() {
    assert_eq!(RentalLimit::ShortTerm.to_str(), "短期");
    assert_eq!(RentalLimit::LongTerm.to_str(), "長期");
    assert_eq!(RentalLimit::Today.to_str(), "本日");
    for _ in 0..20 {
        let r = RentalLimit::random();
        assert!(r == RentalLimit::ShortTerm || r == RentalLimit::LongTerm);
    }
}

#[test]
fn season_of_year() {
    assert_eq!(year_to_season(112), 112);
}

#[test]
fn day_of_week_from_abbreviation() {
    assert_eq!(DayOfWeek::from_char("Sun"), DayOfWeek::Sunday);
    assert_eq!(DayOfWeek::from_char("Tue"), DayOfWeek::TuesDay);
    assert_eq!(DayOfWeek::from_char("Sat"), DayOfWeek::Saturday);
    assert_eq!(DayOfWeek::from_char("xyz"), DayOfWeek::Sunday);
}

#[test]
fn day_of_week_japanese_names_round_trip() {
    let days = [
        DayOfWeek::Sunday,
        DayOfWeek::Monday,
        DayOfWeek::TuesDay,
        DayOfWeek::Wednesday,
        DayOfWeek::Thursday,
        DayOfWeek::Friday,
        DayOfWeek::Saturday,
    ];
    for d in days {
        assert_eq!(DayOfWeek::from_char_jp(&d.to_string()), d);
    }
    assert_eq!(DayOfWeek::Wednesday.to_string(), "水曜日");
    assert_eq!(DayOfWeek::from_char_jp("?"), DayOfWeek::Sunday);
}

#[test]
fn max_and_min() {
    assert_eq!(max(3, 5), 5);
    assert_eq!(max(5, 3), 5);
    assert_eq!(min(3, 5), 3);
    assert_eq!(min(5, 3), 3);
    assert_eq!(max(4, 4), 4);
}

#[test]
fn unique_ids_increase() {
    let mut last = 10u64;
    assert_eq!(get_unique_id(&mut last), 11);
    assert_eq!(get_unique_id(&mut last), 12);
    assert_eq!(last, 12);
}

#[test]
fn day_work_labels() {
    assert_eq!(DayWorkType::ShopWork.to_string_jp(), "店番");
    assert_eq!(DayWorkType::GoingOut(GoingOutEvent::Dangoya).to_string_jp(), "外出");
    assert_eq!(DayWorkType::TakingRest.to_string_jp(), "休憩");
}

#[test]
fn week_schedule_lookup() {
    let first = GensoDate::new(112, 7, 23);
    let plan = [
        DayWorkType::ShopWork,
        DayWorkType::TakingRest,
        DayWorkType::ShopWork,
        DayWorkType::GoingOut(GoingOutEvent::AkyuTei),
        DayWorkType::ShopWork,
        DayWorkType::ShopWork,
        DayWorkType::TakingRest,
    ];
    let sched = WeekWorkSchedule::new(first, plan);
    assert_eq!(sched.get_first_day(), first);
    for i in 0..7 {
        assert_eq!(sched.get_schedule_at(i), Some(plan[i]));
        let day = first.add_day_chain(i as i32);
        assert_eq!(sched.get_schedule_of(&day), Some(plan[i]));
    }
    assert_eq!(sched.get_schedule_at(7), None);
    assert_eq!(sched.get_schedule_of(&GensoDate::new(112, 7, 30)), None);
    assert!(sched.update_is_not_required(&GensoDate::new(112, 7, 25)));
    assert!(!sched.update_is_not_required(&GensoDate::new(112, 7, 30)));
}

#[test]
fn empty_week_schedule_needs_update() {
    let first = GensoDate::new(112, 7, 23);
    let sched = WeekWorkSchedule::new_empty(first);
    assert_eq!(sched.get_schedule_at(0), None);
    assert!(!sched.update_is_not_required(&first));
}

#[test]
fn award_counts_customers() {
    let mut award = AwardData::new();
    assert_eq!(award.customer_count, 0);
    award.add_customer_count(3);
    award.add_customer_count(4);
    assert_eq!(award.customer_count, 7);
    assert_eq!(award.borrowing_count, 0);
}

#[test]
fn add_day_keeps_a_calendar_date() {
    let mut date = GensoDate::new(112, 1, 28);
    date.add_day(1);
    assert_eq!(date, GensoDate::new(112, 2, 1));
    let mut date = GensoDate::new(112, 3, 15);
    date.add_day(0);
    assert_eq!(date, GensoDate::new(112, 3, 15));
    let mut date = GensoDate::new(112, 10, 30);
    date.add_day(31);
    assert_eq!(date, GensoDate::new(112, 11, 31));
}

#[test]
fn selecting_by_roll() {
    let items = [10, 20, 30];
    assert_eq!(*select_at(&items, 0), 10);
    assert_eq!(*select_at(&items, 4), 20);
    assert_eq!(*select_at(&items, 8), 30);
    let picked = *random_select(&items).unwrap();
    assert!(items.contains(&picked));
}
