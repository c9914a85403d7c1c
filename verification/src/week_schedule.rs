//! The window in which the player plans the work of the coming week: a day is
//! chosen by clicking its column, a kind of work is then picked for it, and
//! the plan is confirmed once every day has its work.

use vstd::prelude::*;

use crate::date::GensoDate;
use crate::game_system::{DayWorkType, WeekWorkSchedule};

verus! {

/// What the window that picks a day's work answers.
pub enum WeekScheduleMessage {
    DetermineDaySchedule(DayWorkType),
}

/// The state of the week-schedule window: the work chosen so far for each of
/// the seven days, and the day whose column was clicked last.
pub struct WeekScheduleWindow {
    week_sched: [Option<DayWorkType>; 7],
    last_clicked: u32,
}

impl WeekScheduleWindow {
    pub closed spec fn spec_week(&self) -> Seq<Option<DayWorkType>> {
        self.week_sched@
    }

    pub closed spec fn spec_last_clicked(&self) -> u32 {
        self.last_clicked
    }

    pub open spec fn well_formed(&self) -> bool {
        self.spec_last_clicked() < 7 && self.spec_week().len() == 7
    }

    /// Every day has its work chosen.
    pub open spec fn all_chosen(&self) -> bool {
        forall|i: int| 0 <= i < 7 ==> self.spec_week()[i] is Some
    }

    /// The window opens with the work of the schedule being held, or, when
    /// the week is to be planned anew, with nothing chosen.
    pub fn new(week_schedule: &WeekWorkSchedule, schedule_redefine: bool) -> (r: Self)
        ensures
            r.well_formed(),
            r.spec_last_clicked() == 0,
            forall|i: int|
                0 <= i < 7 ==> #[trigger] r.spec_week()[i] == if schedule_redefine {
                    None
                } else {
                    week_schedule.schedule_at(i)
                },
    {
        let mut week_sched: [Option<DayWorkType>; 7] = [None, None, None, None, None, None, None];
        if !schedule_redefine {
            let mut i: usize = 0;
            while i < 7
                invariant
                    i <= 7,
                    week_sched@.len() == 7,
                    forall|j: int| 0 <= j < i ==> #[trigger] week_sched@[j] == week_schedule.schedule_at(j),
                    forall|j: int| i <= j < 7 ==> #[trigger] week_sched@[j] is None,
                decreases 7 - i,
            {
                week_sched.set(i, week_schedule.get_schedule_at(i));
                i += 1;
            }
        }
        WeekScheduleWindow { week_sched, last_clicked: 0 }
    }

    /// A click on the column of day `grid_x`.  While the schedule being held
    /// still runs nothing may change; a column of the week is remembered and
    /// the window that picks its work is to be opened, which the result says.
    pub fn click_day(&mut self, holding_week_schedule_is_available: bool, grid_x: u32) -> (r: bool)
        requires
            old(self).well_formed(),
        ensures
            final(self).well_formed(),
            r == (!holding_week_schedule_is_available && grid_x < 7),
            final(self).spec_week() == old(self).spec_week(),
            final(self).spec_last_clicked() == if r {
                grid_x
            } else {
                old(self).spec_last_clicked()
            },
    {
        if holding_week_schedule_is_available || grid_x >= 7 {
            return false;
        }
        self.last_clicked = grid_x;
        true
    }

    /// The work picked for the day clicked last.
    pub fn apply_message(&mut self, msg: WeekScheduleMessage)
        requires
            old(self).well_formed(),
        ensures
            final(self).well_formed(),
            final(self).spec_last_clicked() == old(self).spec_last_clicked(),
            msg matches WeekScheduleMessage::DetermineDaySchedule(w) && final(self).spec_week()
                == old(self).spec_week().update(old(self).spec_last_clicked() as int, Some(w)),
    {
        match msg {
            WeekScheduleMessage::DetermineDaySchedule(work_type) => {
                let i = self.last_clicked as usize;
                self.week_sched.set(i, Some(work_type));
                assert(self.week_sched@ =~= old(self).spec_week().update(i as int, Some(work_type)));
            },
        }
    }

    pub fn all_day_sched_determined(&self) -> (r: bool)
        requires
            self.well_formed(),
        ensures
            r == self.all_chosen(),
    {
        let mut i: usize = 0;
        while i < 7
            invariant
                i <= 7,
                self.well_formed(),
                forall|j: int| 0 <= j < i ==> self.spec_week()[j] is Some,
            decreases 7 - i,
        {
            if self.week_sched[i].is_none() {
                return false;
            }
            i += 1;
        }
        true
    }

    /// The planned week starting at `first_day`, once every day has its work.
    pub fn export_week_sched(&self, first_day: GensoDate) -> (r: Option<WeekWorkSchedule>)
        requires
            self.well_formed(),
        ensures
            r is Some <==> self.all_chosen(),
            r is Some ==> r.unwrap().spec_first_day() == first_day && r.unwrap().spec_schedule()
                == self.spec_week(),
    {
        if !self.all_day_sched_determined() {
            return None;
        }
        let sched = WeekWorkSchedule::from_days(first_day, self.week_sched);
        Some(sched)
    }

    /// A click on the button that confirms the plan: unless the schedule
    /// being held still runs, the plan from `today` on, once it is complete.
    pub fn click_ok(&self, holding_week_schedule_is_available: bool, today: GensoDate) -> (r: Option<
        WeekWorkSchedule,
    >)
        requires
            self.well_formed(),
        ensures
            r is Some <==> (!holding_week_schedule_is_available && self.all_chosen()),
            r is Some ==> r.unwrap().spec_first_day() == today && r.unwrap().spec_schedule()
                == self.spec_week(),
    {
        if holding_week_schedule_is_available {
            return None;
        }
        self.export_week_sched(today)
    }
}

/// The plan confirmed on a day gives that day the work chosen in the first
/// column, and each later day of the week the work of its own column.
pub proof fn law_confirmed_plan_starts_today(w: WeekScheduleWindow, today: GensoDate, sched: WeekWorkSchedule)
    requires
        w.well_formed(),
        sched.spec_first_day() == today,
        sched.spec_schedule() == w.spec_week(),
    ensures
        sched.schedule_of(today) == w.spec_week()[0],
        forall|i: int| 0 <= i < 7 ==> #[trigger] sched.schedule_at(i) == w.spec_week()[i],
{
}

} // verus!
