//! Weekly work schedules, day work kinds and the player's award counters.

use vstd::prelude::*;
use vstd::string::StringExecFns;

use crate::date::{add_day_ok, advance, diff_day_ok, diff_day_spec, law_add_day_then_diff_day, GensoDate};

verus! {

/// Where Kosuzu goes on a day out.
#[derive(Debug, Clone, Copy, PartialEq, Eq, Structural)]
pub enum GoingOutEvent {
    AkyuTei,
    Dangoya,
    Terakoya,
}

/// Money that a day out costs.
pub const GOING_OUT_MONEY_COST: i64 = 400;

/// Reputation that a day of rest costs.
pub const TAKING_REST_REPUTATION_COST: i64 = 2;

/// What Kosuzu does on one day.
#[derive(Debug, Clone, Copy, PartialEq, Eq, Structural)]
pub enum DayWorkType {
    ShopWork,
    GoingOut(GoingOutEvent),
    TakingRest,
}

/// The Japanese label of a day's work.
pub open spec fn day_work_label(w: DayWorkType) -> Seq<char> {
    match w {
        DayWorkType::ShopWork => "店番"@,
        DayWorkType::GoingOut(_) => "外出"@,
        DayWorkType::TakingRest => "休憩"@,
    }
}

impl DayWorkType {
    pub fn to_string_jp(&self) -> (r: String)
        ensures
            r@ == day_work_label(*self),
    {
        let label = match self {
            DayWorkType::ShopWork => "店番",
            DayWorkType::GoingOut(dest) => match dest {
                GoingOutEvent::AkyuTei => "外出",
                GoingOutEvent::Dangoya => "外出",
                GoingOutEvent::Terakoya => "外出",
            },
            DayWorkType::TakingRest => "休憩",
        };
        String::from_str(label)
    }
}

/// Progress of the story's events; it records nothing yet.
pub struct EventProgressTable {}

/// The work of seven consecutive days, starting at `first_day`; a day may be
/// left undecided.
#[derive(Clone, Copy)]
pub struct WeekWorkSchedule {
    first_day: GensoDate,
    schedule: [Option<DayWorkType>; 7],
}

impl WeekWorkSchedule {
    pub closed spec fn spec_first_day(&self) -> GensoDate {
        self.first_day
    }

    pub closed spec fn spec_schedule(&self) -> Seq<Option<DayWorkType>> {
        self.schedule@
    }

    /// The work planned for the day `index` days after the first one.
    pub open spec fn schedule_at(&self, index: int) -> Option<DayWorkType> {
        if 0 <= index < 7 {
            self.spec_schedule()[index]
        } else {
            None
        }
    }

    /// The work planned for `day`, located by its `diff_day` distance from the
    /// first day.
    pub open spec fn schedule_of(&self, day: GensoDate) -> Option<DayWorkType> {
        let diff = diff_day_spec(self.spec_first_day(), day);
        if diff < 0 {
            None
        } else {
            self.schedule_at(diff)
        }
    }

    /// Every day of the week has its work decided.
    pub open spec fn all_decided(&self) -> bool {
        forall|i: int| 0 <= i < 7 ==> self.spec_schedule()[i] is Some
    }

    pub fn new(first_day: GensoDate, schedule: [DayWorkType; 7]) -> (r: Self)
        ensures
            r.spec_first_day() == first_day,
            r.spec_schedule().len() == 7,
            forall|i: int| 0 <= i < 7 ==> r.spec_schedule()[i] == Some(schedule@[i]),
    {
        WeekWorkSchedule {
            first_day: first_day,
            schedule: [
                Some(schedule[0]),
                Some(schedule[1]),
                Some(schedule[2]),
                Some(schedule[3]),
                Some(schedule[4]),
                Some(schedule[5]),
                Some(schedule[6]),
            ],
        }
    }

    /// A week with the given plan for each day, decided or not, as a saved
    /// game holds it.
    pub fn from_days(first_day: GensoDate, schedule: [Option<DayWorkType>; 7]) -> (r: Self)
        ensures
            r.spec_first_day() == first_day,
            r.spec_schedule() == schedule@,
    {
        WeekWorkSchedule { first_day, schedule }
    }

    pub fn new_empty(first_day: GensoDate) -> (r: Self)
        ensures
            r.spec_first_day() == first_day,
            r.spec_schedule().len() == 7,
            forall|i: int| 0 <= i < 7 ==> r.spec_schedule()[i] is None,
    {
        WeekWorkSchedule { first_day: first_day, schedule: [None, None, None, None, None, None, None] }
    }

    pub fn get_first_day(&self) -> (r: GensoDate)
        ensures
            r == self.spec_first_day(),
    {
        self.first_day
    }

    pub fn get_schedule_at(&self, index: usize) -> (r: Option<DayWorkType>)
        ensures
            r == self.schedule_at(index as int),
    {
        if index >= 7 {
            None
        } else {
            self.schedule[index]
        }
    }

    /// The held schedule can stay: `date` falls within its week and every day of
    /// it is decided.
    pub fn update_is_not_required(&self, date: &GensoDate) -> (r: bool)
        requires
            diff_day_ok(self.spec_first_day(), *date),
        ensures
            r == ({
                let diff = diff_day_spec(self.spec_first_day(), *date);
                0 <= diff < 7 && self.all_decided()
            }),
    {
        let diff = self.first_day.diff_day(date);
        let mut has_none = false;
        let mut i: usize = 0;
        while i < 7
            invariant
                i <= 7,
                self.schedule@.len() == 7,
                has_none == exists|j: int| 0 <= j < i && self.schedule@[j] is None,
            decreases 7 - i,
        {
            if self.schedule[i].is_none() {
                has_none = true;
            }
            i += 1;
        }
        diff < 7 && diff >= 0 && !has_none
    }

    /// The work planned for `day`.
    pub fn get_schedule_of(&self, day: &GensoDate) -> (r: Option<DayWorkType>)
        requires
            diff_day_ok(self.spec_first_day(), *day),
        ensures
            r == self.schedule_of(*day),
    {
        let diff = self.first_day.diff_day(day);
        if diff < 0 {
            return None;
        }
        self.get_schedule_at(diff as usize)
    }
}

/// Law: in a schedule made by `new`, the day that lies `i` days after the
/// first day gets the work planned at position `i`.
pub proof fn law_schedule_of_following_day(
    sched: WeekWorkSchedule,
    plan: Seq<DayWorkType>,
    i: int,
)
    requires
        sched.spec_schedule().len() == 7,
        forall|k: int| 0 <= k < 7 ==> sched.spec_schedule()[k] == Some(plan[k]),
        0 <= i < 7,
        add_day_ok(sched.spec_first_day(), i),
    ensures
        diff_day_ok(sched.spec_first_day(), advance(sched.spec_first_day(), i)),
        sched.schedule_of(advance(sched.spec_first_day(), i)) == Some(plan[i]),
{
    law_add_day_then_diff_day(sched.spec_first_day(), i);
}

/// Counters of what the player has done, read when awards are given.
#[derive(Debug, Clone, Copy)]
pub struct AwardData {
    pub borrowing_count: u16,
    pub returning_count: u16,
    pub shelving_count: u16,
    pub customer_count: u16,
    pub returning_check_mistake_count: u16,
    pub shop_work_count: u16,
    pub taking_rest_count: u16,
    pub going_out_count: u16,
}

impl AwardData {
    pub fn new() -> (r: Self)
        ensures
            r.borrowing_count == 0,
            r.returning_count == 0,
            r.shelving_count == 0,
            r.customer_count == 0,
            r.returning_check_mistake_count == 0,
            r.shop_work_count == 0,
            r.taking_rest_count == 0,
            r.going_out_count == 0,
    {
        AwardData {
            borrowing_count: 0,
            returning_count: 0,
            shelving_count: 0,
            customer_count: 0,
            returning_check_mistake_count: 0,
            shop_work_count: 0,
            taking_rest_count: 0,
            going_out_count: 0,
        }
    }

    /// Counts `count` more customers.
    pub fn add_customer_count(&mut self, count: u16)
        requires
            old(self).customer_count + count <= u16::MAX,
        ensures
            *final(self) == (AwardData { customer_count: (old(self).customer_count + count) as u16, ..*old(self) }),
    {
        self.customer_count += count;
    }
}

} // verus!
