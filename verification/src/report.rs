//! The results of a day's work, the end-of-day report and the game modes.

use vstd::prelude::*;

use crate::book::BookInformation;
use crate::date::{add_day_ok, advance, opening_day, GensoDate};

verus! {

/// What the shop has done so far: works done, books waiting to be shelved,
/// books lent out and the money in the till.
pub struct TaskResult {
    pub done_works: u32,
    pub not_shelved_books: Vec<BookInformation>,
    pub borrowing_books: Vec<BookInformation>,
    pub total_money: i32,
}

impl TaskResult {
    /// A fresh result: nothing done yet and a thousand in the till.
    pub fn new() -> (r: Self)
        ensures
            r.done_works == 0,
            r.not_shelved_books@.len() == 0,
            r.borrowing_books@.len() == 0,
            r.total_money == 1000,
    {
        TaskResult {
            done_works: 0,
            not_shelved_books: Vec::new(),
            total_money: 1000,
            borrowing_books: Vec::new(),
        }
    }

    /// Adds the works, the books and the money of `task_result` to this one;
    /// the result is handed back for further changes.
    pub fn add_result(&mut self, task_result: &TaskResult) -> (r: &mut Self)
        requires
            old(self).done_works + task_result.done_works <= u32::MAX,
            i32::MIN <= old(self).total_money + task_result.total_money <= i32::MAX,
        ensures
            r.done_works == old(self).done_works + task_result.done_works,
            r.not_shelved_books@ == old(self).not_shelved_books@ + task_result.not_shelved_books@,
            r.borrowing_books@ == old(self).borrowing_books@ + task_result.borrowing_books@,
            r.total_money == old(self).total_money + task_result.total_money,
            *final(self) == *final(r),
    {
        self.done_works += task_result.done_works;
        let mut not_shelved = task_result.not_shelved_books.clone();
        assert(not_shelved@ =~= task_result.not_shelved_books@);
        self.not_shelved_books.append(&mut not_shelved);
        let mut borrowing = task_result.borrowing_books.clone();
        assert(borrowing@ =~= task_result.borrowing_books@);
        self.borrowing_books.append(&mut borrowing);
        self.total_money += task_result.total_money;
        self
    }

    /// Clears the result: no works, no books, no money; the result is handed
    /// back for further changes.
    pub fn reset(&mut self) -> (r: &mut Self)
        ensures
            r.done_works == 0,
            r.not_shelved_books@.len() == 0,
            r.borrowing_books@.len() == 0,
            r.total_money == 0,
            *final(self) == *final(r),
    {
        self.done_works = 0;
        self.not_shelved_books.clear();
        self.borrowing_books.clear();
        self.total_money = 0;
        self
    }

    /// Puts `money` into the till (takes it out when negative); the result is
    /// handed back for further changes.
    pub fn add_total_money(&mut self, money: i32) -> (r: &mut Self)
        requires
            i32::MIN <= old(self).total_money + money <= i32::MAX,
        ensures
            r.total_money == old(self).total_money + money,
            r.done_works == old(self).done_works,
            r.not_shelved_books@ == old(self).not_shelved_books@,
            r.borrowing_books@ == old(self).borrowing_books@,
            *final(self) == *final(r),
    {
        self.total_money += money;
        self
    }
}

/// How many entries of `yet` also occur in `new_ids`.
pub open spec fn count_also_in(yet: Seq<u64>, new_ids: Seq<u64>) -> int
    decreases yet.len(),
{
    if yet.len() == 0 {
        0
    } else {
        count_also_in(yet.drop_last(), new_ids) + if new_ids.contains(yet.last()) {
            1int
        } else {
            0
        }
    }
}

/// The title the day's work earns: from the number of new books left
/// unshelved, the customers' total waiting time in minutes, and the number of
/// mistakes in judging the condition of returned books.
pub open spec fn evaluation_title(missed: int, waiting_minutes: int, mistakes: int) -> Seq<char> {
    if missed == 0 && waiting_minutes < 30 && mistakes == 0 {
        "鈴奈庵の主"@
    } else if missed == 0 && waiting_minutes < 60 && mistakes == 0 {
        "占い師より向いてる"@
    } else if missed <= 3 && waiting_minutes < 120 && mistakes == 1 {
        "見習い"@
    } else if missed <= 3 && waiting_minutes < 120 {
        "霊夢より働く"@
    } else {
        "素人"@
    }
}

/// Law: the titles of a day.  The top title 鈴奈庵の主 is earned exactly by
/// a day with no new book left unshelved, under thirty minutes of waiting and
/// no mistake in judging conditions; 占い師より向いてる exactly by the other
/// days without missed books or mistakes and under an hour of waiting; a day
/// with any mistake earns neither, and one with a single mistake, at most
/// three missed books and under two hours of waiting earns 見習い.
pub proof fn law_evaluation_titles(missed: int, waiting_minutes: int, mistakes: int)
    requires
        0 <= missed,
        0 <= waiting_minutes,
        0 <= mistakes,
    ensures
        evaluation_title(missed, waiting_minutes, mistakes) == "鈴奈庵の主"@ <==> (missed == 0
            && waiting_minutes < 30 && mistakes == 0),
        evaluation_title(missed, waiting_minutes, mistakes) == "占い師より向いてる"@ <==> (missed
            == 0 && 30 <= waiting_minutes < 60 && mistakes == 0),
        mistakes > 0 ==> evaluation_title(missed, waiting_minutes, mistakes) != "鈴奈庵の主"@
            && evaluation_title(missed, waiting_minutes, mistakes) != "占い師より向いてる"@,
        mistakes == 1 && missed <= 3 && waiting_minutes < 120 ==> evaluation_title(
            missed,
            waiting_minutes,
            mistakes,
        ) == "見習い"@,
        (missed > 3 || waiting_minutes >= 120) ==> evaluation_title(missed, waiting_minutes, mistakes)
            == "素人"@,
{
    reveal_strlit("鈴奈庵の主");
    reveal_strlit("占い師より向いてる");
    reveal_strlit("見習い");
    reveal_strlit("霊夢より働く");
    reveal_strlit("素人");
    assert("鈴奈庵の主"@.len() == 5);
    assert("占い師より向いてる"@.len() == 9);
    assert("見習い"@.len() == 3);
    assert("霊夢より働く"@.len() == 6);
    assert("素人"@.len() == 2);
}

/// The report of one day: which new books came in, which books are still not
/// shelved, how long customers waited, how many condition mistakes were made
/// and what advertising cost.
#[derive(Debug)]
pub struct ResultReport {
    new_books_id: Vec<u64>,
    yet_shelved_books_id: Vec<u64>,
    total_customers_waiting_time: u64,
    condition_eval_mistakes: usize,
    total_ad_cost: i32,
}

impl Clone for ResultReport {
    fn clone(&self) -> (r: Self)
        ensures
            r.spec_new_books() == self.spec_new_books(),
            r.spec_yet_shelved() == self.spec_yet_shelved(),
            r.spec_waiting_time() == self.spec_waiting_time(),
            r.spec_mistakes() == self.spec_mistakes(),
            r.spec_ad_cost() == self.spec_ad_cost(),
    {
        let new_books_id = self.new_books_id.clone();
        let yet_shelved_books_id = self.yet_shelved_books_id.clone();
        assert(new_books_id@ =~= self.new_books_id@);
        assert(yet_shelved_books_id@ =~= self.yet_shelved_books_id@);
        ResultReport {
            new_books_id,
            yet_shelved_books_id,
            total_customers_waiting_time: self.total_customers_waiting_time,
            condition_eval_mistakes: self.condition_eval_mistakes,
            total_ad_cost: self.total_ad_cost,
        }
    }
}

impl ResultReport {
    pub closed spec fn spec_new_books(&self) -> Seq<u64> {
        self.new_books_id@
    }

    pub closed spec fn spec_yet_shelved(&self) -> Seq<u64> {
        self.yet_shelved_books_id@
    }

    pub closed spec fn spec_waiting_time(&self) -> u64 {
        self.total_customers_waiting_time
    }

    pub closed spec fn spec_mistakes(&self) -> usize {
        self.condition_eval_mistakes
    }

    pub closed spec fn spec_ad_cost(&self) -> i32 {
        self.total_ad_cost
    }

    /// Every new book has been shelved: no new book is among the unshelved ones.
    pub open spec fn shelving_done(&self) -> bool {
        forall|i: int, j: int|
            0 <= i < self.spec_new_books().len() && 0 <= j < self.spec_yet_shelved().len()
                ==> #[trigger] self.spec_new_books()[i] != #[trigger] self.spec_yet_shelved()[j]
    }

    pub fn new() -> (r: Self)
        ensures
            r.spec_new_books().len() == 0,
            r.spec_yet_shelved().len() == 0,
            r.spec_waiting_time() == 0,
            r.spec_mistakes() == 0,
            r.spec_ad_cost() == 0,
    {
        ResultReport {
            new_books_id: Vec::new(),
            yet_shelved_books_id: Vec::new(),
            total_customers_waiting_time: 0,
            condition_eval_mistakes: 0,
            total_ad_cost: 0,
        }
    }

    pub fn add_new_book_id(&mut self, id: u64)
        ensures
            final(self).spec_new_books() == old(self).spec_new_books().push(id),
            final(self).spec_yet_shelved() == old(self).spec_yet_shelved(),
            final(self).spec_waiting_time() == old(self).spec_waiting_time(),
            final(self).spec_mistakes() == old(self).spec_mistakes(),
            final(self).spec_ad_cost() == old(self).spec_ad_cost(),
    {
        self.new_books_id.push(id);
    }

    pub fn add_condition_eval_mistakes(&mut self, mistakes: usize)
        requires
            old(self).spec_mistakes() + mistakes <= usize::MAX,
        ensures
            final(self).spec_mistakes() == old(self).spec_mistakes() + mistakes,
            final(self).spec_new_books() == old(self).spec_new_books(),
            final(self).spec_yet_shelved() == old(self).spec_yet_shelved(),
            final(self).spec_waiting_time() == old(self).spec_waiting_time(),
            final(self).spec_ad_cost() == old(self).spec_ad_cost(),
    {
        self.condition_eval_mistakes += mistakes;
    }

    pub fn add_yet_shelved_book_id(&mut self, id: u64)
        ensures
            final(self).spec_yet_shelved() == old(self).spec_yet_shelved().push(id),
            final(self).spec_new_books() == old(self).spec_new_books(),
            final(self).spec_waiting_time() == old(self).spec_waiting_time(),
            final(self).spec_mistakes() == old(self).spec_mistakes(),
            final(self).spec_ad_cost() == old(self).spec_ad_cost(),
    {
        self.yet_shelved_books_id.push(id);
    }

    pub fn add_customers_waiting_time(&mut self, additional: u64)
        requires
            old(self).spec_waiting_time() + additional <= u64::MAX,
        ensures
            final(self).spec_waiting_time() == old(self).spec_waiting_time() + additional,
            final(self).spec_new_books() == old(self).spec_new_books(),
            final(self).spec_yet_shelved() == old(self).spec_yet_shelved(),
            final(self).spec_mistakes() == old(self).spec_mistakes(),
            final(self).spec_ad_cost() == old(self).spec_ad_cost(),
    {
        self.total_customers_waiting_time += additional;
    }

    pub fn add_ad_cost(&mut self, cost: i32)
        requires
            i32::MIN <= old(self).spec_ad_cost() + cost <= i32::MAX,
        ensures
            final(self).spec_ad_cost() == old(self).spec_ad_cost() + cost,
            final(self).spec_new_books() == old(self).spec_new_books(),
            final(self).spec_yet_shelved() == old(self).spec_yet_shelved(),
            final(self).spec_waiting_time() == old(self).spec_waiting_time(),
            final(self).spec_mistakes() == old(self).spec_mistakes(),
    {
        self.total_ad_cost += cost;
    }

    /// Whether every new book of the day has been shelved.
    pub fn new_books_shelving_is_done(&self) -> (r: bool)
        ensures
            r == self.shelving_done(),
    {
        let mut i: usize = 0;
        while i < self.new_books_id.len()
            invariant
                i <= self.new_books_id@.len(),
                forall|a: int, b: int|
                    0 <= a < i && 0 <= b < self.yet_shelved_books_id@.len()
                        ==> #[trigger] self.new_books_id@[a]
                        != #[trigger] self.yet_shelved_books_id@[b],
            decreases self.new_books_id.len() - i,
        {
            let mut j: usize = 0;
            while j < self.yet_shelved_books_id.len()
                invariant
                    i < self.new_books_id@.len(),
                    j <= self.yet_shelved_books_id@.len(),
                    forall|b: int|
                        0 <= b < j ==> self.new_books_id@[i as int]
                            != #[trigger] self.yet_shelved_books_id@[b],
                decreases self.yet_shelved_books_id.len() - j,
            {
                if self.new_books_id[i] == self.yet_shelved_books_id[j] {
                    assert(self.spec_new_books()[i as int] == self.spec_yet_shelved()[j as int]);
                    return false;
                }
                j += 1;
            }
            i += 1;
        }
        true
    }

    /// The word the report shows for the shelving of the new books.
    pub fn shelving_label(&self) -> (r: &'static str)
        ensures
            r@ == (if self.shelving_done() {
                "達成"@
            } else {
                "未達成"@
            }),
    {
        if self.new_books_shelving_is_done() {
            "達成"
        } else {
            "未達成"
        }
    }

    pub fn get_conition_eval_mistakes(&self) -> (r: usize)
        ensures
            r == self.spec_mistakes(),
    {
        self.condition_eval_mistakes
    }

    fn contains_new_book(&self, id: u64) -> (r: bool)
        ensures
            r == self.new_books_id@.contains(id),
    {
        let mut i: usize = 0;
        while i < self.new_books_id.len()
            invariant
                i <= self.new_books_id@.len(),
                forall|k: int| 0 <= k < i ==> self.new_books_id@[k] != id,
            decreases self.new_books_id.len() - i,
        {
            if self.new_books_id[i] == id {
                return true;
            }
            i += 1;
        }
        false
    }

    fn number_of_yet_shelved_and_new_books(&self) -> (r: usize)
        ensures
            r == count_also_in(self.yet_shelved_books_id@, self.new_books_id@),
    {
        let mut count: usize = 0;
        let mut k: usize = 0;
        while k < self.yet_shelved_books_id.len()
            invariant
                k <= self.yet_shelved_books_id@.len(),
                count <= k,
                count == count_also_in(self.yet_shelved_books_id@.take(k as int), self.new_books_id@),
            decreases self.yet_shelved_books_id.len() - k,
        {
            proof {
                assert(self.yet_shelved_books_id@.take(k + 1).drop_last()
                    =~= self.yet_shelved_books_id@.take(k as int));
            }
            if self.contains_new_book(self.yet_shelved_books_id[k]) {
                count += 1;
            }
            k += 1;
        }
        proof {
            assert(self.yet_shelved_books_id@.take(k as int) =~= self.yet_shelved_books_id@);
        }
        count
    }

    /// The title that the day's work earns.
    pub fn generate_eval_str(&self) -> (r: &'static str)
        ensures
            r@ == evaluation_title(
                count_also_in(self.spec_yet_shelved(), self.spec_new_books()),
                (self.spec_waiting_time() / 60) as int,
                self.spec_mistakes() as int,
            ),
    {
        let missed_books_num = self.number_of_yet_shelved_and_new_books();
        let total_waiting_minute = self.total_customers_waiting_time / 60;

        if missed_books_num == 0 && total_waiting_minute < 30 && self.condition_eval_mistakes == 0 {
            return "鈴奈庵の主";
        }
        if missed_books_num == 0 && total_waiting_minute < 60 && self.condition_eval_mistakes == 0 {
            return "占い師より向いてる";
        }
        if missed_books_num <= 3 && total_waiting_minute < 120 && self.condition_eval_mistakes == 1 {
            return "見習い";
        }
        if missed_books_num <= 3 && total_waiting_minute < 120 {
            return "霊夢より働く";
        }
        "素人"
    }

    pub fn get_total_customers_waiting_time(&self) -> (r: u64)
        ensures
            r == self.spec_waiting_time(),
    {
        self.total_customers_waiting_time
    }

    pub fn get_total_ad_cost(&self) -> (r: i32)
        ensures
            r == self.spec_ad_cost(),
    {
        self.total_ad_cost
    }
}

/// The goal and the last day of a time attack.
#[derive(Clone, Copy, Debug)]
pub struct TimeAttackModeData {
    goal: u32,
    limit: GensoDate,
}

impl TimeAttackModeData {
    pub closed spec fn spec_goal(&self) -> u32 {
        self.goal
    }

    pub closed spec fn spec_limit(&self) -> GensoDate {
        self.limit
    }

    pub fn new(goal: u32, limit: GensoDate) -> (r: Self)
        ensures
            r.spec_goal() == goal,
            r.spec_limit() == limit,
    {
        TimeAttackModeData { goal: goal, limit: limit }
    }

    pub fn get_goal(&self) -> (r: u32)
        ensures
            r == self.spec_goal(),
    {
        self.goal
    }

    pub fn get_limit(&self) -> (r: &GensoDate)
        ensures
            *r == self.spec_limit(),
    {
        &self.limit
    }
}

/// The way the game is played: the story, or a race to a money goal.
#[derive(Clone, Copy, Debug)]
pub enum GameMode {
    Story,
    TimeAttack(TimeAttackModeData),
}

/// The number of days a time attack with the given goal lasts.
pub open spec fn time_attack_days(goal: u32) -> int {
    if goal == 300000 {
        60
    } else if goal == 500000 {
        90
    } else {
        120
    }
}

impl GameMode {
    pub fn story() -> (r: Self)
        ensures
            r is Story,
    {
        Self::Story
    }

    /// A time attack towards one of the three money goals; it ends the given
    /// number of days after the opening day.
    pub fn time_attack(goal: u32) -> (r: Self)
        requires
            goal == 300000 || goal == 500000 || goal == 1000000,
        ensures
            r matches GameMode::TimeAttack(data) && data.spec_goal() == goal && data.spec_limit()
                == advance(opening_day(), time_attack_days(goal)),
    {
        proof {
            reveal_with_fuel(add_day_ok, 6);
            assert(add_day_ok(opening_day(), 120));
            assert(add_day_ok(opening_day(), 90));
            assert(add_day_ok(opening_day(), 60));
        }
        if goal == 300000 {
            let date = GensoDate::new(112, 7, 23).add_day_chain(60);
            Self::TimeAttack(TimeAttackModeData::new(goal, date))
        } else if goal == 500000 {
            let date = GensoDate::new(112, 7, 23).add_day_chain(90);
            Self::TimeAttack(TimeAttackModeData::new(goal, date))
        } else {
            let date = GensoDate::new(112, 7, 23).add_day_chain(120);
            Self::TimeAttack(TimeAttackModeData::new(goal, date))
        }
    }
}

} // verus!
