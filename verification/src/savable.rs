//! The state of a game that is saved: the books at customers' homes and their
//! requests, the date, the week's plan, the till, the advertisements that run,
//! the award counters and the game mode; and the advertising sums taken from it.

use std::collections::HashMap;

use vstd::prelude::*;

use crate::ad::{ad_agency_type_key, ad_type_key, SuzunaAdAgencyType, SuzunaAdType};
use crate::book::BookInformation;
use crate::borrowing::{all_returning, request_day, returning_start, ReturningRequestPool, SuzunaBookPool};
use crate::date::{add_day_ok, advance, diff_day_ok, diff_day_spec, GensoDate};
use crate::game_system::{AwardData, DayWorkType, WeekWorkSchedule};
use crate::report::{GameMode, TaskResult};
use crate::resource::GameResource;

verus! {

broadcast use vstd::std_specs::hash::group_hash_axioms, vstd::seq_lib::group_to_multiset_ensures;

/// The advertisements in the order in which their sums are taken.
pub open spec fn ad_kinds() -> Seq<SuzunaAdType> {
    seq![
        SuzunaAdType::AdPaper,
        SuzunaAdType::Chindon,
        SuzunaAdType::ShopNobori,
        SuzunaAdType::TownNobori,
        SuzunaAdType::NewsPaper,
        SuzunaAdType::BunBunMaruPaper,
    ]
}

/// The agencies in the order in which their sums are taken.
pub open spec fn agency_kinds() -> Seq<SuzunaAdAgencyType> {
    seq![
        SuzunaAdAgencyType::HakureiJinja,
        SuzunaAdAgencyType::KirisameMahoten,
        SuzunaAdAgencyType::GettoDango,
        SuzunaAdAgencyType::Kusuriya,
        SuzunaAdAgencyType::Hieda,
        SuzunaAdAgencyType::YamaJinja,
    ]
}

/// The sum, over `kinds`, of `value` for the kinds that `used` marks.
pub open spec fn ad_sum(
    kinds: Seq<SuzunaAdType>,
    used: spec_fn(SuzunaAdType) -> bool,
    value: spec_fn(SuzunaAdType) -> Option<u32>,
) -> int
    decreases kinds.len(),
{
    if kinds.len() == 0 {
        0
    } else {
        ad_sum(kinds.drop_last(), used, value) + if used(kinds.last()) {
            value(kinds.last()).unwrap() as int
        } else {
            0int
        }
    }
}

/// The sum, over `kinds`, of `value` for the agencies that `used` marks.
pub open spec fn agency_sum(
    kinds: Seq<SuzunaAdAgencyType>,
    used: spec_fn(SuzunaAdAgencyType) -> bool,
    value: spec_fn(SuzunaAdAgencyType) -> Option<u32>,
) -> int
    decreases kinds.len(),
{
    if kinds.len() == 0 {
        0
    } else {
        agency_sum(kinds.drop_last(), used, value) + if used(kinds.last()) {
            value(kinds.last()).unwrap() as int
        } else {
            0int
        }
    }
}

proof fn lemma_ad_sum_nonneg(
    kinds: Seq<SuzunaAdType>,
    used: spec_fn(SuzunaAdType) -> bool,
    value: spec_fn(SuzunaAdType) -> Option<u32>,
)
    ensures
        ad_sum(kinds, used, value) >= 0,
    decreases kinds.len(),
{
    if kinds.len() > 0 {
        lemma_ad_sum_nonneg(kinds.drop_last(), used, value);
    }
}

proof fn lemma_ad_sum_prefix(
    kinds: Seq<SuzunaAdType>,
    used: spec_fn(SuzunaAdType) -> bool,
    value: spec_fn(SuzunaAdType) -> Option<u32>,
    k: int,
)
    requires
        0 <= k <= kinds.len(),
    ensures
        ad_sum(kinds.take(k), used, value) <= ad_sum(kinds, used, value),
    decreases kinds.len() - k,
{
    if k < kinds.len() {
        lemma_ad_sum_prefix(kinds, used, value, k + 1);
        assert(kinds.take(k + 1).drop_last() =~= kinds.take(k));
    } else {
        assert(kinds.take(k) =~= kinds);
    }
}

proof fn lemma_agency_sum_prefix(
    kinds: Seq<SuzunaAdAgencyType>,
    used: spec_fn(SuzunaAdAgencyType) -> bool,
    value: spec_fn(SuzunaAdAgencyType) -> Option<u32>,
    k: int,
)
    requires
        0 <= k <= kinds.len(),
    ensures
        agency_sum(kinds.take(k), used, value) <= agency_sum(kinds, used, value),
    decreases kinds.len() - k,
{
    if k < kinds.len() {
        lemma_agency_sum_prefix(kinds, used, value, k + 1);
        assert(kinds.take(k + 1).drop_last() =~= kinds.take(k));
    } else {
        assert(kinds.take(k) =~= kinds);
    }
}

/// What each advertisement costs, by the catalogue.
pub open spec fn ad_costs(resource: &GameResource) -> spec_fn(SuzunaAdType) -> Option<u32> {
    |t: SuzunaAdType| resource.spec_ad_info().spec_cost(t)
}

/// The reputation each advertisement gains, by the catalogue.
pub open spec fn ad_gains(resource: &GameResource) -> spec_fn(SuzunaAdType) -> Option<u32> {
    |t: SuzunaAdType| resource.spec_ad_info().spec_gain(t)
}

/// The money each agency brings in, by the catalogue.
pub open spec fn agency_money_gains(resource: &GameResource) -> spec_fn(
    SuzunaAdAgencyType,
) -> Option<u32> {
    |t: SuzunaAdAgencyType| resource.spec_ad_agency_info().spec_money_gain(t)
}

/// The marks of `used` with advertisement `t` set to `status`.
pub open spec fn with_ad(
    used: spec_fn(SuzunaAdType) -> bool,
    t: SuzunaAdType,
    status: bool,
) -> spec_fn(SuzunaAdType) -> bool {
    |x: SuzunaAdType| if x == t {
        status
    } else {
        used(x)
    }
}

/// The part that advertisement `t` adds to a sum when `used` marks it.
pub open spec fn ad_share(
    used: spec_fn(SuzunaAdType) -> bool,
    value: spec_fn(SuzunaAdType) -> Option<u32>,
    t: SuzunaAdType,
) -> int {
    if used(t) {
        value(t).unwrap() as int
    } else {
        0
    }
}

/// Law: starting an advertisement that was not running adds its value to the
/// sum over all advertisements, stopping one that was running takes its value
/// away, and leaving it as it was changes nothing.
pub proof fn law_ad_toggle_changes_sum(
    used: spec_fn(SuzunaAdType) -> bool,
    value: spec_fn(SuzunaAdType) -> Option<u32>,
    t: SuzunaAdType,
    status: bool,
)
    ensures
        ad_sum(ad_kinds(), with_ad(used, t, status), value) == ad_sum(ad_kinds(), used, value)
            + ad_share(with_ad(used, t, status), value, t) - ad_share(used, value, t),
{
    reveal_with_fuel(ad_sum, 7);
    let k = ad_kinds();
    assert(k.drop_last().drop_last().drop_last().drop_last().drop_last().drop_last() =~= Seq::<
        SuzunaAdType,
    >::empty());
    assert(k.drop_last() =~= seq![
        SuzunaAdType::AdPaper,
        SuzunaAdType::Chindon,
        SuzunaAdType::ShopNobori,
        SuzunaAdType::TownNobori,
        SuzunaAdType::NewsPaper,
    ]);
    assert(k.drop_last().drop_last() =~= seq![
        SuzunaAdType::AdPaper,
        SuzunaAdType::Chindon,
        SuzunaAdType::ShopNobori,
        SuzunaAdType::TownNobori,
    ]);
    assert(k.drop_last().drop_last().drop_last() =~= seq![
        SuzunaAdType::AdPaper,
        SuzunaAdType::Chindon,
        SuzunaAdType::ShopNobori,
    ]);
    assert(k.drop_last().drop_last().drop_last().drop_last() =~= seq![
        SuzunaAdType::AdPaper,
        SuzunaAdType::Chindon,
    ]);
    assert(k.drop_last().drop_last().drop_last().drop_last().drop_last() =~= seq![
        SuzunaAdType::AdPaper,
    ]);
}

/// The first day of the game.
pub open spec fn first_game_day() -> GensoDate {
    GensoDate { season: 112, month: 7, day: 23 }
}

/// The state of a game that is saved.  Its reputation, balance and stamina are
/// floating-point values, held beside it where the game is drawn.
pub struct SavableData {
    pub suzuna_book_pool: SuzunaBookPool,
    pub returning_request_pool: ReturningRequestPool,
    pub date: GensoDate,
    pub week_schedule: WeekWorkSchedule,
    pub task_result: TaskResult,
    pub ad_status: HashMap<u8, bool>,
    pub agency_status: HashMap<u8, bool>,
    pub award_data: AwardData,
    pub game_mode: GameMode,
}

impl SavableData {
    /// Every advertisement and every agency has a status.
    pub open spec fn well_formed(&self) -> bool {
        &&& forall|t: SuzunaAdType| #[trigger] self.ad_status@.contains_key(ad_type_key(t))
        &&& forall|t: SuzunaAdAgencyType| #[trigger] self.agency_status@.contains_key(
            ad_agency_type_key(t),
        )
    }

    /// Whether the advertisement runs.
    pub open spec fn ad_used(&self, t: SuzunaAdType) -> bool {
        self.ad_status@[ad_type_key(t)]
    }

    /// Whether the agency is engaged.
    pub open spec fn agency_used(&self, t: SuzunaAdAgencyType) -> bool {
        self.agency_status@[ad_agency_type_key(t)]
    }

    /// The state of a new game: the first day, five copies of each book in
    /// the pool of books at customers' homes and two returning requests for
    /// each of the seven days before, an empty week plan, a fresh till, no
    /// advertisement running, no agency engaged and no award counted.
    pub fn new(game_data: &GameResource, game_mode: GameMode, last_id: &mut u64) -> (r: Self)
        requires
            *old(last_id) + 5 * game_data.spec_books().len() <= u64::MAX,
            game_data.spec_customers().len() > 0,
        ensures
            r.well_formed(),
            r.date == first_game_day(),
            r.week_schedule.spec_first_day() == first_game_day(),
            forall|i: int| 0 <= i < 7 ==> r.week_schedule.spec_schedule()[i] is None,
            r.task_result.done_works == 0,
            r.task_result.total_money == 1000,
            r.task_result.not_shelved_books@.len() == 0,
            r.task_result.borrowing_books@.len() == 0,
            forall|t: SuzunaAdType| !#[trigger] r.ad_used(t),
            forall|t: SuzunaAdAgencyType| !#[trigger] r.agency_used(t),
            r.award_data == (AwardData {
                borrowing_count: 0,
                returning_count: 0,
                shelving_count: 0,
                customer_count: 0,
                returning_check_mistake_count: 0,
                shop_work_count: 0,
                taking_rest_count: 0,
                going_out_count: 0,
            }),
            r.game_mode == game_mode,
            r.returning_request_pool.spec_requests().len() == 14,
            forall|k: int|
                0 <= k < 14 ==> {
                    let q = #[trigger] r.returning_request_pool.spec_requests()[k];
                    let day = request_day(returning_start(first_game_day()), k / 2);
                    &&& q.borrow_date == day
                    &&& (q.return_date == advance(day, 7) || q.return_date == advance(day, 14))
                    &&& exists|i: int|
                        0 <= i < game_data.spec_customers().len() && q.borrower@
                            == game_data.spec_customers()[i]@
                },
            exists|all: Seq<BookInformation>|
                #![trigger all.to_multiset()]
                {
                    &&& all.len() == 5 * game_data.spec_books().len()
                    &&& forall|k: int|
                        0 <= k < all.len() ==> #[trigger] all[k].same_title(
                            &game_data.spec_books()[k / 5],
                        ) && all[k].spec_unique_id() == *old(last_id) + k + 1
                    &&& r.suzuna_book_pool.spec_books().to_multiset().add(
                        all_returning(r.returning_request_pool.spec_requests()).to_multiset(),
                    ) == all.to_multiset()
                },
            r.suzuna_book_pool.spec_books().len() + all_returning(
                r.returning_request_pool.spec_requests(),
            ).len() == 5 * game_data.spec_books().len(),
            *final(last_id) == *old(last_id) + 5 * game_data.spec_books().len(),
    {
        let date = GensoDate::new(112, 7, 23);
        let mut suzuna_book_pool = SuzunaBookPool::new(game_data, last_id);
        let ghost pool_before = suzuna_book_pool.spec_books();
        proof {
            reveal_with_fuel(add_day_ok, 3);
        }
        let returning_request_pool = ReturningRequestPool::new(
            &mut suzuna_book_pool,
            game_data,
            date,
        );
        proof {
            let after = suzuna_book_pool.spec_books();
            let taken = all_returning(returning_request_pool.spec_requests());
            assert(pool_before.to_multiset().len() == pool_before.len());
            assert(after.to_multiset().len() == after.len());
            assert(taken.to_multiset().len() == taken.len());
            assert(after.to_multiset().add(taken.to_multiset()) == pool_before.to_multiset());
        }
        let mut ad_status: HashMap<u8, bool> = HashMap::new();
        let mut key: u8 = 0;
        while key < 6
            invariant
                key <= 6,
                forall|k: u8| #[trigger] ad_status@.contains_key(k) <==> k < key,
                forall|k: u8| ad_status@.contains_key(k) ==> !#[trigger] ad_status@[k],
            decreases 6 - key,
        {
            ad_status.insert(key, false);
            key += 1;
        }
        let mut agency_status: HashMap<u8, bool> = HashMap::new();
        let mut key: u8 = 0;
        while key < 6
            invariant
                key <= 6,
                forall|k: u8| #[trigger] agency_status@.contains_key(k) <==> k < key,
                forall|k: u8| agency_status@.contains_key(k) ==> !#[trigger] agency_status@[k],
            decreases 6 - key,
        {
            agency_status.insert(key, false);
            key += 1;
        }
        SavableData {
            suzuna_book_pool,
            returning_request_pool,
            date,
            week_schedule: WeekWorkSchedule::new_empty(date),
            task_result: TaskResult::new(),
            ad_status,
            agency_status,
            award_data: AwardData::new(),
            game_mode,
        }
    }

    /// Which advertisements run.
    pub open spec fn ad_usage(&self) -> spec_fn(SuzunaAdType) -> bool {
        |t: SuzunaAdType| self.ad_used(t)
    }

    /// Which agencies are engaged.
    pub open spec fn agency_usage(&self) -> spec_fn(SuzunaAdAgencyType) -> bool {
        |t: SuzunaAdAgencyType| self.agency_used(t)
    }

    /// Every running advertisement has a cost in the catalogue.
    pub open spec fn running_ads_have(
        &self,
        value: spec_fn(SuzunaAdType) -> Option<u32>,
    ) -> bool {
        forall|t: SuzunaAdType| #[trigger] self.ad_used(t) ==> value(t) is Some
    }

    /// Every engaged agency has a value in the catalogue.
    pub open spec fn engaged_agencies_have(
        &self,
        value: spec_fn(SuzunaAdAgencyType) -> Option<u32>,
    ) -> bool {
        forall|t: SuzunaAdAgencyType| #[trigger] self.agency_used(t) ==> value(t) is Some
    }

    /// Starts or stops an advertisement.
    pub fn change_ad_status(&mut self, ad_type: SuzunaAdType, status: bool)
        requires
            old(self).well_formed(),
        ensures
            final(self).well_formed(),
            forall|t: SuzunaAdType| #[trigger]
                final(self).ad_used(t) == if t == ad_type {
                    status
                } else {
                    old(self).ad_used(t)
                },
            forall|t: SuzunaAdAgencyType| #[trigger]
                final(self).agency_used(t) == old(self).agency_used(t),
            final(self).ad_usage() == with_ad(old(self).ad_usage(), ad_type, status),
            *final(self) == (SavableData { ad_status: final(self).ad_status, ..*old(self) }),
    {
        self.ad_status.insert(ad_type.key(), status);
        proof {
            assert forall|t: SuzunaAdType| #[trigger]
                self.ad_usage()(t) == if t == ad_type {
                    status
                } else {
                    old(self).ad_used(t)
                } by {
                crate::ad::law_ad_type_key_injective(t, ad_type);
            }
            assert(self.ad_usage() =~= with_ad(old(self).ad_usage(), ad_type, status));
        }
    }

    /// Engages or dismisses an agency.
    pub fn change_ad_agency_status(&mut self, ad_type: SuzunaAdAgencyType, status: bool)
        requires
            old(self).well_formed(),
        ensures
            final(self).well_formed(),
            forall|t: SuzunaAdAgencyType| #[trigger]
                final(self).agency_used(t) == if t == ad_type {
                    status
                } else {
                    old(self).agency_used(t)
                },
            forall|t: SuzunaAdType| #[trigger] final(self).ad_used(t) == old(self).ad_used(t),
            *final(self) == (SavableData { agency_status: final(self).agency_status, ..*old(self) }),
    {
        self.agency_status.insert(ad_type.key(), status);
        proof {
            assert forall|t: SuzunaAdAgencyType| #[trigger]
                self.agency_usage()(t) == if t == ad_type {
                    status
                } else {
                    old(self).agency_used(t)
                } by {
                crate::ad::law_ad_agency_type_key_injective(t, ad_type);
            }
        }
    }

    /// Whether the advertisement runs.
    pub fn get_ad_status(&self, ad_type: SuzunaAdType) -> (r: bool)
        requires
            self.well_formed(),
        ensures
            r == self.ad_used(ad_type),
    {
        *self.ad_status.get(&ad_type.key()).unwrap()
    }

    /// Whether the agency is engaged.
    pub fn get_ad_agency_status(&self, agency_type: &SuzunaAdAgencyType) -> (r: bool)
        requires
            self.well_formed(),
        ensures
            r == self.agency_used(*agency_type),
    {
        *self.agency_status.get(&agency_type.key()).unwrap()
    }

    /// Pays for the running advertisements out of the till and hands back
    /// what they cost together.
    pub fn pay_ad_cost(&mut self, resource: &GameResource) -> (r: i32)
        requires
            old(self).well_formed(),
            old(self).running_ads_have(ad_costs(resource)),
            ad_sum(
                ad_kinds(),
                old(self).ad_usage(),
                ad_costs(resource),
            ) <= i32::MAX,
            old(self).task_result.total_money - ad_sum(
                ad_kinds(),
                old(self).ad_usage(),
                ad_costs(resource),
            ) >= i32::MIN,
        ensures
            r == ad_sum(
                ad_kinds(),
                old(self).ad_usage(),
                ad_costs(resource),
            ),
            final(self).task_result.total_money == old(self).task_result.total_money - r,
            final(self).task_result == (TaskResult {
                total_money: final(self).task_result.total_money,
                ..old(self).task_result
            }),
            *final(self) == (SavableData { task_result: final(self).task_result, ..*old(self) }),
    {
        let kinds = [
            SuzunaAdType::AdPaper,
            SuzunaAdType::Chindon,
            SuzunaAdType::ShopNobori,
            SuzunaAdType::TownNobori,
            SuzunaAdType::NewsPaper,
            SuzunaAdType::BunBunMaruPaper,
        ];
        let ghost cost = ad_costs(resource);
        let ghost used = old(self).ad_usage();
        proof {
            assert(kinds@ =~= ad_kinds());
            lemma_ad_sum_nonneg(ad_kinds(), used, cost);
        }
        let mut total_cost: i32 = 0;
        let mut i: usize = 0;
        while i < 6
            invariant
                i <= 6,
                kinds@ == ad_kinds(),
                self.well_formed(),
                self.ad_usage() == used,
                cost == ad_costs(resource),
                self.task_result == (TaskResult {
                    total_money: self.task_result.total_money,
                    ..old(self).task_result
                }),
                *self == (SavableData { task_result: self.task_result, ..*old(self) }),
                old(self).running_ads_have(cost),
                ad_sum(ad_kinds(), used, cost) <= i32::MAX,
                old(self).task_result.total_money - ad_sum(ad_kinds(), used, cost) >= i32::MIN,
                total_cost == ad_sum(ad_kinds().take(i as int), used, cost),
                0 <= total_cost,
                self.task_result.total_money == old(self).task_result.total_money - total_cost,
            decreases 6 - i,
        {
            let t = kinds[i];
            proof {
                assert(ad_kinds().take(i + 1).drop_last() =~= ad_kinds().take(i as int));
                assert(ad_kinds().take(i + 1).last() == t);
                lemma_ad_sum_prefix(ad_kinds(), used, cost, i + 1);
                assert(old(self).ad_used(t) == self.ad_used(t));
            }
            if self.get_ad_status(t) {
                let cost_now = resource.get_default_ad_cost(t) as i32;
                self.task_result.total_money -= cost_now;
                total_cost += cost_now;
            }
            i += 1;
        }
        proof {
            assert(ad_kinds().take(6) =~= ad_kinds());
        }
        total_cost
    }

    pub fn update_week_schedule(&mut self, sched: WeekWorkSchedule)
        ensures
            *final(self) == (SavableData { week_schedule: sched, ..*old(self) }),
    {
        self.week_schedule = sched;
    }

    /// The work planned for the current date.
    pub fn get_todays_schedule(&self) -> (r: Option<DayWorkType>)
        requires
            diff_day_ok(self.week_schedule.spec_first_day(), self.date),
        ensures
            r == self.week_schedule.schedule_of(self.date),
    {
        self.week_schedule.get_schedule_of(&self.date)
    }

    /// Takes over every part of `data`.
    pub fn replace(&mut self, data: SavableData)
        ensures
            *final(self) == data,
    {
        *self = data;
    }

    /// What the running advertisements cost together, as the day's planning
    /// screen shows it.
    pub fn current_total_ad_cost(&self, resource: &GameResource) -> (r: i32)
        requires
            self.well_formed(),
            self.running_ads_have(ad_costs(resource)),
            ad_sum(
                ad_kinds(),
                self.ad_usage(),
                ad_costs(resource),
            ) <= u32::MAX,
        ensures
            r == ad_sum(
                ad_kinds(),
                self.ad_usage(),
                ad_costs(resource),
            ) as i32,
    {
        let kinds = [
            SuzunaAdType::AdPaper,
            SuzunaAdType::Chindon,
            SuzunaAdType::ShopNobori,
            SuzunaAdType::TownNobori,
            SuzunaAdType::NewsPaper,
            SuzunaAdType::BunBunMaruPaper,
        ];
        let ghost value = ad_costs(resource);
        let ghost used = self.ad_usage();
        proof {
            assert(kinds@ =~= ad_kinds());
        }
        let mut total: u32 = 0;
        let mut i: usize = 0;
        while i < 6
            invariant
                i <= 6,
                kinds@ == ad_kinds(),
                self.well_formed(),
                self.ad_usage() == used,
                value == ad_costs(resource),
                self.running_ads_have(value),
                ad_sum(ad_kinds(), used, value) <= u32::MAX,
                total == ad_sum(ad_kinds().take(i as int), used, value),
            decreases 6 - i,
        {
            let t = kinds[i];
            proof {
                assert(ad_kinds().take(i + 1).drop_last() =~= ad_kinds().take(i as int));
                assert(ad_kinds().take(i + 1).last() == t);
                lemma_ad_sum_prefix(ad_kinds(), used, value, i + 1);
            }
            if self.get_ad_status(t) {
                total = total + resource.get_default_ad_cost(t);
            }
            i += 1;
        }
        proof {
            assert(ad_kinds().take(6) =~= ad_kinds());
        }
        total as i32
    }

    /// The reputation that the running advertisements gain together.
    pub fn current_total_ad_reputation_gain(&self, resource: &GameResource) -> (r: i32)
        requires
            self.well_formed(),
            self.running_ads_have(ad_gains(resource)),
            ad_sum(
                ad_kinds(),
                self.ad_usage(),
                ad_gains(resource),
            ) <= u32::MAX,
        ensures
            r == ad_sum(
                ad_kinds(),
                self.ad_usage(),
                ad_gains(resource),
            ) as i32,
    {
        let kinds = [
            SuzunaAdType::AdPaper,
            SuzunaAdType::Chindon,
            SuzunaAdType::ShopNobori,
            SuzunaAdType::TownNobori,
            SuzunaAdType::NewsPaper,
            SuzunaAdType::BunBunMaruPaper,
        ];
        let ghost value = ad_gains(resource);
        let ghost used = self.ad_usage();
        proof {
            assert(kinds@ =~= ad_kinds());
        }
        let mut total: u32 = 0;
        let mut i: usize = 0;
        while i < 6
            invariant
                i <= 6,
                kinds@ == ad_kinds(),
                self.well_formed(),
                self.ad_usage() == used,
                value == ad_gains(resource),
                self.running_ads_have(value),
                ad_sum(ad_kinds(), used, value) <= u32::MAX,
                total == ad_sum(ad_kinds().take(i as int), used, value),
            decreases 6 - i,
        {
            let t = kinds[i];
            proof {
                assert(ad_kinds().take(i + 1).drop_last() =~= ad_kinds().take(i as int));
                assert(ad_kinds().take(i + 1).last() == t);
                lemma_ad_sum_prefix(ad_kinds(), used, value, i + 1);
            }
            if self.get_ad_status(t) {
                total = total + resource.get_default_ad_reputation_gain(t);
            }
            i += 1;
        }
        proof {
            assert(ad_kinds().take(6) =~= ad_kinds());
        }
        total as i32
    }

    /// The money that the engaged agencies bring in together.
    pub fn current_total_ad_agency_money_gain(&self, resource: &GameResource) -> (r: i32)
        requires
            self.well_formed(),
            self.engaged_agencies_have(
                agency_money_gains(resource),
            ),
            agency_sum(
                agency_kinds(),
                self.agency_usage(),
                agency_money_gains(resource),
            ) <= u32::MAX,
        ensures
            r == agency_sum(
                agency_kinds(),
                self.agency_usage(),
                agency_money_gains(resource),
            ) as i32,
    {
        let kinds = [
            SuzunaAdAgencyType::HakureiJinja,
            SuzunaAdAgencyType::KirisameMahoten,
            SuzunaAdAgencyType::GettoDango,
            SuzunaAdAgencyType::Kusuriya,
            SuzunaAdAgencyType::Hieda,
            SuzunaAdAgencyType::YamaJinja,
        ];
        let ghost value = agency_money_gains(resource);
        let ghost used = self.agency_usage();
        proof {
            assert(kinds@ =~= agency_kinds());
        }
        let mut total: u32 = 0;
        let mut i: usize = 0;
        while i < 6
            invariant
                i <= 6,
                kinds@ == agency_kinds(),
                self.well_formed(),
                self.agency_usage() == used,
                value == agency_money_gains(resource),
                self.engaged_agencies_have(value),
                agency_sum(agency_kinds(), used, value) <= u32::MAX,
                total == agency_sum(agency_kinds().take(i as int), used, value),
            decreases 6 - i,
        {
            let t = kinds[i];
            proof {
                assert(agency_kinds().take(i + 1).drop_last() =~= agency_kinds().take(i as int));
                assert(agency_kinds().take(i + 1).last() == t);
                lemma_agency_sum_prefix(agency_kinds(), used, value, i + 1);
            }
            if self.get_ad_agency_status(&t) {
                total = total + resource.get_default_ad_agency_money_gain(&t);
            }
            i += 1;
        }
        proof {
            assert(agency_kinds().take(6) =~= agency_kinds());
        }
        total as i32
    }

    /// Whether the week plan held covers the current date with every day
    /// decided, so that no new plan is needed.
    pub fn holding_week_schedule_is_available(&self) -> (r: bool)
        requires
            diff_day_ok(self.week_schedule.spec_first_day(), self.date),
        ensures
            r == ({
                let diff = diff_day_spec(self.week_schedule.spec_first_day(), self.date);
                0 <= diff < 7 && self.week_schedule.all_decided()
            }),
    {
        self.week_schedule.update_is_not_required(&self.date)
    }

    /// Moves to the next day.
    pub fn go_next_day(&mut self)
        requires
            add_day_ok(old(self).date, 1),
        ensures
            final(self).date == advance(old(self).date, 1),
            *final(self) == (SavableData { date: final(self).date, ..*old(self) }),
    {
        self.date.add_day(1);
    }
}

/// Law: the advertising cost that the planning screen shows
/// (`current_total_ad_cost`) is what paying for the advertisements
/// (`pay_ad_cost`) takes from the till, and paying, which changes only the
/// day's result, leaves the screen showing the same cost.
pub proof fn law_shown_ad_cost_is_paid(s: SavableData, after: SavableData, resource: &GameResource)
    requires
        s.well_formed(),
        s.running_ads_have(ad_costs(resource)),
        ad_sum(ad_kinds(), s.ad_usage(), ad_costs(resource)) <= i32::MAX,
        after == (SavableData { task_result: after.task_result, ..s }),
    ensures
        ad_sum(ad_kinds(), s.ad_usage(), ad_costs(resource)) <= u32::MAX,
        ad_sum(ad_kinds(), s.ad_usage(), ad_costs(resource)) as i32 == ad_sum(
            ad_kinds(),
            s.ad_usage(),
            ad_costs(resource),
        ),
        after.well_formed(),
        after.running_ads_have(ad_costs(resource)),
        after.ad_usage() == s.ad_usage(),
{
    lemma_ad_sum_nonneg(ad_kinds(), s.ad_usage(), ad_costs(resource));
    assert forall|t: SuzunaAdType| #[trigger] after.ad_used(t) implies ad_costs(resource)(t) is Some by {
        assert(after.ad_used(t) == s.ad_used(t));
    }
    assert(after.ad_usage() =~= s.ad_usage());
}

} // verus!
