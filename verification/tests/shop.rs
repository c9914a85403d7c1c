use suzu::ad::{AdAgencyCostTable, AdCostTable, SuzunaAdAgencyType, SuzunaAdType};
use suzu::book::{BookCondition, BookInformation};
use suzu::book_management::{DayNewBooks, NewBookEntry, NewBookSchedule};
use suzu::borrowing::{BorrowingInformation, ReturnBookInformation, ReturningRequestPool, SuzunaBookPool};
use suzu::date::{GensoDate, RentalLimit};
use suzu::report::{GameMode, ResultReport, TaskResult};
use suzu::resource::{GameResource, MapConstractData};
use suzu::scenario_table::{GeneralScenarioID, ScenarioTable};
use suzu::savable::SavableData;
use suzu::game_system::{DayWorkType, WeekWorkSchedule};

fn book(name: &str, price: u32, last_id: &mut u64) -> BookInformation {
    BookInformation::new(name.to_string(), 100, "中".to_string(), 1, price, last_id)
}

fn ad_tables() -> (AdCostTable, AdAgencyCostTable) {
    let ad = AdCostTable::from_data(
        vec![("ShopNobori".to_string(), 100), ("Chindon".to_string(), 300), ("ShopNobori".to_string(), 120)],
        vec![("ShopNobori".to_string(), 2), ("Chindon".to_string(), 5)],
    );
    let agency = AdAgencyCostTable::from_data(
        vec![("HakureiJinja".to_string(), 1000), ("Hieda".to_string(), 2000)],
        vec![("HakureiJinja".to_string(), 50), ("Hieda".to_string(), 80)],
    );
    (ad, agency)
}

fn resource() -> (GameResource, u64) {
    let mut last_id = 0u64;
    let books = vec![book("竹取物語", 800, &mut last_id), book("源氏物語", 600, &mut last_id), book("今昔物語", 400, &mut last_id)];
    let table = ScenarioTable::new(
        vec![(GensoDate::new(112, 7, 23), "/scenario/day_7_23.toml".to_string())],
        vec![("NoEnoughMoney".to_string(), "/scenario/no_enough_money.toml".to_string())],
    );
    let (ad, agency) = ad_tables();
    let maps = vec![MapConstractData {
        id: 0,
        comment: "shop".to_string(),
        map_file_path: "/map/shop.tmx".to_string(),
        event_map_file_path: "/map/shop_event.toml".to_string(),
    }];
    let r = GameResource::new(vec!["阿求".to_string(), "魔理沙".to_string()], books, maps, table, ad, agency);
    (r, last_id)
}

#[test]
fn ad_tables_last_entry_wins() {
    let (ad, agency) = ad_tables();
    assert_eq!(ad.get_cost(SuzunaAdType::ShopNobori), 120);
    assert_eq!(ad.get_cost(SuzunaAdType::Chindon), 300);
    assert_eq!(ad.get_reputation_gain(SuzunaAdType::Chindon), 5);
    assert_eq!(agency.get_cost(&SuzunaAdAgencyType::Hieda), 2000);
    assert_eq!(agency.get_money_gain(&SuzunaAdAgencyType::HakureiJinja), 50);
}

#[test]
fn ad_names() {
    assert_eq!(SuzunaAdType::from_str("BunBunMaruPaper"), SuzunaAdType::BunBunMaruPaper);
    assert_eq!(SuzunaAdAgencyType::from_str("YamaJinja"), SuzunaAdAgencyType::YamaJinja);
}

#[test]
fn scenario_table_lookup() {
    let table = ScenarioTable::new(
        vec![
            (GensoDate::new(112, 7, 23), "/a.toml".to_string()),
            (GensoDate::new(112, 7, 24), "/b.toml".to_string()),
            (GensoDate::new(112, 7, 23), "/c.toml".to_string()),
        ],
        vec![("NoEnoughMoney".to_string(), "/money.toml".to_string())],
    );
    assert_eq!(table.get_day_scenario_path(&GensoDate::new(112, 7, 23)), Some("/c.toml".to_string()));
    assert_eq!(table.get_day_scenario_path(&GensoDate::new(112, 7, 24)), Some("/b.toml".to_string()));
    assert_eq!(table.get_day_scenario_path(&GensoDate::new(112, 7, 25)), None);
    assert_eq!(
        table.get_general_scenario_path(&GeneralScenarioID::from_str("NoEnoughMoney")),
        Some("/money.toml".to_string())
    );
    let empty = ScenarioTable::new(vec![], vec![]);
    assert_eq!(empty.get_general_scenario_path(&GeneralScenarioID::NoEnoughMoney), None);
}

#[test]
fn resource_lookups() {
    let (r, _) = resource();
    assert_eq!(r.search_book_with_title("源氏物語").map(|b| b.get_base_price()), Some(600));
    assert!(r.search_book_with_title("枕草子").is_none());
    assert_eq!(r.iter_available_books().len(), 3);
    let name = r.customer_random_select().to_string();
    assert!(name == "阿求" || name == "魔理沙");
    let b = r.book_random_select();
    assert!(r.iter_available_books().iter().any(|c| c.get_name() == b.get_name()));
    assert_eq!(r.get_map_data(7).map(|m| m.map_file_path), Some("/map/shop.tmx".to_string()));
    assert_eq!(r.get_day_scenario_path(&GensoDate::new(112, 7, 23)), Some("/scenario/day_7_23.toml".to_string()));
    assert_eq!(r.get_default_ad_cost(SuzunaAdType::ShopNobori), 120);
    assert_eq!(r.get_default_ad_reputation_gain(SuzunaAdType::ShopNobori), 2);
    assert_eq!(r.get_default_ad_agency_cost(&SuzunaAdAgencyType::HakureiJinja), 1000);
    assert_eq!(r.get_default_ad_agency_money_gain(&SuzunaAdAgencyType::Hieda), 80);
}

#[test]
fn borrowing_return_date_and_fee() {
    let mut last_id = 0u64;
    let books = vec![book("a", 800, &mut last_id), book("b", 600, &mut last_id)];
    let info = BorrowingInformation::new(books, "阿求", GensoDate::new(112, 7, 23), RentalLimit::LongTerm);
    assert_eq!(info.return_date, GensoDate::new(112, 8, 6));
    assert_eq!(info.calc_fee(), 2100);

    let books = vec![book("c", 333, &mut last_id)];
    let short = BorrowingInformation::new(books, "阿求", GensoDate::new(112, 7, 23), RentalLimit::ShortTerm);
    assert_eq!(short.return_date, GensoDate::new(112, 7, 30));
    assert_eq!(short.calc_fee(), 333);

    let books = vec![book("d", 999, &mut last_id)];
    let today = BorrowingInformation::new(books, "阿求", GensoDate::new(112, 7, 23), RentalLimit::Today);
    assert_eq!(today.return_date, GensoDate::new(112, 7, 23));
    assert_eq!(today.calc_fee(), 0);
}

#[test]
fn return_information_rental_limit() {
    let info = ReturnBookInformation::new(vec![], "魔理沙", GensoDate::new(112, 7, 23), GensoDate::new(112, 7, 30));
    assert_eq!(info.get_rental_limit(), RentalLimit::ShortTerm);
    assert_eq!(info.borrower, "魔理沙");
}

#[test]
fn random_return_request_from_catalogue() {
    let (r, _) = resource();
    for _ in 0..10 {
        let q = ReturnBookInformation::new_random(&r, GensoDate::new(112, 7, 16), GensoDate::new(112, 7, 23));
        assert!(!q.returning.is_empty() && q.returning.len() <= 5);
        for b in q.returning.iter() {
            assert!(r.search_book_with_title(b.get_name()).is_some());
        }
        assert!(q.borrower == "阿求" || q.borrower == "魔理沙");
    }
}

#[test]
fn book_pool_holds_five_copies_each() {
    let (r, mut last_id) = resource();
    let start = last_id;
    let pool = SuzunaBookPool::new(&r, &mut last_id);
    assert_eq!(last_id, start + 15);
    let _ = pool;
}

#[test]
fn borrowing_request_takes_distinct_titles_out_of_pool() {
    let (r, mut last_id) = resource();
    let mut pool = SuzunaBookPool::new(&r, &mut last_id);
    let req = pool.generate_borrowing_request("阿求", GensoDate::new(112, 7, 23), RentalLimit::ShortTerm);
    assert!(!req.borrowing.is_empty() && req.borrowing.len() <= 3);
    for i in 0..req.borrowing.len() {
        for j in (i + 1)..req.borrowing.len() {
            assert_ne!(req.borrowing[i].get_name(), req.borrowing[j].get_name());
        }
    }
    assert_eq!(req.return_date, GensoDate::new(112, 7, 30));
    // The drawn books go back: the pool is whole again.
    let back = req.borrowing.len();
    pool.push_book_vec(req.borrowing);
    let again = pool.generate_returning_request("魔理沙", GensoDate::new(112, 7, 23), RentalLimit::Today);
    assert!(back >= 1);
    assert_eq!(again.return_date, GensoDate::new(112, 7, 23));
}

#[test]
fn empty_pool_gives_empty_request() {
    let mut last_id = 0u64;
    let (ad, agency) = ad_tables();
    let r = GameResource::new(vec!["x".to_string()], vec![], vec![], ScenarioTable::new(vec![], vec![]), ad, agency);
    let mut pool = SuzunaBookPool::new(&r, &mut last_id);
    let req = pool.generate_borrowing_request("x", GensoDate::new(112, 7, 23), RentalLimit::LongTerm);
    assert!(req.borrowing.is_empty());
}

#[test]
fn returning_request_pool_has_two_requests_a_day() {
    let (r, mut last_id) = resource();
    let mut pool = SuzunaBookPool::new(&r, &mut last_id);
    let today = GensoDate::new(112, 7, 23);
    let mut requests = ReturningRequestPool::new(&mut pool, &r, today);
    assert_eq!(requests.iter().len(), 14);
    for (k, q) in requests.iter().iter().enumerate() {
        let day = GensoDate::new(112, 7, 16).add_day_chain((k / 2) as i32);
        assert_eq!(q.borrow_date, day);
        assert!(q.return_date == day.add_day_chain(7) || q.return_date == day.add_day_chain(14));
    }
    let picked = requests.select_returning_request_random();
    assert!(picked.is_some());
    assert_eq!(requests.iter().len(), 13);
}

#[test]
fn task_result_accumulates() {
    let mut total = TaskResult::new();
    assert_eq!(total.total_money, 1000);
    let mut day = TaskResult::new();
    day.done_works = 3;
    day.add_total_money(-200).add_total_money(50);
    assert_eq!(day.total_money, 850);
    total.add_result(&day);
    assert_eq!(total.done_works, 3);
    assert_eq!(total.total_money, 1850);
    total.reset();
    assert_eq!(total.total_money, 0);
    assert_eq!(total.done_works, 0);
}

#[test]
fn report_titles() {
    let mut report = ResultReport::new();
    assert!(report.new_books_shelving_is_done());
    assert_eq!(report.generate_eval_str(), "鈴奈庵の主");

    report.add_customers_waiting_time(45 * 60);
    assert_eq!(report.generate_eval_str(), "占い師より向いてる");

    report.add_condition_eval_mistakes(1);
    assert_eq!(report.generate_eval_str(), "見習い");

    report.add_condition_eval_mistakes(1);
    assert_eq!(report.get_conition_eval_mistakes(), 2);
    assert_eq!(report.generate_eval_str(), "霊夢より働く");

    report.add_customers_waiting_time(100 * 60);
    assert_eq!(report.generate_eval_str(), "素人");
    assert_eq!(report.get_total_customers_waiting_time(), 145 * 60);
}

#[test]
fn report_counts_unshelved_new_books() {
    let mut report = ResultReport::new();
    report.add_new_book_id(1);
    report.add_new_book_id(2);
    report.add_yet_shelved_book_id(5);
    assert!(report.new_books_shelving_is_done());
    report.add_yet_shelved_book_id(2);
    assert!(!report.new_books_shelving_is_done());
    // One missed new book, no waiting, no mistakes.
    assert_eq!(report.generate_eval_str(), "霊夢より働く");
    report.add_ad_cost(300);
    report.add_ad_cost(-100);
    assert_eq!(report.get_total_ad_cost(), 200);
}

#[test]
fn time_attack_limits() {
    match GameMode::time_attack(300000) {
        GameMode::TimeAttack(data) => {
            assert_eq!(data.get_goal(), 300000);
            assert_eq!(*data.get_limit(), GensoDate::new(112, 7, 23).add_day_chain(60));
        }
        _ => panic!("expected a time attack"),
    }
    match GameMode::time_attack(1000000) {
        GameMode::TimeAttack(data) => {
            assert_eq!(*data.get_limit(), GensoDate::new(112, 11, 21));
        }
        _ => panic!("expected a time attack"),
    }
    assert!(matches!(GameMode::story(), GameMode::Story));
}

#[test]
fn day_new_books_from_entries() {
    let entries = vec![
        NewBookEntry { name: "竹取物語".to_string(), pages: 10, size: "中".to_string(), billing_number: 1, base_price: 100, num: 2 },
        NewBookEntry { name: "源氏物語".to_string(), pages: 20, size: "大".to_string(), billing_number: 2, base_price: 200, num: 0 },
        NewBookEntry { name: "今昔物語".to_string(), pages: 30, size: "小".to_string(), billing_number: 3, base_price: 300, num: 1 },
    ];
    let mut last_id = 0u64;
    let day = DayNewBooks::from_entries(&entries, &mut last_id);
    let books = day.get_new_books();
    let names: Vec<&str> = books.iter().map(|b| b.get_name()).collect();
    assert_eq!(names, vec!["竹取物語", "竹取物語", "今昔物語"]);
    let mut ids: Vec<u64> = books.iter().map(|b| b.get_unique_id()).collect();
    ids.dedup();
    assert_eq!(ids.len(), 3);
}

#[test]
fn random_day_new_books() {
    let (r, mut last_id) = resource();
    let start = last_id;
    let day = DayNewBooks::random(&r, 2, 3, &mut last_id);
    assert_eq!(day.get_new_books().len(), 6);
    assert_eq!(last_id, start + 6);
    for b in day.get_new_books().iter() {
        assert!(r.search_book_with_title(b.get_name()).is_some());
    }
}

#[test]
fn new_book_schedule_lookup() {
    let mut last_id = 0u64;
    let entry = |n: &str, num: i64| NewBookEntry { name: n.to_string(), pages: 1, size: "中".to_string(), billing_number: 1, base_price: 1, num };
    let a = DayNewBooks::from_entries(&vec![entry("a", 1)], &mut last_id);
    let b = DayNewBooks::from_entries(&vec![entry("b", 2)], &mut last_id);
    let c = DayNewBooks::from_entries(&vec![entry("c", 3)], &mut last_id);
    let schedule = NewBookSchedule::from_entries(vec![
        (GensoDate::new(112, 7, 23), a),
        (GensoDate::new(112, 7, 24), b),
        (GensoDate::new(112, 7, 23), c),
    ]);
    assert_eq!(schedule.get_schedule_at(&GensoDate::new(112, 7, 23)).map(|d| d.get_new_books().len()), Some(3));
    assert_eq!(schedule.get_schedule_at(&GensoDate::new(112, 7, 24)).map(|d| d.get_new_books().len()), Some(2));
    assert!(schedule.get_schedule_at(&GensoDate::new(112, 7, 25)).is_none());
}

#[test]
fn savable_data_starts_a_new_game() {
    let (r, mut last_id) = resource();
    let start = last_id;
    let data = SavableData::new(&r, GameMode::story(), &mut last_id);
    assert_eq!(last_id, start + 15);
    assert_eq!(data.date, GensoDate::new(112, 7, 23));
    assert_eq!(data.week_schedule.get_first_day(), GensoDate::new(112, 7, 23));
    assert_eq!(data.task_result.total_money, 1000);
    assert_eq!(data.returning_request_pool.iter().len(), 14);
    assert!(!data.get_ad_status(SuzunaAdType::Chindon));
    assert!(!data.get_ad_agency_status(&SuzunaAdAgencyType::Hieda));
    assert_eq!(data.award_data.customer_count, 0);
    assert!(matches!(data.game_mode, GameMode::Story));
    let at_customers: usize = data.returning_request_pool.iter().iter().map(|q| q.returning.len()).sum();
    assert!(at_customers >= 14 && at_customers <= 70);
}

#[test]
fn savable_data_advertising_sums() {
    let (r, mut last_id) = resource();
    let mut data = SavableData::new(&r, GameMode::story(), &mut last_id);
    assert_eq!(data.current_total_ad_cost(&r), 0);
    data.change_ad_status(SuzunaAdType::ShopNobori, true);
    data.change_ad_status(SuzunaAdType::Chindon, true);
    assert!(data.get_ad_status(SuzunaAdType::Chindon));
    assert_eq!(data.current_total_ad_cost(&r), 420);
    assert_eq!(data.current_total_ad_reputation_gain(&r), 7);
    data.change_ad_status(SuzunaAdType::ShopNobori, false);
    assert_eq!(data.current_total_ad_cost(&r), 300);
    data.change_ad_agency_status(SuzunaAdAgencyType::HakureiJinja, true);
    data.change_ad_agency_status(SuzunaAdAgencyType::Hieda, true);
    assert_eq!(data.current_total_ad_agency_money_gain(&r), 130);
    let paid = data.pay_ad_cost(&r);
    assert_eq!(paid, 300);
    assert_eq!(data.task_result.total_money, 700);
}

#[test]
fn shown_ad_cost_is_what_is_paid() {
    let (r, mut last_id) = resource();
    let mut data = SavableData::new(&r, GameMode::story(), &mut last_id);
    data.change_ad_status(SuzunaAdType::ShopNobori, true);
    data.change_ad_status(SuzunaAdType::Chindon, true);
    let shown = data.current_total_ad_cost(&r);
    let customers = data.award_data.customer_count;
    let paid = data.pay_ad_cost(&r);
    assert_eq!(shown, paid);
    assert_eq!(paid, 420);
    assert_eq!(data.current_total_ad_cost(&r), shown);
    assert_eq!(data.task_result.total_money, 1000 - paid);
    assert_eq!(data.award_data.customer_count, customers);
    assert_eq!(data.date, GensoDate::new(112, 7, 23));
}

#[test]
fn savable_data_days_and_plans() {
    let (r, mut last_id) = resource();
    let mut data = SavableData::new(&r, GameMode::story(), &mut last_id);
    assert!(!data.holding_week_schedule_is_available());
    assert_eq!(data.get_todays_schedule(), None);
    data.update_week_schedule(WeekWorkSchedule::new(GensoDate::new(112, 7, 23), [DayWorkType::ShopWork; 7]));
    assert!(data.holding_week_schedule_is_available());
    assert_eq!(data.get_todays_schedule(), Some(DayWorkType::ShopWork));
    data.go_next_day();
    assert_eq!(data.date, GensoDate::new(112, 7, 24));
    let fresh = SavableData::new(&r, GameMode::time_attack(500000), &mut last_id);
    data.replace(fresh);
    assert_eq!(data.date, GensoDate::new(112, 7, 23));
    assert!(matches!(data.game_mode, GameMode::TimeAttack(_)));
}

#[test]
fn saved_parts_restore_values() {

    let b = BookInformation::from_parts("枕草子".to_string(), 50, "小".to_string(), 7, 900, BookCondition::Bad, 77);
    assert_eq!(b.get_condition(), BookCondition::Bad);
    assert_eq!(b.get_unique_id(), 77);
    assert_eq!(b.get_billing_number(), 7);
    let pool = SuzunaBookPool::from_books(vec![b.clone()]);
    assert_eq!(pool.get_books().len(), 1);
    assert_eq!(pool.get_books()[0].get_name(), "枕草子");
    let q = ReturnBookInformation::new(vec![b], "阿求", GensoDate::new(112, 7, 16), GensoDate::new(112, 7, 23));
    let requests = ReturningRequestPool::from_requests(vec![q]);
    assert_eq!(requests.iter().len(), 1);
    let week = WeekWorkSchedule::from_days(
        GensoDate::new(112, 7, 23),
        [Some(DayWorkType::ShopWork), None, None, None, None, None, Some(DayWorkType::TakingRest)],
    );
    assert_eq!(week.get_schedule_at(0), Some(DayWorkType::ShopWork));
    assert_eq!(week.get_schedule_at(1), None);
    assert_eq!(week.get_schedule_at(6), Some(DayWorkType::TakingRest));
}

#[test]
fn report_shelving_label() {
    let mut report = ResultReport::new();
    assert_eq!(report.shelving_label(), "達成");
    report.add_new_book_id(3);
    report.add_yet_shelved_book_id(3);
    assert_eq!(report.shelving_label(), "未達成");
}

#[test]
fn names_of_ads_and_scenarios() {
    assert_eq!(SuzunaAdType::named("AdPaper"), Some(SuzunaAdType::AdPaper));
    assert_eq!(SuzunaAdType::named("adpaper"), None);
    assert_eq!(SuzunaAdAgencyType::named("Kusuriya"), Some(SuzunaAdAgencyType::Kusuriya));
    assert_eq!(SuzunaAdAgencyType::named(""), None);
    assert_eq!(GeneralScenarioID::named("NoEnoughMoney"), Some(GeneralScenarioID::NoEnoughMoney));
    assert_eq!(GeneralScenarioID::named("Other"), None);
}

#[test]
fn drawing_with_given_rolls_takes_those_copies() {
    let mut last_id = 0;
    let a = book("竹取物語", 100, &mut last_id);
    let b = book("源氏物語", 200, &mut last_id);
    let c = book("枕草子", 300, &mut last_id);
    let a2 = book("竹取物語", 400, &mut last_id);
    let mut pool = SuzunaBookPool::from_books(vec![a, b, c, a2]);
    // 2 % 5 + 1 = 3 rounds.  Position 1 takes 源氏物語 and the last copy
    // moves there: [竹取 100, 竹取 400, 枕草子].  Position 0 takes 竹取 100:
    // [枕草子, 竹取 400].  Position 0 takes 枕草子: [竹取 400].
    let picked = pool.draw_distinct_titles_with(2, &[1, 0, 0, 7, 7]);
    let names: Vec<&str> = picked.iter().map(|x| x.get_name()).collect();
    assert_eq!(names, vec!["源氏物語", "竹取物語", "枕草子"]);
    assert_eq!(picked[1].get_base_price(), 100);
    let left: Vec<(&str, u32)> = pool.get_books().iter().map(|x| (x.get_name(), x.get_base_price())).collect();
    assert_eq!(left, vec![("竹取物語", 400)]);

    // A copy whose name was taken goes back to the end of the pool.
    let mut last_id = 10;
    let a = book("竹取物語", 100, &mut last_id);
    let a2 = book("竹取物語", 400, &mut last_id);
    let c = book("枕草子", 300, &mut last_id);
    let mut pool = SuzunaBookPool::from_books(vec![a, a2, c]);
    // 1 % 5 + 1 = 2 rounds: position 0 takes 竹取 100, leaving [枕草子, 竹取 400];
    // position 1 draws 竹取 400, which goes back.
    let picked = pool.draw_distinct_titles_with(1, &[0, 1, 0, 0, 0]);
    assert_eq!(picked.len(), 1);
    let left: Vec<(&str, u32)> = pool.get_books().iter().map(|x| (x.get_name(), x.get_base_price())).collect();
    assert_eq!(left, vec![("枕草子", 300), ("竹取物語", 400)]);
}

#[test]
fn drawing_stops_when_the_pool_is_empty() {
    let mut last_id = 0;
    let mut pool = SuzunaBookPool::from_books(vec![book("竹取物語", 100, &mut last_id)]);
    let picked = pool.draw_distinct_titles_with(4, &[3, 3, 3, 3, 3]);
    assert_eq!(picked.len(), 1);
    assert!(pool.get_books().is_empty());
}

#[test]
fn taking_a_request_by_roll() {
    let day = GensoDate::new(112, 7, 16);
    let back = GensoDate::new(112, 7, 23);
    let mut requests = ReturningRequestPool::from_requests(vec![
        ReturnBookInformation::new(vec![], "霊夢", day, back),
        ReturnBookInformation::new(vec![], "魔理沙", day, back),
        ReturnBookInformation::new(vec![], "阿求", day, back),
    ]);
    // 4 % 3 = 1: the second request leaves, and the last takes its place.
    let q = requests.take_request_at(4);
    assert_eq!(q.borrower, "魔理沙");
    let left: Vec<&str> = requests.iter().iter().map(|r| r.borrower.as_str()).collect();
    assert_eq!(left, vec!["霊夢", "阿求"]);
}
