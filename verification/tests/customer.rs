use suzu::ad::{AdAgencyCostTable, AdCostTable};
use suzu::book::BookInformation;
use suzu::customer::{
    CustomerCharacter, CustomerCharacterStatus, CustomerDestPoint, CustomerInformation, CustomerMoveQueue,
    CustomerRequest,
};
use suzu::date::{GensoDate, RentalLimit};
use suzu::map::{StageObjectMap, TileLayer, TileSet};
use suzu::resource::GameResource;
use suzu::scenario_table::ScenarioTable;

fn resource() -> GameResource {
    let mut last_id = 0u64;
    let books = vec![
        BookInformation::new("竹取物語".to_string(), 100, "中".to_string(), 1, 800, &mut last_id),
        BookInformation::new("源氏物語".to_string(), 120, "大".to_string(), 2, 600, &mut last_id),
    ];
    GameResource::new(
        vec!["阿求".to_string()],
        books,
        vec![],
        ScenarioTable::new(vec![], vec![]),
        AdCostTable::from_data(vec![], vec![]),
        AdAgencyCostTable::from_data(vec![], vec![]),
    )
}

/// An open floor of 4 by 4 tiles with its route grid built.
fn floor() -> StageObjectMap {
    let ts = TileSet::new((32, 32), (2, 2), 1, vec![]);
    let layers = vec![TileLayer { visible: true, gids: vec![vec![0; 4]; 4] }];
    let mut map = StageObjectMap::new(vec![ts], layers, (4, 4), (32, 32));
    map.build_collision_map();
    map
}

#[test]
fn move_queue_is_first_in_first_out() {
    let mut q = CustomerMoveQueue::new();
    assert!(q.empty());
    q.enqueue(vec![(1, 0), (2, 0)]);
    q.enqueue(vec![(3, 0)]);
    assert_eq!(q.len(), 3);
    assert_eq!(q.dequeue(), Some((1, 0)));
    assert_eq!(q.dequeue(), Some((2, 0)));
    assert_eq!(q.dequeue(), Some((3, 0)));
    assert_eq!(q.dequeue(), None);
    q.enqueue(vec![(0, 1)]);
    q.clear();
    assert!(q.empty());
}

#[test]
fn dest_point_picks_a_candidate() {
    let d = CustomerDestPoint::new(vec![(1, 1), (2, 3)]);
    for _ in 0..20 {
        let p = d.random_select();
        assert!(p == (1, 1) || p == (2, 3));
    }
}

#[test]
fn new_customer_is_ready_and_named() {
    let r = resource();
    let c = CustomerCharacter::new(&r, CustomerDestPoint::new(vec![(3, 3)]));
    assert_eq!(c.get_status(), CustomerCharacterStatus::Ready);
    assert_eq!(c.get_customer_name(), "阿求");
    assert!(c.ready_to_check());
    assert!(!c.is_wait_on_clerk());
    assert!(!c.is_got_out());
    assert_eq!(CustomerInformation::new("小鈴").name, "小鈴");
}

#[test]
fn find_route_only_when_nothing_left_to_walk() {
    let r = resource();
    let map = floor();
    let mut c = CustomerCharacter::new(&r, CustomerDestPoint::new(vec![(3, 3)]));
    assert_eq!(c.find_route(&map, None, (2, 0)), None);
    let route = c.find_route(&map, Some((0, 0)), (2, 0)).unwrap();
    assert_eq!(route, vec![(0, 0), (1, 0), (2, 0)]);
    c.receive_route(Some(route));
    assert_eq!(c.find_route(&map, Some((0, 0)), (2, 0)), None);
    let unbuilt = StageObjectMap::new(vec![], vec![], (4, 4), (32, 32));
    let c2 = CustomerCharacter::new(&r, CustomerDestPoint::new(vec![(3, 3)]));
    assert_eq!(c2.find_route(&unbuilt, Some((0, 0)), (2, 0)), None);
}

#[test]
fn ready_customer_chooses_a_shelf_and_waits_for_its_route() {
    let r = resource();
    let map = floor();
    let mut c = CustomerCharacter::new(&r, CustomerDestPoint::new(vec![(0, 2)]));
    let step = c.try_update_move_effect(&map, (3, 0), (3, 3), false, Some((0, 0)));
    assert_eq!(c.get_status(), CustomerCharacterStatus::WaitOnBookShelf);
    assert_eq!(step.scheduled_route, Some(vec![(0, 0), (0, 1), (0, 2)]));
    assert_eq!(step.head_for, None);
    // Waiting by the shelf, nothing happens until the route comes back.
    let idle = c.try_update_move_effect(&map, (3, 0), (3, 3), true, Some((0, 0)));
    assert!(idle.snap_to.is_none() && idle.head_for.is_none() && idle.scheduled_route.is_none());
    c.receive_route(step.scheduled_route);
    assert_eq!(c.get_status(), CustomerCharacterStatus::Ready);
    // The route's tiles are walked in order.
    let s1 = c.try_update_move_effect(&map, (3, 0), (3, 3), false, Some((0, 0)));
    assert_eq!(s1.head_for, Some((0, 0)));
    assert_eq!(c.get_status(), CustomerCharacterStatus::Moving);
    let s2 = c.try_update_move_effect(&map, (3, 0), (3, 3), false, Some((0, 0)));
    assert!(s2.snap_to.is_none() && s2.head_for.is_none());
    let s3 = c.try_update_move_effect(&map, (3, 0), (3, 3), true, Some((0, 0)));
    assert_eq!(s3.snap_to, Some((0, 0)));
    assert!(s3.reset_speed);
    assert!(!s3.face_left);
    assert_eq!(c.get_status(), CustomerCharacterStatus::Ready);
    let s4 = c.try_update_move_effect(&map, (3, 0), (3, 3), false, Some((0, 0)));
    assert_eq!(s4.head_for, Some((0, 1)));
}

#[test]
fn no_route_without_a_position() {
    let r = resource();
    let map = floor();
    let mut c = CustomerCharacter::new(&r, CustomerDestPoint::new(vec![(0, 2)]));
    let step = c.try_update_move_effect(&map, (3, 0), (3, 3), false, None);
    assert_eq!(step.scheduled_route, None);
    assert_eq!(c.get_status(), CustomerCharacterStatus::WaitOnBookShelf);
}

#[test]
fn forced_destination_needs_a_position_and_a_grid() {
    let r = resource();
    let map = floor();
    let mut c = CustomerCharacter::new(&r, CustomerDestPoint::new(vec![(0, 2)]));
    assert_eq!(c.set_destination_forced(&map, None, (2, 0)), Err(()));
    let unbuilt = StageObjectMap::new(vec![], vec![], (4, 4), (32, 32));
    assert_eq!(c.set_destination_forced(&unbuilt, Some((0, 0)), (2, 0)), Err(()));
    assert_eq!(c.set_destination_forced(&map, Some((0, 0)), (2, 0)), Ok(()));
    assert_eq!(c.get_status(), CustomerCharacterStatus::Ready);
}

#[test]
fn going_to_the_counter_then_leaving() {
    let r = resource();
    let map = floor();
    let counter = (1, 0);
    let exit = (3, 0);
    let mut c = CustomerCharacter::new(&r, CustomerDestPoint::new(vec![(0, 2)]));
    c.goto_check(&map, (0, 0), counter);
    assert_eq!(c.get_status(), CustomerCharacterStatus::GoToCheck);
    assert!(!c.ready_to_check());
    // The current goal is the start tile (0, 0) until the first arrival.
    let s1 = c.try_update_move_effect(&map, counter, exit, true, Some((0, 0)));
    assert_eq!(s1.head_for, Some((0, 0)));
    let s2 = c.try_update_move_effect(&map, counter, exit, true, Some((0, 0)));
    assert_eq!(s2.snap_to, Some((0, 0)));
    assert_eq!(s2.head_for, Some((1, 0)));
    let s3 = c.try_update_move_effect(&map, counter, exit, true, Some((1, 0)));
    assert_eq!(s3.snap_to, Some((1, 0)));
    assert!(s3.reset_speed && s3.face_left);
    assert!(c.is_wait_on_clerk());
    assert!(c.check_rise_hand(&r, GensoDate::new(112, 7, 23)).is_some());
    // Leaving: walk to the exit and be gone.
    c.get_out_shop(&map, (1, 0), exit);
    assert_eq!(c.get_status(), CustomerCharacterStatus::GettingOut);
    assert!(c.check_rise_hand(&r, GensoDate::new(112, 7, 23)).is_none());
    let mut steps = 0;
    while !c.is_got_out() && steps < 10 {
        c.try_update_move_effect(&map, counter, exit, true, None);
        steps += 1;
    }
    assert!(c.is_got_out());
    let after = c.try_update_move_effect(&map, counter, exit, true, None);
    assert!(after.snap_to.is_none() && after.head_for.is_none());
}

#[test]
fn leaving_before_shopping_does_not_finish() {
    let r = resource();
    let map = floor();
    let mut c = CustomerCharacter::new(&r, CustomerDestPoint::new(vec![(0, 2)]));
    c.get_out_shop(&map, (0, 0), (1, 0));
    for _ in 0..5 {
        c.try_update_move_effect(&map, (2, 2), (1, 0), true, None);
    }
    assert_eq!(c.get_status(), CustomerCharacterStatus::GettingOut);
}

#[test]
fn request_at_the_counter() {
    let r = resource();
    let map = floor();
    let mut c = CustomerCharacter::new(&r, CustomerDestPoint::new(vec![(0, 2)]));
    c.goto_check(&map, (0, 0), (0, 0));
    c.try_update_move_effect(&map, (0, 0), (3, 3), true, None);
    c.try_update_move_effect(&map, (0, 0), (3, 3), true, None);
    assert!(c.is_wait_on_clerk());
    let today = GensoDate::new(112, 7, 23);
    for _ in 0..20 {
        match c.check_rise_hand(&r, today).unwrap() {
            CustomerRequest::Borrowing(b) => {
                assert_eq!(b.borrowing.len(), 1);
                assert_eq!(b.borrower, "阿求");
                assert_eq!(b.borrow_date, today);
                match b.rental_limit {
                    RentalLimit::ShortTerm => assert_eq!(b.return_date, GensoDate::new(112, 7, 30)),
                    RentalLimit::LongTerm => assert_eq!(b.return_date, GensoDate::new(112, 8, 6)),
                    RentalLimit::Today => panic!("not a customer's period"),
                }
            }
            CustomerRequest::Returning(q) => {
                assert!(1 <= q.returning.len() && q.returning.len() <= 5);
                assert_eq!(q.borrow_date, today);
                assert_eq!(q.return_date, GensoDate::new(128, 12, 20));
            }
        }
    }
}
