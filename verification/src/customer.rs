//! The customers walking through the shop: where they may head, the tiles of
//! their route still to walk, and the state machine that decides, frame by
//! frame, where a customer goes next and when it waits at the counter or
//! leaves.  Speeds, screen positions and the test whether a customer has
//! reached its goal are fractions and stay with the caller, which hands the
//! outcome of that test in.

use std::collections::VecDeque;

use vstd::prelude::*;
use vstd::string::StringExecFns;

use crate::borrowing::{in_catalogue, BorrowingInformation, ReturnBookInformation};
use crate::date::{add_day_ok, advance, law_add_day_compose, rental_days, GensoDate, RentalLimit};
use crate::map::{as_tile_positions, is_shortest_route, reachable, StageObjectMap};
use crate::random::random_usize;
use crate::resource::GameResource;

verus! {

/// The tiles a customer may choose as its next goal in the shop.
pub struct CustomerDestPoint {
    candidates: Vec<(u32, u32)>,
}

impl CustomerDestPoint {
    pub closed spec fn spec_candidates(&self) -> Seq<(u32, u32)> {
        self.candidates@
    }

    pub fn new(candidates: Vec<(u32, u32)>) -> (r: Self)
        ensures
            r.spec_candidates() == candidates@,
    {
        CustomerDestPoint { candidates }
    }

    /// One of the candidates, chosen at random.
    pub fn random_select(&self) -> (r: (u32, u32))
        requires
            self.spec_candidates().len() > 0,
        ensures
            self.spec_candidates().contains(r),
    {
        let random_index = random_usize() % self.candidates.len();
        let r = self.candidates[random_index];
        assert(self.candidates@[random_index as int] == r);
        r
    }
}

/// The tiles of a route still to walk, the next one first.
pub struct CustomerMoveQueue {
    queue: VecDeque<(u32, u32)>,
}

impl View for CustomerMoveQueue {
    type V = Seq<(u32, u32)>;

    closed spec fn view(&self) -> Seq<(u32, u32)> {
        self.queue@
    }
}

impl CustomerMoveQueue {
    pub fn new() -> (r: Self)
        ensures
            r@.len() == 0,
    {
        CustomerMoveQueue { queue: VecDeque::new() }
    }

    /// Appends the tiles of `points` behind those still to walk.
    pub fn enqueue(&mut self, points: Vec<(u32, u32)>)
        ensures
            final(self)@ == old(self)@ + points@,
    {
        let mut i: usize = 0;
        while i < points.len()
            invariant
                i <= points@.len(),
                self@ == old(self)@ + points@.take(i as int),
            decreases points.len() - i,
        {
            self.queue.push_back(points[i]);
            proof {
                assert(points@.take(i + 1) =~= points@.take(i as int).push(points@[i as int]));
            }
            i += 1;
        }
        proof {
            assert(points@.take(i as int) =~= points@);
        }
    }

    /// Takes out the next tile, if any is left.
    pub fn dequeue(&mut self) -> (r: Option<(u32, u32)>)
        ensures
            old(self)@.len() == 0 ==> r is None && final(self)@ == old(self)@,
            old(self)@.len() > 0 ==> r == Some(old(self)@[0]) && final(self)@ == old(self)@.drop_first(),
    {
        self.queue.pop_front()
    }

    pub fn len(&self) -> (r: usize)
        ensures
            r == self@.len(),
    {
        self.queue.len()
    }

    pub fn empty(&self) -> (r: bool)
        ensures
            r == (self@.len() == 0),
    {
        self.len() == 0
    }

    pub fn clear(&mut self)
        ensures
            final(self)@.len() == 0,
    {
        self.queue.clear();
    }
}

/// Whether the route search can answer a route from `start` to `goal` on the
/// map: its route grid is not built yet, or some route leads there.  (On an
/// unreachable goal the search does not end.)
pub open spec fn route_answerable(map: StageObjectMap, start: (u32, u32), goal: (u32, u32)) -> bool {
    map.spec_collision_map() matches Some(m) ==> reachable(
        m.spec_size(),
        m.spec_obstacles(),
        (start.0 as i32, start.1 as i32),
        (goal.0 as i32, goal.1 as i32),
    )
}

/// `route` is a route of the fewest steps from `start` to `goal` over the
/// map's route grid, as tiles.
pub open spec fn shortest_route_on(
    map: StageObjectMap,
    start: (u32, u32),
    goal: (u32, u32),
    route: Seq<(u32, u32)>,
) -> bool {
    map.spec_collision_map() matches Some(m) && exists|path: Seq<(i32, i32)>|
        is_shortest_route(
            m.spec_size(),
            m.spec_obstacles(),
            (start.0 as i32, start.1 as i32),
            (goal.0 as i32, goal.1 as i32),
            path,
        ) && route == as_tile_positions(path)
}

/// What a customer is doing.
#[derive(Debug, Clone, Copy, PartialEq, Eq, Structural)]
pub enum CustomerCharacterStatus {
    Ready,
    Moving,
    GoToCheck,
    WaitOnClerk,
    WaitOnBookShelf,
    GotOut,
    GettingOut,
}

/// Who the customer is.
pub struct CustomerInformation {
    pub name: String,
}

impl CustomerInformation {
    pub fn new(name: &str) -> (r: Self)
        ensures
            r.name@ == name@,
    {
        CustomerInformation { name: String::from_str(name) }
    }
}

/// What a customer brings to the counter.
pub enum CustomerRequest {
    Borrowing(BorrowingInformation),
    Returning(ReturnBookInformation),
}

/// What the caller does for a customer after a frame's decision.
pub struct CustomerStep {
    /// Put the customer exactly on this tile.
    pub snap_to: Option<(u32, u32)>,
    /// Head for this tile: the speed is worked out toward it.
    pub head_for: Option<(u32, u32)>,
    /// Stop the customer.
    pub reset_speed: bool,
    /// Turn the customer to the left, toward the clerk.
    pub face_left: bool,
    /// A route to hand back through `receive_route` a moment later.
    pub scheduled_route: Option<Vec<(u32, u32)>>,
}

impl CustomerStep {
    /// The step does these things and schedules no route.
    pub open spec fn shaped(
        &self,
        snap_to: Option<(u32, u32)>,
        head_for: Option<(u32, u32)>,
        reset_speed: bool,
        face_left: bool,
    ) -> bool {
        &&& self.snap_to == snap_to
        &&& self.head_for == head_for
        &&& self.reset_speed == reset_speed
        &&& self.face_left == face_left
        &&& self.scheduled_route is None
    }

    fn shape(
        snap_to: Option<(u32, u32)>,
        head_for: Option<(u32, u32)>,
        reset_speed: bool,
        face_left: bool,
    ) -> (r: Self)
        ensures
            r.shaped(snap_to, head_for, reset_speed, face_left),
    {
        CustomerStep { snap_to, head_for, reset_speed, face_left, scheduled_route: None }
    }
}

/// A customer in the shop: where it may head, the route still to walk, what
/// it is doing, whether it has been served, and the tile it walks to now.
pub struct CustomerCharacter {
    move_data: CustomerDestPoint,
    move_queue: CustomerMoveQueue,
    customer_status: CustomerCharacterStatus,
    shopping_is_done: bool,
    current_goal: (u32, u32),
    customer_info: CustomerInformation,
}

impl CustomerCharacter {
    pub closed spec fn spec_status(&self) -> CustomerCharacterStatus {
        self.customer_status
    }

    pub closed spec fn spec_route(&self) -> Seq<(u32, u32)> {
        self.move_queue@
    }

    pub closed spec fn spec_shopping_done(&self) -> bool {
        self.shopping_is_done
    }

    pub closed spec fn spec_goal(&self) -> (u32, u32) {
        self.current_goal
    }

    pub closed spec fn spec_candidates(&self) -> Seq<(u32, u32)> {
        self.move_data.spec_candidates()
    }

    pub closed spec fn spec_name(&self) -> Seq<char> {
        self.customer_info.name@
    }

    /// A customer waits at the counter, or has left, only once it has been
    /// to the counter.
    pub open spec fn well_formed(&self) -> bool {
        (self.spec_status() == CustomerCharacterStatus::WaitOnClerk || self.spec_status()
            == CustomerCharacterStatus::GotOut) ==> self.spec_shopping_done()
    }

    /// `self` is `before` with the given state of the walk; where it may head
    /// and who it is are kept.
    pub open spec fn walk_is(
        &self,
        before: CustomerCharacter,
        status: CustomerCharacterStatus,
        goal: (u32, u32),
        route: Seq<(u32, u32)>,
        done: bool,
    ) -> bool {
        &&& self.spec_status() == status
        &&& self.spec_goal() == goal
        &&& self.spec_route() == route
        &&& self.spec_shopping_done() == done
        &&& self.spec_candidates() == before.spec_candidates()
        &&& self.spec_name() == before.spec_name()
    }

    /// Arriving at the current goal, the customer reaches the counter for the
    /// first time.
    pub open spec fn reaches_counter(&self, counter: (u32, u32)) -> bool {
        !self.spec_shopping_done() && self.spec_goal() == counter
    }

    /// A customer of the catalogue's customers, ready to walk, with nothing
    /// to walk yet.
    pub fn new(game_data: &GameResource, move_data: CustomerDestPoint) -> (r: Self)
        requires
            game_data.spec_customers().len() > 0,
        ensures
            r.spec_status() == CustomerCharacterStatus::Ready,
            r.spec_route().len() == 0,
            !r.spec_shopping_done(),
            r.spec_goal() == (0u32, 0u32),
            r.spec_candidates() == move_data.spec_candidates(),
            exists|i: int|
                0 <= i < game_data.spec_customers().len() && r.spec_name()
                    == game_data.spec_customers()[i]@,
            r.well_formed(),
    {
        CustomerCharacter {
            move_data,
            move_queue: CustomerMoveQueue::new(),
            customer_status: CustomerCharacterStatus::Ready,
            shopping_is_done: false,
            current_goal: (0, 0),
            customer_info: CustomerInformation::new(game_data.customer_random_select()),
        }
    }

    /// The route from the tile the customer stands on to `dest`, once the
    /// route walked before is used up.  `start` is the tile the customer
    /// stands on, absent when its position is off the map.
    pub fn find_route(&self, map_data: &StageObjectMap, start: Option<(u32, u32)>, dest: (u32, u32)) -> (r:
        Option<Vec<(u32, u32)>>)
        requires
            start is Some ==> route_answerable(*map_data, start.unwrap(), dest),
        ensures
            r is Some <==> (self.spec_route().len() == 0 && start is Some
                && map_data.spec_collision_map() is Some),
            r is Some ==> shortest_route_on(*map_data, start.unwrap(), dest, r.unwrap()@),
    {
        if self.move_queue.empty() {
            if let Some(map_start_pos) = start {
                return map_data.find_shortest_route(map_start_pos, dest);
            }
        }
        None
    }

    /// Hands in the route asked for when the customer chose its next goal:
    /// the customer walks it.
    pub fn receive_route(&mut self, route: Option<Vec<(u32, u32)>>)
        requires
            old(self).well_formed(),
        ensures
            final(self).well_formed(),
            route is None ==> *final(self) == *old(self),
            route is Some ==> final(self).walk_is(
                *old(self),
                CustomerCharacterStatus::Ready,
                old(self).spec_goal(),
                old(self).spec_route() + route.unwrap()@,
                old(self).spec_shopping_done(),
            ),
    {
        if let Some(next_route) = route {
            self.move_queue.enqueue(next_route);
            self.customer_status = CustomerCharacterStatus::Ready;
        }
    }

    /// Asks for the route to `goal` and waits by the shelf until it is
    /// handed in.
    fn determine_next_goal(&mut self, map_data: &StageObjectMap, start: Option<(u32, u32)>, goal: (u32, u32)) -> (r:
        Option<Vec<(u32, u32)>>)
        requires
            start is Some ==> route_answerable(*map_data, start.unwrap(), goal),
        ensures
            final(self).walk_is(
                *old(self),
                CustomerCharacterStatus::WaitOnBookShelf,
                old(self).spec_goal(),
                old(self).spec_route(),
                old(self).spec_shopping_done(),
            ),
            r is Some <==> (old(self).spec_route().len() == 0 && start is Some
                && map_data.spec_collision_map() is Some),
            r is Some ==> shortest_route_on(*map_data, start.unwrap(), goal, r.unwrap()@),
    {
        let maybe_next_route = self.find_route(map_data, start, goal);
        self.customer_status = CustomerCharacterStatus::WaitOnBookShelf;
        maybe_next_route
    }

    /// Sets off for the next tile of the route, or, with none left, chooses a
    /// shelf to go to.
    fn update_move_effect(&mut self, map_data: &StageObjectMap, start: Option<(u32, u32)>) -> (r:
        CustomerStep)
        requires
            old(self).spec_route().len() == 0 ==> old(self).spec_candidates().len() > 0,
            old(self).spec_route().len() == 0 && start is Some ==> forall|c: (u32, u32)|
                old(self).spec_candidates().contains(c) ==> route_answerable(
                    *map_data,
                    start.unwrap(),
                    c,
                ),
        ensures
            old(self).spec_route().len() == 0 ==> {
                &&& final(self).walk_is(
                    *old(self),
                    CustomerCharacterStatus::WaitOnBookShelf,
                    old(self).spec_goal(),
                    old(self).spec_route(),
                    old(self).spec_shopping_done(),
                )
                &&& r.snap_to is None && r.head_for is None && !r.reset_speed && !r.face_left
                &&& (r.scheduled_route is Some <==> (start is Some
                    && map_data.spec_collision_map() is Some))
                &&& r.scheduled_route is Some ==> exists|g: (u32, u32)|
                    old(self).spec_candidates().contains(g) && shortest_route_on(
                        *map_data,
                        start.unwrap(),
                        g,
                        r.scheduled_route.unwrap()@,
                    )
            },
            old(self).spec_route().len() > 0 ==> final(self).walk_is(
                *old(self),
                CustomerCharacterStatus::Moving,
                old(self).spec_route()[0],
                old(self).spec_route().drop_first(),
                old(self).spec_shopping_done(),
            ) && r.shaped(None, Some(old(self).spec_route()[0]), false, false),
    {
        if self.move_queue.empty() {
            let goal = self.move_data.random_select();
            let route = self.determine_next_goal(map_data, start, goal);
            return CustomerStep {
                snap_to: None,
                head_for: None,
                reset_speed: false,
                face_left: false,
                scheduled_route: route,
            };
        }
        let next_position = self.move_queue.dequeue().unwrap();
        self.current_goal = next_position;
        self.customer_status = CustomerCharacterStatus::Moving;
        CustomerStep::shape(None, Some(next_position), false, false)
    }

    /// Drops the route walked so far and sets off along the route from the
    /// tile the customer stands on to `dest`, when one is found.
    pub fn set_destination_forced(
        &mut self,
        map_data: &StageObjectMap,
        start: Option<(u32, u32)>,
        dest: (u32, u32),
    ) -> (r: Result<(), ()>)
        requires
            old(self).well_formed(),
            start is Some ==> route_answerable(*map_data, start.unwrap(), dest),
        ensures
            final(self).well_formed(),
            r is Ok <==> (start is Some && map_data.spec_collision_map() is Some),
            r is Ok ==> final(self).walk_is(
                *old(self),
                CustomerCharacterStatus::Ready,
                old(self).spec_goal(),
                final(self).spec_route(),
                old(self).spec_shopping_done(),
            ) && shortest_route_on(*map_data, start.unwrap(), dest, final(self).spec_route()),
            r is Err ==> final(self).walk_is(
                *old(self),
                old(self).spec_status(),
                old(self).spec_goal(),
                Seq::empty(),
                old(self).spec_shopping_done(),
            ),
    {
        self.move_queue.clear();
        let maybe_next_route = self.find_route(map_data, start, dest);
        if let Some(next_route) = maybe_next_route {
            self.move_queue.enqueue(next_route);
            proof {
                assert(self.move_queue@ =~= maybe_next_route.unwrap()@);
            }
            self.customer_status = CustomerCharacterStatus::Ready;
            Ok(())
        } else {
            assert(self.move_queue@ =~= Seq::empty());
            Err(())
        }
    }

    /// Sets off for the exit `dest` along a route from the tile `start` the
    /// customer stands on.
    pub fn get_out_shop(&mut self, map_data: &StageObjectMap, start: (u32, u32), dest: (u32, u32))
        requires
            old(self).well_formed(),
            map_data.spec_collision_map() is Some,
            route_answerable(*map_data, start, dest),
        ensures
            final(self).well_formed(),
            final(self).walk_is(
                *old(self),
                CustomerCharacterStatus::GettingOut,
                old(self).spec_goal(),
                final(self).spec_route(),
                old(self).spec_shopping_done(),
            ),
            shortest_route_on(*map_data, start, dest, final(self).spec_route()),
    {
        let r = self.set_destination_forced(map_data, Some(start), dest);
        assert(r is Ok);
        self.customer_status = CustomerCharacterStatus::GettingOut;
    }

    /// Sets off for the counter `dest` along a route from the tile `start`
    /// the customer stands on.
    pub fn goto_check(&mut self, map_data: &StageObjectMap, start: (u32, u32), dest: (u32, u32))
        requires
            old(self).well_formed(),
            map_data.spec_collision_map() is Some,
            route_answerable(*map_data, start, dest),
        ensures
            final(self).well_formed(),
            final(self).walk_is(
                *old(self),
                CustomerCharacterStatus::GoToCheck,
                old(self).spec_goal(),
                final(self).spec_route(),
                old(self).spec_shopping_done(),
            ),
            shortest_route_on(*map_data, start, dest, final(self).spec_route()),
    {
        let r = self.set_destination_forced(map_data, Some(start), dest);
        assert(r is Ok);
        self.customer_status = CustomerCharacterStatus::GoToCheck;
    }

    /// At the counter for the first time, the customer waits for the clerk;
    /// the result says whether it did.
    fn check_been_counter(&mut self, counter: (u32, u32)) -> (r: bool)
        ensures
            r == old(self).reaches_counter(counter),
            r ==> final(self).walk_is(
                *old(self),
                CustomerCharacterStatus::WaitOnClerk,
                old(self).spec_goal(),
                old(self).spec_route(),
                true,
            ),
            !r ==> *final(self) == *old(self),
    {
        if !self.shopping_is_done && self.current_goal.0 == counter.0 && self.current_goal.1
            == counter.1 {
            self.customer_status = CustomerCharacterStatus::WaitOnClerk;
            self.shopping_is_done = true;
            true
        } else {
            false
        }
    }

    /// At the exit after shopping, the customer has left.
    fn check_get_out(&mut self, exit: (u32, u32))
        ensures
            old(self).spec_shopping_done() && old(self).spec_goal() == exit ==> final(self).walk_is(
                *old(self),
                CustomerCharacterStatus::GotOut,
                old(self).spec_goal(),
                old(self).spec_route(),
                true,
            ),
            !(old(self).spec_shopping_done() && old(self).spec_goal() == exit) ==> *final(self)
                == *old(self),
    {
        if self.shopping_is_done && self.current_goal.0 == exit.0 && self.current_goal.1 == exit.1 {
            self.customer_status = CustomerCharacterStatus::GotOut;
        }
    }

    pub fn is_got_out(&self) -> (r: bool)
        ensures
            r == (self.spec_status() == CustomerCharacterStatus::GotOut),
    {
        self.customer_status == CustomerCharacterStatus::GotOut
    }

    pub fn is_wait_on_clerk(&self) -> (r: bool)
        ensures
            r == (self.spec_status() == CustomerCharacterStatus::WaitOnClerk),
    {
        self.customer_status == CustomerCharacterStatus::WaitOnClerk
    }

    /// Whether the clerk may call the customer to the counter: it is walking
    /// about or about to.
    pub fn ready_to_check(&self) -> (r: bool)
        ensures
            r == (self.spec_status() == CustomerCharacterStatus::Moving || self.spec_status()
                == CustomerCharacterStatus::Ready),
    {
        match self.customer_status {
            CustomerCharacterStatus::Moving | CustomerCharacterStatus::Ready => true,
            _ => false,
        }
    }

    pub fn get_status(&self) -> (r: CustomerCharacterStatus)
        ensures
            r == self.spec_status(),
    {
        self.customer_status
    }

    pub fn get_customer_name(&self) -> (r: &str)
        ensures
            r@ == self.spec_name(),
    {
        self.customer_info.name.as_str()
    }

    /// The frame's decision for the customer.  `arrived` says whether the
    /// customer has come near enough to its current goal; `start` is the tile
    /// it stands on, absent when its position is off the map; `counter` and
    /// `exit` are the tiles of the counter and the exit.
    pub fn try_update_move_effect(
        &mut self,
        map_data: &StageObjectMap,
        counter: (u32, u32),
        exit: (u32, u32),
        arrived: bool,
        start: Option<(u32, u32)>,
    ) -> (r: CustomerStep)
        requires
            old(self).well_formed(),
            old(self).spec_status() == CustomerCharacterStatus::Ready && old(self).spec_route().len()
                == 0 ==> old(self).spec_candidates().len() > 0,
            old(self).spec_status() == CustomerCharacterStatus::Ready && old(self).spec_route().len()
                == 0 && start is Some ==> forall|c: (u32, u32)|
                old(self).spec_candidates().contains(c) ==> route_answerable(
                    *map_data,
                    start.unwrap(),
                    c,
                ),
        ensures
            final(self).well_formed(),
            // Ready with nothing to walk: a shelf is chosen and its route asked for.
            old(self).spec_status() == CustomerCharacterStatus::Ready && old(self).spec_route().len()
                == 0 ==> {
                &&& final(self).walk_is(
                    *old(self),
                    CustomerCharacterStatus::WaitOnBookShelf,
                    old(self).spec_goal(),
                    old(self).spec_route(),
                    old(self).spec_shopping_done(),
                )
                &&& r.snap_to is None && r.head_for is None && !r.reset_speed && !r.face_left
                &&& (r.scheduled_route is Some <==> (start is Some
                    && map_data.spec_collision_map() is Some))
                &&& r.scheduled_route is Some ==> exists|g: (u32, u32)|
                    old(self).spec_candidates().contains(g) && shortest_route_on(
                        *map_data,
                        start.unwrap(),
                        g,
                        r.scheduled_route.unwrap()@,
                    )
            },
            // Ready with a route: off to its next tile.
            old(self).spec_status() == CustomerCharacterStatus::Ready && old(self).spec_route().len()
                > 0 ==> final(self).walk_is(
                *old(self),
                CustomerCharacterStatus::Moving,
                old(self).spec_route()[0],
                old(self).spec_route().drop_first(),
                old(self).spec_shopping_done(),
            ) && r.shaped(None, Some(old(self).spec_route()[0]), false, false),
            // Walking and arrived: stop on the goal; at the counter the first
            // time, wait for the clerk; at the exit after that, leave.
            old(self).spec_status() == CustomerCharacterStatus::Moving && arrived ==> final(self).walk_is(
                *old(self),
                if (old(self).spec_shopping_done() || old(self).reaches_counter(counter))
                    && old(self).spec_goal() == exit {
                    CustomerCharacterStatus::GotOut
                } else if old(self).reaches_counter(counter) {
                    CustomerCharacterStatus::WaitOnClerk
                } else {
                    CustomerCharacterStatus::Ready
                },
                old(self).spec_goal(),
                old(self).spec_route(),
                old(self).spec_shopping_done() || old(self).reaches_counter(counter),
            ) && r.shaped(
                Some(old(self).spec_goal()),
                None,
                true,
                old(self).reaches_counter(counter),
            ),
            // Leaving and arrived: stop on the goal; at the exit, gone;
            // else off to the next tile of the route, if any.
            old(self).spec_status() == CustomerCharacterStatus::GettingOut && arrived && old(self).spec_shopping_done() && old(self).spec_goal() == exit ==> final(self).walk_is(
                *old(self),
                CustomerCharacterStatus::GotOut,
                old(self).spec_goal(),
                old(self).spec_route(),
                true,
            ) && r.shaped(Some(old(self).spec_goal()), None, false, false),
            old(self).spec_status() == CustomerCharacterStatus::GettingOut && arrived && !(old(self).spec_shopping_done() && old(self).spec_goal() == exit) && old(self).spec_route().len()
                > 0 ==> final(self).walk_is(
                *old(self),
                CustomerCharacterStatus::GettingOut,
                old(self).spec_route()[0],
                old(self).spec_route().drop_first(),
                old(self).spec_shopping_done(),
            ) && r.shaped(Some(old(self).spec_goal()), Some(old(self).spec_route()[0]), false, false),
            old(self).spec_status() == CustomerCharacterStatus::GettingOut && arrived && !(old(self).spec_shopping_done() && old(self).spec_goal() == exit) && old(self).spec_route().len()
                == 0 ==> final(self).walk_is(
                *old(self),
                CustomerCharacterStatus::GettingOut,
                old(self).spec_goal(),
                old(self).spec_route(),
                old(self).spec_shopping_done(),
            ) && r.shaped(Some(old(self).spec_goal()), None, false, false),
            // Going to the counter and arrived: stop on the goal; off to the
            // next tile, or, at the end of the route, stop facing the clerk.
            old(self).spec_status() == CustomerCharacterStatus::GoToCheck && arrived && old(self).spec_route().len() > 0 ==> final(self).walk_is(
                *old(self),
                CustomerCharacterStatus::GoToCheck,
                old(self).spec_route()[0],
                old(self).spec_route().drop_first(),
                old(self).spec_shopping_done(),
            ) && r.shaped(Some(old(self).spec_goal()), Some(old(self).spec_route()[0]), false, false),
            old(self).spec_status() == CustomerCharacterStatus::GoToCheck && arrived && old(self).spec_route().len() == 0 ==> final(self).walk_is(
                *old(self),
                if old(self).reaches_counter(counter) {
                    CustomerCharacterStatus::WaitOnClerk
                } else {
                    CustomerCharacterStatus::GoToCheck
                },
                old(self).spec_goal(),
                old(self).spec_route(),
                old(self).spec_shopping_done() || old(self).reaches_counter(counter),
            ) && r.shaped(Some(old(self).spec_goal()), None, true, true),
            // Otherwise nothing happens.
            (!arrived && old(self).spec_status() != CustomerCharacterStatus::Ready) || old(self).spec_status() == CustomerCharacterStatus::WaitOnClerk || old(self).spec_status()
                == CustomerCharacterStatus::WaitOnBookShelf || old(self).spec_status()
                == CustomerCharacterStatus::GotOut ==> *final(self) == *old(self) && r.shaped(
                None,
                None,
                false,
                false,
            ),
    {
        match self.customer_status {
            CustomerCharacterStatus::Ready => self.update_move_effect(map_data, start),
            CustomerCharacterStatus::Moving => {
                if !arrived {
                    return CustomerStep::shape(None, None, false, false);
                }
                let goal = self.current_goal;
                self.customer_status = CustomerCharacterStatus::Ready;
                let at_counter = self.check_been_counter(counter);
                self.check_get_out(exit);
                CustomerStep::shape(Some(goal), None, true, at_counter)
            },
            CustomerCharacterStatus::GettingOut => {
                if !arrived {
                    return CustomerStep::shape(None, None, false, false);
                }
                let goal = self.current_goal;
                self.check_get_out(exit);
                if self.customer_status == CustomerCharacterStatus::GotOut {
                    return CustomerStep::shape(Some(goal), None, false, false);
                }
                if let Some(next_position) = self.move_queue.dequeue() {
                    self.current_goal = next_position;
                    CustomerStep::shape(Some(goal), Some(next_position), false, false)
                } else {
                    CustomerStep::shape(Some(goal), None, false, false)
                }
            },
            CustomerCharacterStatus::GoToCheck => {
                if !arrived {
                    return CustomerStep::shape(None, None, false, false);
                }
                let goal = self.current_goal;
                if let Some(next_position) = self.move_queue.dequeue() {
                    self.current_goal = next_position;
                    CustomerStep::shape(Some(goal), Some(next_position), false, false)
                } else {
                    self.check_been_counter(counter);
                    CustomerStep::shape(Some(goal), None, true, true)
                }
            },
            CustomerCharacterStatus::WaitOnClerk | CustomerCharacterStatus::WaitOnBookShelf
            | CustomerCharacterStatus::GotOut => CustomerStep::shape(None, None, false, false),
        }
    }

    /// What the customer asks for at the counter, drawn at random: to borrow
    /// a book of the catalogue from today for a short or a long period, or to
    /// return one to five books of the catalogue, borrowed today by one of
    /// the catalogue's customers and due on day 20 of month 12 of season 128.
    fn generate_hold_request(&self, resource: &GameResource, today: GensoDate) -> (r: CustomerRequest)
        requires
            resource.spec_books().len() > 0,
            resource.spec_customers().len() > 0,
            add_day_ok(today, 14),
        ensures
            r matches CustomerRequest::Borrowing(b) ==> {
                &&& b.borrowing@.len() == 1
                &&& in_catalogue(b.borrowing@[0], resource.spec_books())
                &&& b.borrower@ == self.spec_name()
                &&& b.borrow_date == today
                &&& b.rental_limit == RentalLimit::ShortTerm || b.rental_limit
                    == RentalLimit::LongTerm
                &&& b.return_date == advance(today, rental_days(b.rental_limit))
            },
            r matches CustomerRequest::Returning(q) ==> {
                &&& 1 <= q.returning@.len() <= 5
                &&& forall|k: int|
                    0 <= k < q.returning@.len() ==> in_catalogue(
                        #[trigger] q.returning@[k],
                        resource.spec_books(),
                    )
                &&& exists|i: int|
                    0 <= i < resource.spec_customers().len() && q.borrower@
                        == resource.spec_customers()[i]@
                &&& q.borrow_date == today
                &&& q.return_date == (GensoDate { season: 128, month: 12, day: 20 })
            },
    {
        if random_usize() % 2 == 0 {
            proof {
                law_add_day_compose(today, 7, 7);
            }
            let book = resource.book_random_select().clone();
            let limit = RentalLimit::random();
            CustomerRequest::Borrowing(
                BorrowingInformation::new(vec![book], self.customer_info.name.as_str(), today, limit),
            )
        } else {
            CustomerRequest::Returning(
                ReturnBookInformation::new_random(resource, today, GensoDate::new(128, 12, 20)),
            )
        }
    }

    /// When the customer waits at the counter, what it asks for (see
    /// `generate_hold_request`); else nothing.
    pub fn check_rise_hand(&self, resource: &GameResource, today: GensoDate) -> (r: Option<
        CustomerRequest,
    >)
        requires
            resource.spec_books().len() > 0,
            resource.spec_customers().len() > 0,
            add_day_ok(today, 14),
        ensures
            r is Some <==> self.spec_status() == CustomerCharacterStatus::WaitOnClerk,
            r matches Some(CustomerRequest::Borrowing(b)) ==> {
                &&& b.borrowing@.len() == 1
                &&& in_catalogue(b.borrowing@[0], resource.spec_books())
                &&& b.borrower@ == self.spec_name()
                &&& b.borrow_date == today
                &&& b.rental_limit == RentalLimit::ShortTerm || b.rental_limit
                    == RentalLimit::LongTerm
                &&& b.return_date == advance(today, rental_days(b.rental_limit))
            },
            r matches Some(CustomerRequest::Returning(q)) ==> {
                &&& 1 <= q.returning@.len() <= 5
                &&& forall|k: int|
                    0 <= k < q.returning@.len() ==> in_catalogue(
                        #[trigger] q.returning@[k],
                        resource.spec_books(),
                    )
                &&& exists|i: int|
                    0 <= i < resource.spec_customers().len() && q.borrower@
                        == resource.spec_customers()[i]@
                &&& q.borrow_date == today
                &&& q.return_date == (GensoDate { season: 128, month: 12, day: 20 })
            },
    {
        if self.customer_status == CustomerCharacterStatus::WaitOnClerk {
            Some(self.generate_hold_request(resource, today))
        } else {
            None
        }
    }
}

} // verus!
