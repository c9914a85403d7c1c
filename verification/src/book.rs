//! Books of the shop: their condition, their catalogue information and the
//! shelves they are stored on.

use vstd::prelude::*;
use vstd::string::StringExecFns;

use crate::random::random_usize;
use crate::util::get_unique_id;

verus! {

/// The condition a book is in.
#[derive(Debug, Clone, Copy, PartialEq, Eq, Structural)]
pub enum BookCondition {
    Good,
    Fair,
    Bad,
}

/// The condition with number `n`: `0` good, `1` fair, `2` bad.
pub open spec fn condition_numbered(n: int) -> BookCondition {
    if n == 0 {
        BookCondition::Good
    } else if n == 1 {
        BookCondition::Fair
    } else {
        BookCondition::Bad
    }
}

/// Sum of the first `k` percentages of `pb`.
pub open spec fn percent_sum(pb: Seq<u8>, k: int) -> int
    decreases k,
{
    if k <= 0 {
        0
    } else {
        percent_sum(pb, k - 1) + pb[k - 1]
    }
}

/// The first position `i >= from` of `pb` whose running sum exceeds `roll`, or
/// the length of `pb` when there is none.
pub open spec fn roll_position_from(pb: Seq<u8>, roll: int, from: int) -> int
    decreases pb.len() - from,
{
    if from >= pb.len() {
        pb.len() as int
    } else if roll < percent_sum(pb, from + 1) {
        from
    } else {
        roll_position_from(pb, roll, from + 1)
    }
}

/// The position of `pb` that a roll lands in: the first one whose running sum
/// of percentages exceeds the roll.
pub open spec fn roll_position(pb: Seq<u8>, roll: int) -> int {
    roll_position_from(pb, roll, 0)
}

/// The percentages of the first three conditions add up to at least a hundred.
pub open spec fn condition_percentages_cover(pb: Seq<u8>) -> bool {
    100 <= percent_sum(pb, if pb.len() < 3 { pb.len() as int } else { 3 })
}

proof fn lemma_percent_sum_monotone(pb: Seq<u8>, j: int, k: int)
    requires
        0 <= j <= k <= pb.len(),
    ensures
        percent_sum(pb, j) <= percent_sum(pb, k),
    decreases k - j,
{
    if j < k {
        lemma_percent_sum_monotone(pb, j, k - 1);
    }
}

proof fn lemma_roll_position_from(pb: Seq<u8>, roll: int, from: int, k: int)
    requires
        0 <= from <= k <= pb.len(),
        percent_sum(pb, from) <= roll < percent_sum(pb, k),
    ensures
        from <= roll_position_from(pb, roll, from) < k,
        percent_sum(pb, roll_position_from(pb, roll, from)) <= roll,
        roll < percent_sum(pb, roll_position_from(pb, roll, from) + 1),
    decreases pb.len() - from,
{
    if roll >= percent_sum(pb, from + 1) {
        lemma_roll_position_from(pb, roll, from + 1, k);
    }
}

/// Every roll below a hundred lands in one of the first three conditions when
/// their percentages cover a hundred.
proof fn lemma_covered_roll(pb: Seq<u8>, roll: int)
    requires
        condition_percentages_cover(pb),
        0 <= roll < 100,
    ensures
        roll_position(pb, roll) < 3,
        roll_position(pb, roll) < pb.len(),
{
    let k = if pb.len() < 3 {
        pb.len() as int
    } else {
        3
    };
    lemma_roll_position_from(pb, roll, 0, k);
}

impl BookCondition {
    /// The condition with number `integer`.
    pub fn from(integer: i32) -> (r: Self)
        requires
            0 <= integer <= 2,
        ensures
            r == condition_numbered(integer as int),
    {
        if integer == 0 {
            BookCondition::Good
        } else if integer == 1 {
            BookCondition::Fair
        } else {
            BookCondition::Bad
        }
    }

    fn from_u32(value: u32) -> (r: Self)
        requires
            value <= 2,
        ensures
            r == condition_numbered(value as int),
    {
        if value == 0 {
            Self::Good
        } else if value == 1 {
            Self::Fair
        } else {
            Self::Bad
        }
    }

    /// The condition that a roll in `0..100` gives when condition `i` has the
    /// chance `pb[i]` percent: the first condition whose running sum of
    /// percentages exceeds the roll.
    pub fn from_roll(pb: &[u8], roll: usize) -> (r: Self)
        requires
            roll_position(pb@, roll as int) < 3,
            roll_position(pb@, roll as int) < pb@.len(),
        ensures
            r == condition_numbered(roll_position(pb@, roll as int)),
    {
        let mut random = roll;
        let mut index: usize = 0;
        while index < pb.len()
            invariant
                index <= pb@.len(),
                roll_position(pb@, roll as int) == roll_position_from(pb@, roll as int, index as int),
                random == roll - percent_sum(pb@, index as int),
                roll_position_from(pb@, roll as int, index as int) < 3,
                roll_position_from(pb@, roll as int, index as int) < pb@.len(),
            decreases pb.len() - index,
        {
            if random < pb[index] as usize {
                return Self::from_u32(index as u32);
            }
            random -= pb[index] as usize;
            index += 1;
        }
        Self::Bad
    }

    /// A condition drawn at random, condition `i` with the chance `pb[i]` percent.
    pub fn probability_random(pb: &[u8]) -> (r: Self)
        requires
            condition_percentages_cover(pb@),
        ensures
            exists|roll: int| 0 <= roll < 100 && r == condition_numbered(roll_position(pb@, roll)),
    {
        let roll = random_usize() % 100;
        proof {
            lemma_covered_roll(pb@, roll as int);
        }
        Self::from_roll(pb, roll)
    }

    /// The one-letter Japanese mark of the condition.
    pub fn to_string(&self) -> (r: String)
        ensures
            r@ == condition_mark(*self),
    {
        let mark = match self {
            Self::Good => "良",
            Self::Fair => "可",
            Self::Bad => "悪",
        };
        String::from_str(mark)
    }
}

/// The Japanese mark of a condition.
pub open spec fn condition_mark(c: BookCondition) -> Seq<char> {
    match c {
        BookCondition::Good => "良"@,
        BookCondition::Fair => "可"@,
        BookCondition::Bad => "悪"@,
    }
}

/// The percentages with which a new copy of a book is good, fair or bad.
pub open spec fn new_copy_percentages() -> Seq<u8> {
    seq![70u8, 20u8, 10u8]
}

/// The catalogue information of one copy of a book.
#[derive(Debug)]
pub struct BookInformation {
    pub name: String,
    pub pages: usize,
    pub size: String,
    pub billing_number: u16,
    pub base_price: u32,
    condition: BookCondition,
    unique_id: u64,
}

impl Clone for BookInformation {
    fn clone(&self) -> (r: Self)
        ensures
            r == *self,
    {
        BookInformation {
            name: self.name.clone(),
            pages: self.pages,
            size: self.size.clone(),
            billing_number: self.billing_number,
            base_price: self.base_price,
            condition: self.condition,
            unique_id: self.unique_id,
        }
    }
}

impl BookInformation {
    pub closed spec fn spec_name(&self) -> Seq<char> {
        self.name@
    }

    pub closed spec fn spec_pages(&self) -> usize {
        self.pages
    }

    pub closed spec fn spec_size(&self) -> Seq<char> {
        self.size@
    }

    pub closed spec fn spec_billing_number(&self) -> u16 {
        self.billing_number
    }

    pub closed spec fn spec_base_price(&self) -> u32 {
        self.base_price
    }

    pub closed spec fn spec_condition(&self) -> BookCondition {
        self.condition
    }

    pub closed spec fn spec_unique_id(&self) -> u64 {
        self.unique_id
    }

    /// The same title as `other`: name, pages, size, billing number and price.
    pub open spec fn same_title(&self, other: &BookInformation) -> bool {
        &&& self.spec_name() == other.spec_name()
        &&& self.spec_pages() == other.spec_pages()
        &&& self.spec_size() == other.spec_size()
        &&& self.spec_billing_number() == other.spec_billing_number()
        &&& self.spec_base_price() == other.spec_base_price()
    }

    /// A new copy of a book, in a condition drawn at random and with the next
    /// unique id.
    pub fn new(
        name: String,
        pages: usize,
        size: String,
        billing_number: u16,
        base_price: u32,
        last_id: &mut u64,
    ) -> (r: Self)
        requires
            *old(last_id) < u64::MAX,
        ensures
            r.spec_name() == name@,
            r.spec_pages() == pages,
            r.spec_size() == size@,
            r.spec_billing_number() == billing_number,
            r.spec_base_price() == base_price,
            r.spec_unique_id() == *old(last_id) + 1,
            *final(last_id) == *old(last_id) + 1,
    {
        let pb: [u8; 3] = [70, 20, 10];
        proof {
            assert(pb@ =~= new_copy_percentages());
            reveal_with_fuel(percent_sum, 4);
        }
        BookInformation {
            name: name,
            pages: pages,
            size: size,
            billing_number: billing_number,
            base_price: base_price,
            condition: BookCondition::probability_random(&pb),
            unique_id: get_unique_id(last_id),
        }
    }

    /// A copy with every part given, as a saved game holds it.
    pub fn from_parts(
        name: String,
        pages: usize,
        size: String,
        billing_number: u16,
        base_price: u32,
        condition: BookCondition,
        unique_id: u64,
    ) -> (r: Self)
        ensures
            r.spec_name() == name@,
            r.spec_pages() == pages,
            r.spec_size() == size@,
            r.spec_billing_number() == billing_number,
            r.spec_base_price() == base_price,
            r.spec_condition() == condition,
            r.spec_unique_id() == unique_id,
    {
        BookInformation { name, pages, size, billing_number, base_price, condition, unique_id }
    }

    /// Another copy of the same title, in a condition drawn at random and with
    /// the next unique id.
    pub fn clone_with_new_id_condition(&self, last_id: &mut u64) -> (r: Self)
        requires
            *old(last_id) < u64::MAX,
        ensures
            r.same_title(self),
            r.spec_unique_id() == *old(last_id) + 1,
            *final(last_id) == *old(last_id) + 1,
    {
        let mut cloned = self.clone();
        let pb: [u8; 3] = [70, 20, 10];
        proof {
            reveal_with_fuel(percent_sum, 4);
        }
        cloned.condition = BookCondition::probability_random(&pb);
        cloned.unique_id = get_unique_id(last_id);
        cloned
    }

    pub fn get_condition_string(&self) -> (r: String)
        ensures
            r@ == condition_mark(self.spec_condition()),
    {
        self.condition.to_string()
    }

    pub fn get_condition(&self) -> (r: BookCondition)
        ensures
            r == self.spec_condition(),
    {
        self.condition
    }

    pub fn get_name(&self) -> (r: &str)
        ensures
            r@ == self.spec_name(),
    {
        self.name.as_str()
    }

    pub fn get_billing_number(&self) -> (r: u16)
        ensures
            r == self.spec_billing_number(),
    {
        self.billing_number
    }

    pub fn get_base_price(&self) -> (r: u32)
        ensures
            r == self.spec_base_price(),
    {
        self.base_price
    }

    pub fn get_pages(&self) -> (r: usize)
        ensures
            r == self.spec_pages(),
    {
        self.pages
    }

    pub fn get_unique_id(&self) -> (r: u64)
        ensures
            r == self.spec_unique_id(),
    {
        self.unique_id
    }
}

/// The range of billing numbers that one shelf holds.
#[derive(Debug, Clone, Copy)]
pub struct BookShelfInformation {
    billing_number_begin: u16,
    billing_number_end: u16,
}

impl BookShelfInformation {
    pub closed spec fn begin(&self) -> u16 {
        self.billing_number_begin
    }

    pub closed spec fn end(&self) -> u16 {
        self.billing_number_end
    }

    pub fn new(begin: u16, end: u16) -> (r: Self)
        ensures
            r.begin() == begin,
            r.end() == end,
    {
        BookShelfInformation { billing_number_begin: begin, billing_number_end: end }
    }

    /// Whether the shelf holds billing number `inquire_number`.
    pub fn contains_number(&self, inquire_number: u16) -> (r: bool)
        ensures
            r == (self.begin() <= inquire_number <= self.end()),
    {
        self.billing_number_begin <= inquire_number && inquire_number <= self.billing_number_end
    }
}

} // verus!
