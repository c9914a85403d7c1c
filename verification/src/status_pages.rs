//! The pages of the shop's status screen, the order in which the arrows leaf
//! through them, and which arrows are shown.

use vstd::prelude::*;

verus! {

/// The pages of the status screen, in the order they are leafed through.
#[derive(Debug, Clone, Copy, PartialEq, Eq, Structural)]
pub enum SuzunaStatusPageID {
    Main,
    Ad,
    AdAgency,
    Schedule,
}

/// The position of a page in the leafing order.
pub open spec fn page_number(p: SuzunaStatusPageID) -> int {
    match p {
        SuzunaStatusPageID::Main => 0,
        SuzunaStatusPageID::Ad => 1,
        SuzunaStatusPageID::AdAgency => 2,
        SuzunaStatusPageID::Schedule => 3,
    }
}

/// The page at a position of the leafing order.
pub open spec fn page_at(n: int) -> SuzunaStatusPageID {
    if n <= 0 {
        SuzunaStatusPageID::Main
    } else if n == 1 {
        SuzunaStatusPageID::Ad
    } else if n == 2 {
        SuzunaStatusPageID::AdAgency
    } else {
        SuzunaStatusPageID::Schedule
    }
}

/// Which page of the status screen is shown.
pub struct SuzunaStatusPages {
    current_page: SuzunaStatusPageID,
}

impl SuzunaStatusPages {
    pub closed spec fn spec_current(&self) -> SuzunaStatusPageID {
        self.current_page
    }

    /// The screen opens on the main page.
    pub fn new() -> (r: Self)
        ensures
            r.spec_current() == SuzunaStatusPageID::Main,
    {
        SuzunaStatusPages { current_page: SuzunaStatusPageID::Main }
    }

    /// The right arrow: the following page, staying on the last one.
    pub fn next_page(&mut self)
        ensures
            final(self).spec_current() == page_at(page_number(old(self).spec_current()) + 1),
    {
        self.current_page = match self.current_page {
            SuzunaStatusPageID::Main => SuzunaStatusPageID::Ad,
            SuzunaStatusPageID::Ad => SuzunaStatusPageID::AdAgency,
            SuzunaStatusPageID::AdAgency => SuzunaStatusPageID::Schedule,
            SuzunaStatusPageID::Schedule => SuzunaStatusPageID::Schedule,
        };
    }

    /// The left arrow: the preceding page, staying on the first one.  The
    /// result says whether the main page was reached from the advertisement
    /// page, so that what it shows of the advertisements is refreshed.
    pub fn prev_page(&mut self) -> (refresh_main: bool)
        ensures
            final(self).spec_current() == page_at(page_number(old(self).spec_current()) - 1),
            refresh_main == (old(self).spec_current() == SuzunaStatusPageID::Ad),
    {
        match self.current_page {
            SuzunaStatusPageID::Main => false,
            SuzunaStatusPageID::Ad => {
                self.current_page = SuzunaStatusPageID::Main;
                true
            },
            SuzunaStatusPageID::AdAgency => {
                self.current_page = SuzunaStatusPageID::Ad;
                false
            },
            SuzunaStatusPageID::Schedule => {
                self.current_page = SuzunaStatusPageID::AdAgency;
                false
            },
        }
    }

    pub fn get_current_page_id(&self) -> (r: SuzunaStatusPageID)
        ensures
            r == self.spec_current(),
    {
        self.current_page
    }

    pub fn page_len(&self) -> (r: usize)
        ensures
            r == 4,
    {
        4
    }

    /// Shows the main page; what it shows of the advertisements is then
    /// refreshed.
    pub fn show_main_page(&mut self)
        ensures
            final(self).spec_current() == SuzunaStatusPageID::Main,
    {
        self.current_page = SuzunaStatusPageID::Main;
    }

    pub fn show_ad_page(&mut self)
        ensures
            final(self).spec_current() == SuzunaStatusPageID::Ad,
    {
        self.current_page = SuzunaStatusPageID::Ad;
    }

    pub fn show_ad_agency_page(&mut self)
        ensures
            final(self).spec_current() == SuzunaStatusPageID::AdAgency,
    {
        self.current_page = SuzunaStatusPageID::AdAgency;
    }

    pub fn show_schedule_page(&mut self)
        ensures
            final(self).spec_current() == SuzunaStatusPageID::Schedule,
    {
        self.current_page = SuzunaStatusPageID::Schedule;
    }

    /// Which arrows are shown, left and right: none leads off the first or
    /// the last page.
    pub fn move_page_icon_visibility(&self) -> (r: (bool, bool))
        ensures
            r.0 == (self.spec_current() != SuzunaStatusPageID::Main),
            r.1 == (self.spec_current() != SuzunaStatusPageID::Schedule),
    {
        (
            self.current_page != SuzunaStatusPageID::Main,
            self.current_page != SuzunaStatusPageID::Schedule,
        )
    }
}

/// Law: leafing forward and then back returns to the page left, unless it was
/// the last one; leafing back and then forward does the same, unless it was
/// the first one.
pub proof fn law_leafing_back_and_forth(p: SuzunaStatusPageID)
    ensures
        p != SuzunaStatusPageID::Schedule ==> page_at(page_number(page_at(page_number(p) + 1)) - 1)
            == p,
        p != SuzunaStatusPageID::Main ==> page_at(page_number(page_at(page_number(p) - 1)) + 1)
            == p,
        0 <= page_number(p) < 4,
        page_at(page_number(p)) == p,
{
}

} // verus!
