use suzu::status_pages::{SuzunaStatusPageID, SuzunaStatusPages};

#[test]
fn leafing_through_the_status_pages() {
    let mut pages = SuzunaStatusPages::new();
    assert_eq!(pages.get_current_page_id(), SuzunaStatusPageID::Main);
    assert_eq!(pages.page_len(), 4);
    assert_eq!(pages.move_page_icon_visibility(), (false, true));
    pages.next_page();
    assert_eq!(pages.get_current_page_id(), SuzunaStatusPageID::Ad);
    assert_eq!(pages.move_page_icon_visibility(), (true, true));
    pages.next_page();
    pages.next_page();
    assert_eq!(pages.get_current_page_id(), SuzunaStatusPageID::Schedule);
    assert_eq!(pages.move_page_icon_visibility(), (true, false));
    pages.next_page();
    assert_eq!(pages.get_current_page_id(), SuzunaStatusPageID::Schedule);
    assert!(!pages.prev_page());
    assert_eq!(pages.get_current_page_id(), SuzunaStatusPageID::AdAgency);
    assert!(!pages.prev_page());
    assert!(pages.prev_page());
    assert_eq!(pages.get_current_page_id(), SuzunaStatusPageID::Main);
    assert!(!pages.prev_page());
    assert_eq!(pages.get_current_page_id(), SuzunaStatusPageID::Main);
}

#[test]
fn back_and_forth_returns_to_the_page() {
    let mut pages = SuzunaStatusPages::new();
    pages.show_ad_agency_page();
    pages.next_page();
    pages.prev_page();
    assert_eq!(pages.get_current_page_id(), SuzunaStatusPageID::AdAgency);
    pages.show_schedule_page();
    assert_eq!(pages.get_current_page_id(), SuzunaStatusPageID::Schedule);
    pages.show_ad_page();
    assert_eq!(pages.get_current_page_id(), SuzunaStatusPageID::Ad);
    pages.show_main_page();
    assert_eq!(pages.get_current_page_id(), SuzunaStatusPageID::Main);
}
