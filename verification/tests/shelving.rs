use suzu::book::{BookInformation, BookShelfInformation};
use suzu::shelving::{sort_by_billing_number, BookSelection, SelectShelvingBookUI, SelectStoreBookUI};

fn book(name: &str, number: u16, last_id: &mut u64) -> BookInformation {
    BookInformation::new(name.to_string(), 10, "中".to_string(), number, 100, last_id)
}

fn numbers(books: &[BookInformation]) -> Vec<u16> {
    books.iter().map(|b| b.get_billing_number()).collect()
}

fn names(books: &[BookInformation]) -> Vec<String> {
    let mut v: Vec<String> = books.iter().map(|b| b.get_name().to_string()).collect();
    v.sort();
    v
}

#[test]
fn sort_orders_by_billing_number_and_keeps_ties() {
    let mut id = 0u64;
    let books = vec![book("c", 30, &mut id), book("a1", 10, &mut id), book("b", 20, &mut id), book("a2", 10, &mut id)];
    let sorted = sort_by_billing_number(books);
    assert_eq!(numbers(&sorted), vec![10, 10, 20, 30]);
    assert_eq!(sorted[0].get_name(), "a1");
    assert_eq!(sorted[1].get_name(), "a2");
    assert!(sort_by_billing_number(vec![]).is_empty());
}

#[test]
fn selection_toggles_and_sorts() {
    let mut sel = BookSelection::new();
    sel.toggle(3);
    sel.toggle(1);
    sel.toggle(5);
    assert_eq!(sel.get_selecting_index(), &[3, 1, 5]);
    sel.toggle(1);
    assert_eq!(sel.get_selecting_index(), &[3, 5]);
    sel.toggle(2);
    sel.sort_selecting_index_less();
    assert_eq!(sel.get_selecting_index(), &[5, 3, 2]);
    sel.clear_selecting_index();
    assert!(sel.get_selecting_index().is_empty());
}

#[test]
fn law_toggle_twice_on_values() {
    let mut sel = BookSelection::new();
    sel.toggle(4);
    sel.toggle(7);
    sel.toggle(7);
    assert_eq!(sel.get_selecting_index(), &[4]);
}

#[test]
fn moving_books_between_box_and_hand() {
    let mut id = 0u64;
    let boxed = vec![book("d", 40, &mut id), book("a", 10, &mut id), book("c", 30, &mut id), book("b", 20, &mut id)];
    let hand = vec![book("e", 50, &mut id)];
    let mut ui = SelectShelvingBookUI::new(boxed, hand);
    let (b, h) = ui.get_select_result();
    assert_eq!(numbers(&b), vec![10, 20, 30, 40]);
    assert_eq!(numbers(&h), vec![50]);

    // Pick "a" (position 0) and "c" (position 2) in the box.
    ui.select_box_book(0);
    ui.select_box_book(2);
    assert_eq!(ui.get_box_selection(), &[0, 2]);
    ui.move_box_to_shelving();
    let (b, h) = ui.get_select_result();
    assert_eq!(numbers(&b), vec![20, 40]);
    assert_eq!(numbers(&h), vec![10, 30, 50]);
    assert!(ui.get_box_selection().is_empty());

    // Put "e" back.
    ui.select_shelving_book(2);
    ui.move_shelving_to_box();
    let (b, h) = ui.get_select_result();
    assert_eq!(numbers(&b), vec![20, 40, 50]);
    assert_eq!(numbers(&h), vec![10, 30]);
    let mut all: Vec<String> = names(&b);
    all.extend(names(&h));
    all.sort();
    assert_eq!(all, vec!["a", "b", "c", "d", "e"]);
}

#[test]
fn moving_with_nothing_picked_changes_nothing() {
    let mut id = 0u64;
    let mut ui = SelectShelvingBookUI::new(vec![book("a", 1, &mut id)], vec![book("b", 2, &mut id)]);
    ui.move_box_to_shelving();
    let (b, h) = ui.get_select_result();
    assert_eq!(numbers(&b), vec![1]);
    assert_eq!(numbers(&h), vec![2]);
}

#[test]
fn storing_only_books_of_the_shelf() {
    let mut id = 0u64;
    let hand = vec![book("x", 5, &mut id), book("y", 12, &mut id), book("z", 18, &mut id), book("w", 25, &mut id)];
    let mut ui = SelectStoreBookUI::new(BookShelfInformation::new(10, 20), hand);
    assert_eq!(ui.book_storable(), vec![false, true, true, false]);
    ui.select_book(0);
    assert!(ui.get_selection().is_empty());
    ui.select_book(1);
    ui.select_book(2);
    ui.select_book(3);
    assert_eq!(ui.get_selection(), &[1, 2]);
    ui.reset_selection();
    assert!(ui.get_selection().is_empty());
    ui.select_book(2);
    ui.store_shelving_books();
    let (stored, left) = ui.get_storing_result();
    assert_eq!(numbers(&stored), vec![18]);
    assert_eq!(numbers(&left), vec![5, 12, 25]);
    // The picks stay until they are reset.
    assert_eq!(ui.get_selection(), &[2]);
}
