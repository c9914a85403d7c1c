use suzu::book::{BookCondition, BookInformation, BookShelfInformation};
use suzu::ids::{FontID, TextureID, LARGE_BOOK_TEXTURE, MIDDLE_BOOK_TEXTURE};
use suzu::text::str_equals;

#[test]
fn texture_from_str_known_and_unknown() {
    assert_eq!(TextureID::from_str("Ghost1"), Ok(TextureID::Ghost1));
    assert_eq!(TextureID::from_str("LargeBook1"), Ok(TextureID::LargeBook1));
    assert_eq!(TextureID::from_str("NoSuchTexture"), Err(()));
    assert_eq!(TextureID::from_str(""), Err(()));
}

#[test]
fn texture_from_u32_positions() {
    assert_eq!(TextureID::from_u32(0), Some(TextureID::Ghost1));
    assert_eq!(TextureID::from_u32(1), Some(TextureID::LotusPink));
    assert_eq!(TextureID::from_u32(7), Some(TextureID::LargeBook1));
    assert_eq!(TextureID::from_u32(78), None);
    assert_eq!(TextureID::from_u32(1000), None);
}

#[test]
fn texture_positions_and_names_agree() {
    for n in 0..78u32 {
        let t = TextureID::from_u32(n).expect("every position below 78 names a texture");
        assert_ne!(t, TextureID::Unknown);
        let name = format!("{:?}", t);
        assert_eq!(TextureID::from_str(&name), Ok(t));
    }
}

#[test]
fn texture_random_choices() {
    for _ in 0..30 {
        assert_ne!(TextureID::select_random(), TextureID::Unknown);
        let fair = TextureID::random_large_book_scratch_fair();
        assert!(matches!(
            fair,
            TextureID::LargeBookScratchFair1
                | TextureID::LargeBookScratchFair2
                | TextureID::LargeBookScratchFair3
                | TextureID::LargeBookScratchFair4
        ));
        let bad = TextureID::random_large_book_scratch_bad();
        assert!(matches!(
            bad,
            TextureID::LargeBookScratchBad1
                | TextureID::LargeBookScratchBad2
                | TextureID::LargeBookScratchBad3
                | TextureID::LargeBookScratchBad4
        ));
    }
}

#[test]
fn book_texture_lists() {
    assert_eq!(LARGE_BOOK_TEXTURE[0], TextureID::LargeBook1);
    assert_eq!(MIDDLE_BOOK_TEXTURE[2], TextureID::MiddleBook3);
}

#[test]
fn font_from_str() {
    assert_eq!(FontID::from_str("Default"), Ok(FontID::DEFAULT));
    assert_eq!(FontID::from_str("Cinema"), Ok(FontID::Cinema));
    assert_eq!(FontID::from_str("cinema"), Err(()));
}

#[test]
fn str_equals_values() {
    assert!(str_equals("鈴奈庵", "鈴奈庵"));
    assert!(!str_equals("abc", "abd"));
    assert!(!str_equals("abc", "ab"));
    assert!(str_equals("", ""));
}

#[test]
fn condition_from_number() {
    assert_eq!(BookCondition::from(0), BookCondition::Good);
    assert_eq!(BookCondition::from(1), BookCondition::Fair);
    assert_eq!(BookCondition::from(2), BookCondition::Bad);
}

#[test]
fn condition_from_roll_uses_running_sums() {
    let pb = [70u8, 20, 10];
    assert_eq!(BookCondition::from_roll(&pb, 0), BookCondition::Good);
    assert_eq!(BookCondition::from_roll(&pb, 69), BookCondition::Good);
    assert_eq!(BookCondition::from_roll(&pb, 70), BookCondition::Fair);
    assert_eq!(BookCondition::from_roll(&pb, 89), BookCondition::Fair);
    assert_eq!(BookCondition::from_roll(&pb, 90), BookCondition::Bad);
    assert_eq!(BookCondition::from_roll(&pb, 99), BookCondition::Bad);
}

#[test]
fn condition_random_and_marks() {
    let pb = [0u8, 100, 0];
    for _ in 0..10 {
        assert_eq!(BookCondition::probability_random(&pb), BookCondition::Fair);
    }
    assert_eq!(BookCondition::Good.to_string(), "良");
    assert_eq!(BookCondition::Fair.to_string(), "可");
    assert_eq!(BookCondition::Bad.to_string(), "悪");
}

#[test]
fn new_book_takes_next_id() {
    let mut last_id = 41u64;
    let book = BookInformation::new("竹取物語".to_string(), 120, "中".to_string(), 3, 800, &mut last_id);
    assert_eq!(last_id, 42);
    assert_eq!(book.get_unique_id(), 42);
    assert_eq!(book.get_name(), "竹取物語");
    assert_eq!(book.get_pages(), 120);
    assert_eq!(book.get_base_price(), 800);
    assert_eq!(book.get_condition_string(), book.get_condition().to_string());
}

#[test]
fn copy_keeps_title_and_takes_new_id() {
    let mut last_id = 0u64;
    let book = BookInformation::new("源氏物語".to_string(), 300, "大".to_string(), 9, 1500, &mut last_id);
    let copy = book.clone_with_new_id_condition(&mut last_id);
    assert_eq!(copy.get_name(), book.get_name());
    assert_eq!(copy.get_pages(), book.get_pages());
    assert_eq!(copy.billing_number, 9);
    assert_eq!(copy.size, "大");
    assert_eq!(copy.get_base_price(), 1500);
    assert_eq!(copy.get_unique_id(), 2);
    assert_eq!(last_id, 2);
}

#[test]
fn shelf_range_is_inclusive() {
    let shelf = BookShelfInformation::new(10, 20);
    assert!(shelf.contains_number(10));
    assert!(shelf.contains_number(20));
    assert!(shelf.contains_number(15));
    assert!(!shelf.contains_number(9));
    assert!(!shelf.contains_number(21));
}

#[test]
fn texture_name_of_unknown_reads_as_none() {
    assert_eq!(format!("{:?}", TextureID::Unknown), "Unknown");
    assert_eq!(TextureID::from_str("Unknown"), Err(()));
    assert_eq!(TextureID::from_str("ghost1"), Err(()));
}
