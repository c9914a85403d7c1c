use suzu::scenario::ScenarioTextSegment;
use suzu::text_box::{split_lines, TextBox, TextBoxStatus};

fn strings(v: &[&str]) -> Vec<String> {
    v.iter().map(|s| s.to_string()).collect()
}

#[test]
fn lines_as_str_lines_gives_them() {
    for s in ["", "a", "a\n", "\n", "a\r\nb\n", "a\rb", "a\n\nb", "鈴奈庵\nへ\r\nようこそ", "\r\n\r\n", "x\r"] {
        let expected: Vec<String> = s.lines().map(|l| l.to_string()).collect();
        assert_eq!(split_lines(s), expected, "{:?}", s);
    }
    assert_eq!(split_lines("一\n二"), strings(&["一", "二"]));
}

#[test]
fn text_from_segment_cuts_then_splits() {
    let seg = ScenarioTextSegment::new("一\n二\n三");
    assert_eq!(TextBox::text_from_segment(&seg, 0), strings(&["一"]));
    assert_eq!(TextBox::text_from_segment(&seg, 1), strings(&["一"]));
    assert_eq!(TextBox::text_from_segment(&seg, 2), strings(&["一", "二"]));
    assert_eq!(TextBox::text_from_segment(&seg, 10), strings(&["一", "二", "三"]));
}

#[test]
fn box_waits_for_the_line_that_does_not_fit() {
    let segs = vec![ScenarioTextSegment::new("一\n二\n三")];
    let mut tb = TextBox::new(2);
    assert_eq!(tb.get_text_box_status(), TextBoxStatus::UpdatingText);
    assert_eq!(tb.update_scenario_text(&segs, 0), 0);
    assert_eq!(tb.get_text_lines(), &strings(&["一"])[..]);
    assert!(tb.get_buffered_lines().is_empty());
    assert_eq!(tb.update_scenario_text(&segs, 4), 0);
    assert_eq!(tb.get_text_box_status(), TextBoxStatus::WaitNextLineKey);
    assert_eq!(tb.get_text_lines(), &strings(&["一", "二"])[..]);
    // The next update shows the line held back, scrolling the first one up.
    tb.update_scenario_text(&segs, 4);
    assert_eq!(tb.get_text_lines(), &strings(&["二", "三"])[..]);
    assert_eq!(tb.get_buffered_lines(), &strings(&["一"])[..]);
    tb.next_button_handler();
    assert_eq!(tb.get_text_box_status(), TextBoxStatus::UpdatingText);
}

#[test]
fn segments_are_reached_in_turn() {
    let segs = vec![ScenarioTextSegment::new("ab"), ScenarioTextSegment::new("cd")];
    let mut tb = TextBox::new(3);
    assert_eq!(tb.update_scenario_text(&segs, 1), 0);
    assert_eq!(tb.get_text_lines(), &strings(&["ab"])[..]);
    assert_eq!(tb.update_scenario_text(&segs, 2), 1);
    assert_eq!(tb.get_text_lines(), &strings(&["ab", "c"])[..]);
    assert_eq!(tb.update_scenario_text(&segs, 9), 1);
    assert_eq!(tb.get_text_lines(), &strings(&["ab", "cd"])[..]);
}

#[test]
fn fixed_text_and_head_line() {
    let mut tb = TextBox::new(3);
    tb.set_fixed_text("お知らせ".to_string());
    assert_eq!(tb.get_text_lines(), &strings(&["お知らせ"])[..]);
    assert_eq!(tb.get_text_box_status(), TextBoxStatus::FixedText);
    tb.next_button_handler();
    tb.reset_head_line();
    tb.set_text_box_status(TextBoxStatus::WaitNextLineKey);
    assert_eq!(tb.get_text_box_status(), TextBoxStatus::WaitNextLineKey);
}
