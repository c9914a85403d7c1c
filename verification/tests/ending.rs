use suzu::ending::{credit_schedule, ending_book_textures, ending_title, result_schedule, split_credit, EndingFlow};
use suzu::ids::TextureID;
use suzu::scene::SceneTransition;

#[test]
fn ending_title_by_money() {
    assert_eq!(ending_title(100001), "目標達成");
    assert_eq!(ending_title(100000), "達成失敗");
    assert_eq!(ending_title(-5), "達成失敗");
}

#[test]
fn credits_split_on_next() {
    assert_eq!(split_credit("制作\nnext音楽\nnext協力"), vec!["制作\n", "音楽\n", "協力"]);
    assert_eq!(split_credit("no separator"), vec!["no separator"]);
    assert_eq!(split_credit(""), vec![""]);
    assert_eq!(split_credit("nextnext"), vec!["", "", ""]);
    assert_eq!(split_credit("nex"), vec!["nex"]);
    assert_eq!(split_credit("annexta"), vec!["an", "a"]);
}

#[test]
fn credits_split_agrees_with_std() {
    for text in ["a next b", "next", "xnextynextz", "nenext", "日本next語"] {
        let expected: Vec<String> = text.rsplit("next").collect::<Vec<&str>>().iter().rev().map(|s| s.to_string()).collect();
        assert_eq!(split_credit(text), expected);
    }
}

#[test]
fn result_times() {
    let s = result_schedule(1000, 7);
    assert_eq!(s.line_starts, vec![1030, 1090, 1150, 1210, 1270, 1330, 1390]);
    assert_eq!(s.title_at, 1550);
    assert_eq!(s.button_at, 1610);
}

#[test]
fn credit_times() {
    let s = credit_schedule(10, 3, 6);
    assert_eq!(s.fade_in, vec![40, 440, 840]);
    assert_eq!(s.fade_out, vec![340, 740, 1140]);
    assert_eq!(s.thanks_at, 1240);
    assert_eq!(s.book_starts, vec![40, 340, 640, 940, 1240, 1540]);
    assert_eq!(ending_book_textures().len(), 6);
    assert_eq!(ending_book_textures()[3], TextureID::MiddleBook1);
}

#[test]
fn ending_flow_steps() {
    let mut flow = EndingFlow::new();
    assert!(!flow.click(true));
    assert_eq!(flow.get_scene_transition_status(), SceneTransition::Keep);
    flow.show_ok_button();
    assert!(!flow.click(false));
    assert!(flow.click(true));
    assert!(!flow.click(true));
    assert_eq!(flow.get_scene_transition_status(), SceneTransition::Keep);
    flow.finish_credits();
    flow.click(false);
    assert_eq!(flow.get_scene_transition_status(), SceneTransition::SwapTransition);
}
