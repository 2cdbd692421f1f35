use afrim_wish::config::Theme;
use afrim_wish::frontend::Predicate;
use afrim_wish::window::tooltip::ToolTip;

fn predicate(code: &str, remaining_code: &str, texts: &[&str]) -> Predicate {
    Predicate {
        code: code.to_owned(),
        remaining_code: remaining_code.to_owned(),
        texts: texts.iter().map(|text| text.to_string()).collect(),
        can_commit: false,
    }
}

fn populated(count: usize) -> ToolTip {
    let mut tooltip = ToolTip::new(Theme::default());
    for i in 0..count {
        tooltip.add_predicate(predicate(&format!("code{i}"), &format!("r{i}"), &[&format!("w{i}")]));
    }
    tooltip
}

#[test]
fn new_tooltip_is_empty() {
    let tooltip = ToolTip::new(Theme::default());
    assert!(tooltip.predicates().is_empty());
    assert_eq!(tooltip.current_predicate_id(), 0);
    assert_eq!(tooltip.page_size(), 0);
    assert_eq!(tooltip.input_text(), "");
    assert_eq!(tooltip.get_selected_predicate(), None);
}

#[test]
fn select_next_cycles_back_after_len_steps() {
    for count in 1..=6 {
        for start in 0..count {
            let mut tooltip = populated(count);
            for _ in 0..start {
                tooltip.select_next_predicate();
            }
            assert_eq!(tooltip.current_predicate_id(), start);
            for _ in 0..count {
                tooltip.select_next_predicate();
            }
            assert_eq!(tooltip.current_predicate_id(), start);
        }
    }
}

#[test]
fn select_next_wraps_from_last_to_first() {
    let mut tooltip = populated(3);
    tooltip.select_next_predicate();
    assert_eq!(tooltip.current_predicate_id(), 1);
    tooltip.select_next_predicate();
    assert_eq!(tooltip.current_predicate_id(), 2);
    tooltip.select_next_predicate();
    assert_eq!(tooltip.current_predicate_id(), 0);
}

#[test]
fn select_previous_wraps_from_first_to_last() {
    let mut tooltip = populated(3);
    tooltip.select_previous_predicate();
    assert_eq!(tooltip.current_predicate_id(), 2);
    tooltip.select_previous_predicate();
    assert_eq!(tooltip.current_predicate_id(), 1);
    tooltip.select_previous_predicate();
    assert_eq!(tooltip.current_predicate_id(), 0);
}

#[test]
fn previous_then_next_is_identity() {
    for count in 0..=5 {
        let mut tooltip = populated(count);
        for start in 0..count.max(1) {
            let before = tooltip.current_predicate_id();
            tooltip.select_previous_predicate();
            tooltip.select_next_predicate();
            assert_eq!(tooltip.current_predicate_id(), before);
            tooltip.select_next_predicate();
            tooltip.select_previous_predicate();
            assert_eq!(tooltip.current_predicate_id(), before);
            tooltip.select_next_predicate();
            let _ = start;
        }
    }
}

#[test]
fn navigation_on_empty_carousel_does_nothing() {
    let mut tooltip = ToolTip::new(Theme::default());
    assert_eq!(tooltip.select_next_predicate(), None);
    assert_eq!(tooltip.select_previous_predicate(), None);
    assert_eq!(tooltip.current_predicate_id(), 0);
    assert_eq!(tooltip.get_selected_predicate(), None);
}

#[test]
fn navigation_returns_the_new_rendering() {
    let mut tooltip = populated(2);
    tooltip.set_page_size(1);
    tooltip.set_input_text("ab".to_owned());
    let shown = tooltip.select_next_predicate().unwrap();
    assert_eq!(shown.cursor, "ab");
    assert_eq!(shown.predicates, "2. w1 ~r1");
    let shown = tooltip.select_previous_predicate().unwrap();
    assert_eq!(shown.predicates, "1. w0 ~r0");
}

#[test]
fn add_predicate_explodes_texts_and_drops_empty_ones() {
    let mut tooltip = ToolTip::new(Theme::default());
    tooltip.add_predicate(predicate("code", "rem", &["a", "", "b"]));
    assert_eq!(
        tooltip.predicates(),
        &vec![predicate("code", "rem", &["a"]), predicate("code", "rem", &["b"])]
    );
}

#[test]
fn add_predicate_keeps_can_commit() {
    let mut tooltip = ToolTip::new(Theme::default());
    let mut incoming = predicate("c", "r", &["x", "y"]);
    incoming.can_commit = true;
    tooltip.add_predicate(incoming);
    assert_eq!(tooltip.predicates().len(), 2);
    assert!(tooltip.predicates().iter().all(|stored| stored.can_commit));
}

#[test]
fn add_predicate_with_only_empty_texts_adds_nothing() {
    let mut tooltip = populated(1);
    tooltip.add_predicate(predicate("code", "rem", &["", ""]));
    tooltip.add_predicate(predicate("code", "rem", &[]));
    assert_eq!(tooltip.predicates().len(), 1);
}

#[test]
fn add_predicate_appends_and_keeps_the_selection() {
    let mut tooltip = populated(3);
    tooltip.select_next_predicate();
    tooltip.select_next_predicate();
    tooltip.add_predicate(predicate("late", "", &["z"]));
    assert_eq!(tooltip.current_predicate_id(), 2);
    assert_eq!(tooltip.predicates().len(), 4);
    assert_eq!(tooltip.predicates()[3], predicate("late", "", &["z"]));
    assert_eq!(tooltip.predicates()[0], predicate("code0", "r0", &["w0"]));
}

#[test]
fn with_text_replaces_the_texts_only() {
    let mut whole = predicate("code", "rem", &["a", "b", "c"]);
    whole.can_commit = true;
    let single = whole.with_text(&"b".to_owned());
    assert_eq!(single.code, "code");
    assert_eq!(single.remaining_code, "rem");
    assert_eq!(single.texts, vec!["b".to_owned()]);
    assert!(single.can_commit);
    assert_eq!(whole.clone(), whole);
}

#[test]
fn clear_resets_everything_but_the_page_size() {
    let mut tooltip = populated(4);
    tooltip.set_page_size(3);
    tooltip.set_input_text("typed".to_owned());
    tooltip.select_next_predicate();
    tooltip.select_next_predicate();
    assert_eq!(tooltip.current_predicate_id(), 2);
    tooltip.clear();
    assert_eq!(tooltip.current_predicate_id(), 0);
    assert!(tooltip.predicates().is_empty());
    assert_eq!(tooltip.input_text(), "");
    assert_eq!(tooltip.page_size(), 3);
    assert_eq!(tooltip.get_selected_predicate(), None);
    let shown = tooltip.update();
    assert_eq!(shown.cursor, "");
    assert_eq!(shown.predicates, "");
}

#[test]
fn window_wraps_past_the_end() {
    let mut tooltip = populated(5);
    tooltip.set_page_size(3);
    for _ in 0..3 {
        tooltip.select_next_predicate();
    }
    assert_eq!(tooltip.current_predicate_id(), 3);
    assert_eq!(tooltip.update().predicates, "4. w3 ~r3\n5. w4 ~r4\n1. w0 ~r0");
}

#[test]
fn window_starts_at_the_selection() {
    let mut tooltip = populated(5);
    tooltip.set_page_size(3);
    assert_eq!(tooltip.update().predicates, "1. w0 ~r0\n2. w1 ~r1\n3. w2 ~r2");
    tooltip.select_next_predicate();
    assert_eq!(tooltip.update().predicates, "2. w1 ~r1\n3. w2 ~r2\n4. w3 ~r3");
    tooltip.select_previous_predicate();
    tooltip.select_previous_predicate();
    assert_eq!(tooltip.update().predicates, "5. w4 ~r4\n1. w0 ~r0\n2. w1 ~r1");
}

#[test]
fn window_is_never_longer_than_the_list() {
    let mut tooltip = populated(2);
    tooltip.set_page_size(10);
    tooltip.select_next_predicate();
    assert_eq!(tooltip.update().predicates, "2. w1 ~r1\n1. w0 ~r0");
}

#[test]
fn window_of_page_size_zero_is_empty() {
    let mut tooltip = populated(3);
    tooltip.set_input_text("x".to_owned());
    let shown = tooltip.update();
    assert_eq!(shown.predicates, "");
    assert_eq!(shown.cursor, "x");
}

#[test]
fn line_numbers_have_several_digits() {
    let mut tooltip = populated(12);
    tooltip.set_page_size(3);
    for _ in 0..3 {
        tooltip.select_previous_predicate();
    }
    assert_eq!(tooltip.current_predicate_id(), 9);
    assert_eq!(tooltip.update().predicates, "10. w9 ~r9\n11. w10 ~r10\n12. w11 ~r11");
}

#[test]
fn line_shows_an_empty_remainder() {
    let mut tooltip = ToolTip::new(Theme::default());
    tooltip.set_page_size(1);
    tooltip.add_predicate(predicate("test123", "", &["ok"]));
    assert_eq!(tooltip.update().predicates, "1. ok ~");
}

#[test]
fn selected_predicate_follows_the_selection() {
    let mut tooltip = populated(3);
    assert_eq!(tooltip.get_selected_predicate(), Some(&predicate("code0", "r0", &["w0"])));
    tooltip.select_previous_predicate();
    assert_eq!(tooltip.get_selected_predicate(), Some(&predicate("code2", "r2", &["w2"])));
}

#[test]
fn tooltip_styles_come_from_the_theme() {
    let mut theme = Theme::default();
    theme.header.background = "#000001".to_owned();
    theme.body.font.size = 14;
    let styles = ToolTip::new(theme).build_theme();
    assert_eq!(styles.len(), 2);
    assert_eq!(styles[0].name, "header.predicates.TLabel");
    assert_eq!(styles[0].background, "#000001");
    assert_eq!(styles[0].foreground, "#dedddd");
    assert_eq!(styles[0].font_size, 10);
    assert_eq!(styles[0].font_family, "Charis-SIL");
    assert_eq!(styles[0].font_weight, "bold");
    assert_eq!(styles[1].name, "body.predicates.TLabel");
    assert_eq!(styles[1].background, "#dedddd");
    assert_eq!(styles[1].foreground, "#252320");
    assert_eq!(styles[1].font_size, 14);
}
