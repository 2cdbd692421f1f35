use afrim_wish::rstk_ext::{
    border_command, init_rstk_ext, position_command, style_command, topmost_command, Style,
};
use afrim_wish::text::{bool_str, decimal_string, join_strings, signed_decimal_string};

fn style() -> Style {
    Style {
        name: "exit.toolkit.TButton",
        background: "#e03131".to_owned(),
        foreground: "#1e1e1e".to_owned(),
        font_size: 9,
        font_family: "Charis-SIL".to_owned(),
        font_weight: "bold".to_owned(),
    }
}

#[test]
fn decimal_string_matches_std() {
    for n in [0u64, 1, 7, 9, 10, 11, 99, 100, 101, 12345, 1 << 32, u64::MAX - 1, u64::MAX] {
        assert_eq!(decimal_string(n), n.to_string());
    }
    for n in 0..2000u64 {
        assert_eq!(decimal_string(n), n.to_string());
    }
    assert_eq!(decimal_string(18446744073709551615), "18446744073709551615");
}

#[test]
fn signed_decimal_string_matches_std() {
    for n in [0i64, 1, -1, 9, -9, 10, -10, 64, 127, -128, i64::MAX, i64::MIN, i64::MIN + 1] {
        assert_eq!(signed_decimal_string(n), n.to_string());
    }
    assert_eq!(signed_decimal_string(-128), "-128");
    assert_eq!(signed_decimal_string(i64::MIN), "-9223372036854775808");
}

#[test]
fn bool_str_matches_std() {
    assert_eq!(bool_str(true), true.to_string());
    assert_eq!(bool_str(false), "false");
}

#[test]
fn join_strings_matches_std() {
    let none: Vec<String> = vec![];
    assert_eq!(join_strings(&none, ", "), "");
    assert_eq!(join_strings(&vec!["a".to_owned()], ", "), "a");
    assert_eq!(join_strings(&vec!["a".to_owned(), "b".to_owned()], ", "), "a, b");
    let parts = vec!["".to_owned(), "x".to_owned(), "".to_owned(), "".to_owned()];
    assert_eq!(join_strings(&parts, "\n"), parts.join("\n"));
    assert_eq!(join_strings(&parts, ""), "x");
}

#[test]
fn style_update_gives_layout_then_config() {
    assert_eq!(
        style().update(),
        vec![
            "ttk::style layout {exit.toolkit.TButton} [ttk::style layout {exit.toolkit.TButton}];"
                .to_owned(),
            "ttk::style config exit.toolkit.TButton -background {#e03131} -foreground {#1e1e1e} -font {Charis-SIL 9 bold};"
                .to_owned(),
        ]
    );
}

#[test]
fn style_update_of_the_blank_style() {
    assert_eq!(
        Style::default().update(),
        vec![
            "ttk::style layout {} [ttk::style layout {}];".to_owned(),
            "ttk::style config  -background {} -foreground {} -font { 0 };".to_owned(),
        ]
    );
}

#[test]
fn style_clone_keeps_every_field() {
    let copy = style().clone();
    assert_eq!(copy.name, "exit.toolkit.TButton");
    assert_eq!(copy.background, "#e03131");
    assert_eq!(copy.foreground, "#1e1e1e");
    assert_eq!(copy.font_size, 9);
    assert_eq!(copy.font_family, "Charis-SIL");
    assert_eq!(copy.font_weight, "bold");
}

#[test]
fn widget_and_window_commands() {
    assert_eq!(init_rstk_ext(), "chan configure stdin -encoding utf-8");
    assert_eq!(style_command(".r1", &style()), ".r1 configure -style {exit.toolkit.TButton}");
    assert_eq!(border_command(".r2", false), "wm overrideredirect .r2 true;");
    assert_eq!(border_command(".r2", true), "wm overrideredirect .r2 false;");
    assert_eq!(topmost_command(".r2", true), "wm attributes .r2 -topmost true;");
    assert_eq!(topmost_command(".r2", false), "wm attributes .r2 -topmost false;");
    assert_eq!(position_command(".r2", 0, 0), "wm geometry .r2 +0+0");
    assert_eq!(position_command(".r2", 104, 1080), "wm geometry .r2 +104+1080");
}
