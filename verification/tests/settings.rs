use afrim_wish::config::{Config, Core, Info, SectionTheme, Theme, ThemeFont};
use afrim_wish::window::toolkit::{scale, Affordance, Field, Package, StyleKey, ToolKit};

fn full_config() -> Config {
    let font = ThemeFont { family: "Serif".to_owned(), size: 12, weight: "normal".to_owned() };
    Config {
        theme: Some(Theme {
            header: SectionTheme {
                background: "#111111".to_owned(),
                foreground: "#222222".to_owned(),
                font: font.clone(),
            },
            body: SectionTheme {
                background: "#333333".to_owned(),
                foreground: "#444444".to_owned(),
                font,
            },
        }),
        core: Some(Core { buffer_size: -12, auto_commit: true }),
        info: Some(Info {
            name: "Sample".to_owned(),
            maintainors: vec!["Ada".to_owned(), "Grace".to_owned()],
            input_method: "Clafrica".to_owned(),
            homepage: "https://example.org".to_owned(),
        }),
    }
}

#[test]
fn default_theme() {
    let theme = Theme::default();
    assert_eq!(theme.header.background, "#252320");
    assert_eq!(theme.header.foreground, "#dedddd");
    assert_eq!(theme.body.background, "#dedddd");
    assert_eq!(theme.body.foreground, "#252320");
    for font in [&theme.header.font, &theme.body.font] {
        assert_eq!(font.family, "Charis-SIL");
        assert_eq!(font.size, 10);
        assert_eq!(font.weight, "bold");
    }
}

#[test]
fn default_core_and_info() {
    assert_eq!(Core::default(), Core { buffer_size: 64, auto_commit: false });
    let info = Info::default();
    assert_eq!(info.name, "Unknown");
    assert_eq!(info.input_method, "Unknow");
    assert_eq!(info.homepage, "Unknow");
    assert_eq!(info.maintainors, vec!["Unknow".to_owned()]);
}

#[test]
fn blank_config_falls_back_to_defaults() {
    let config = Config::default();
    assert!(config.theme.is_none());
    assert!(config.core.is_none());
    assert!(config.info.is_none());
    assert_eq!(config.core_or_default(), Core::default());
    assert_eq!(config.theme_or_default().header.background, "#252320");
    assert_eq!(config.info_or_default().name, "Unknown");
}

#[test]
fn full_config_is_used_as_given() {
    let config = full_config();
    assert_eq!(config.core_or_default(), Core { buffer_size: -12, auto_commit: true });
    assert_eq!(config.theme_or_default().body.foreground, "#444444");
    assert_eq!(config.theme_or_default().header.font.size, 12);
    assert_eq!(config.info_or_default().maintainors, vec!["Ada".to_owned(), "Grace".to_owned()]);
    let copy = config.clone();
    assert_eq!(copy.core, config.core);
    assert_eq!(copy.info.unwrap().homepage, "https://example.org");
    assert_eq!(copy.theme.unwrap().header.foreground, "#222222");
}

#[test]
fn scale_is_four_fifths_rounded_down() {
    for design in [2u64, 4, 5, 10, 12, 15, 20, 25, 30, 250, 480] {
        assert_eq!(scale(design), (design as f64 * 0.8) as u64);
    }
    assert_eq!(scale(12), 9);
    assert_eq!(scale(480), 384);
    assert_eq!(scale(250), 200);
    assert_eq!(scale(4), 3);
    assert_eq!(scale(2), 1);
    assert_eq!(scale(0), 0);
    assert_eq!(scale(u64::MAX), 14757395258967641292);
}

#[test]
fn toolkit_styles() {
    let frame = ToolKit::style(StyleKey::Frame);
    assert_eq!(frame.name, "toolkit.TFrame");
    assert_eq!(frame.background, "#1e1e1e");
    assert_eq!(frame.foreground, "");
    assert_eq!(frame.font_size, 0);
    assert_eq!(frame.font_family, "");
    assert_eq!(frame.font_weight, "");

    let exit = ToolKit::style(StyleKey::ExitButton);
    assert_eq!(exit.name, "exit.toolkit.TButton");
    assert_eq!(exit.background, "#e03131");
    assert_eq!(exit.foreground, "#1e1e1e");
    assert_eq!(exit.font_size, 9);
    assert_eq!(exit.font_family, "Charis-SIL");
    assert_eq!(exit.font_weight, "bold");

    let names: Vec<(StyleKey, &str)> = ToolKit::new(Config::default())
        .build_theme()
        .iter()
        .map(|(key, style)| (*key, style.name))
        .collect();
    assert_eq!(
        names,
        vec![
            (StyleKey::Frame, "toolkit.TFrame"),
            (StyleKey::Label, "label.toolkit.TLabel"),
            (StyleKey::Button, "button.toolkit.TButton"),
            (StyleKey::ExitButton, "exit.toolkit.TButton"),
            (StyleKey::IconifyButton, "iconify.toolkit.TButton"),
            (StyleKey::Notebook, "toolkit.TNotebook"),
            (StyleKey::NotebookTab, "toolkit.TNotebook.Tab"),
        ]
    );
}

#[test]
fn toolkit_label_button_and_tab_styles() {
    for (key, name, background, foreground, weight) in [
        (StyleKey::Label, "label.toolkit.TLabel", "#1e1e1e", "#ffffff", ""),
        (StyleKey::Button, "button.toolkit.TButton", "#ffffff", "#1e1e1e", ""),
        (StyleKey::IconifyButton, "iconify.toolkit.TButton", "#1971c2", "#1e1e1e", "bold"),
        (StyleKey::NotebookTab, "toolkit.TNotebook.Tab", "#ffffff", "#1e1e1e", ""),
    ] {
        let style = ToolKit::style(key);
        assert_eq!(style.name, name);
        assert_eq!(style.background, background);
        assert_eq!(style.foreground, foreground);
        assert_eq!(style.font_size, 9);
        assert_eq!(style.font_family, "Charis-SIL");
        assert_eq!(style.font_weight, weight);
    }
    let notebook = ToolKit::style(StyleKey::Notebook);
    assert_eq!(notebook.name, "toolkit.TNotebook");
    assert_eq!(notebook.background, "#1e1e1e");
    assert_eq!(notebook.font_size, 0);
}

fn field(name: &str, value: &str) -> Field {
    Field { name: name.to_owned(), value: value.to_owned() }
}

#[test]
fn details_of_a_blank_config() {
    assert_eq!(
        ToolKit::new(Config::default()).details(),
        vec![field("IME:", "Unknow"), field("Auto Commit:", "false"), field("Buffer Size:", "64")]
    );
}

#[test]
fn details_of_a_full_config() {
    assert_eq!(
        ToolKit::new(full_config()).details(),
        vec![field("IME:", "Clafrica"), field("Auto Commit:", "true"), field("Buffer Size:", "-12")]
    );
}

#[test]
fn description_of_the_configuration() {
    let notice = ToolKit::new(full_config()).description();
    assert_eq!(notice.title, "Configuration file");
    assert_eq!(notice.message, "Sample");
    assert_eq!(notice.detail, "https://example.org\n\nby Ada, Grace");

    let notice = ToolKit::new(Config::default()).description();
    assert_eq!(notice.message, "Unknown");
    assert_eq!(notice.detail, "Unknow\n\nby Unknow");
}

#[test]
fn help_page_and_its_boxes() {
    assert_eq!(
        ToolKit::help(),
        vec![field("Keyboard shortcuts:", "open"), field("About Afrim Wish:", "open")]
    );
    let notice = ToolKit::shortcuts();
    assert_eq!(notice.title, "Keyboard shortcuts");
    assert_eq!(notice.message, "Keyboard shortcuts");
    assert_eq!(
        notice.detail,
        "\
        Command -> Shortcuts\n\n\
        Pause / Resume -> CtrlLeft + CtrlRight\n\n\
        Clear -> Escape / Space\n\n\
        Select Next Predicate -> Ctrl + ShiftLeft\n\n\
        Select Previous Predicate -> Ctrl + ShiftRight\n\n\
        Commit Selected Predicate -> Ctrl + Space\
        "
    );
}

#[test]
fn about_box() {
    let package = Package {
        name: "afrim-wish",
        version: "0.3.1",
        authors: "A. Author",
        description: "An overlay",
        repository: "https://example.org/repo",
        license: "MIT",
    };
    let notice = ToolKit::about(package);
    assert_eq!(notice.title, "About");
    assert_eq!(notice.message, "afrim-wish");
    assert_eq!(
        notice.detail,
        format!(
            "\
            version: {}\n\n\
            by {}\n\n\
            {}\n\n\
            {}\n\n\
            This program comes with absolutely no warranty.\n\
            See the {} license for more details.\
            ",
            "0.3.1", "A. Author", "An overlay", "https://example.org/repo", "MIT"
        )
    );
}

#[test]
fn idle_button_has_two_looks() {
    let idle = ToolKit::idle_affordance(true);
    let running = ToolKit::idle_affordance(false);
    assert_eq!(idle, Affordance { label: "Idle", style: StyleKey::IconifyButton });
    assert_eq!(running, Affordance { label: "Running", style: StyleKey::Button });
    assert_ne!(idle.label, running.label);
    assert_ne!(ToolKit::style(idle.style).name, ToolKit::style(running.style).name);
}
