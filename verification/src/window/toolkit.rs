//! The toolkit window: what it shows of the configuration, and how it looks.

use crate::config::{Config, ConfigView};
use crate::rstk_ext::{Style, StyleView};
use crate::text::{bool_str, bool_text, join, join_strings, signed_decimal, signed_decimal_string};
use vstd::prelude::*;

verus! {

/// A length of the toolkit's layout at the size it is drawn: four fifths of
/// the design length, rounded down.
pub open spec fn scaled(length: nat) -> nat {
    length * 4 / 5
}

/// Scales a design length to the size it is drawn.
pub fn scale(length: u64) -> (r: u64)
    ensures
        r == scaled(length as nat),
{
    length / 5 * 4 + length % 5 * 4 / 5
}

/// The styles of the toolkit window.
#[derive(Clone, Copy, Debug, PartialEq, Eq, Hash)]
pub enum StyleKey {
    Frame,
    Label,
    Button,
    ExitButton,
    IconifyButton,
    Notebook,
    NotebookTab,
}

/// The font size of the toolkit's texts: twelve points at design size.
pub open spec fn font_size() -> u64 {
    scaled(12) as u64
}

/// The style of the toolkit window that `key` names.
pub open spec fn toolkit_style(key: StyleKey) -> StyleView {
    match key {
        StyleKey::Frame => StyleView {
            name: "toolkit.TFrame"@,
            background: "#1e1e1e"@,
            ..StyleView::blank()
        },
        StyleKey::Label => StyleView {
            name: "label.toolkit.TLabel"@,
            background: "#1e1e1e"@,
            foreground: "#ffffff"@,
            font_size: font_size(),
            font_family: "Charis-SIL"@,
            ..StyleView::blank()
        },
        StyleKey::Button => StyleView {
            name: "button.toolkit.TButton"@,
            background: "#ffffff"@,
            foreground: "#1e1e1e"@,
            font_size: font_size(),
            font_family: "Charis-SIL"@,
            ..StyleView::blank()
        },
        StyleKey::ExitButton => StyleView {
            name: "exit.toolkit.TButton"@,
            background: "#e03131"@,
            foreground: "#1e1e1e"@,
            font_size: font_size(),
            font_family: "Charis-SIL"@,
            font_weight: "bold"@,
        },
        StyleKey::IconifyButton => StyleView {
            name: "iconify.toolkit.TButton"@,
            background: "#1971c2"@,
            foreground: "#1e1e1e"@,
            font_size: font_size(),
            font_family: "Charis-SIL"@,
            font_weight: "bold"@,
        },
        StyleKey::Notebook => StyleView {
            name: "toolkit.TNotebook"@,
            background: "#1e1e1e"@,
            ..StyleView::blank()
        },
        StyleKey::NotebookTab => StyleView {
            name: "toolkit.TNotebook.Tab"@,
            background: "#ffffff"@,
            foreground: "#1e1e1e"@,
            font_size: font_size(),
            font_family: "Charis-SIL"@,
            ..StyleView::blank()
        },
    }
}

/// The keys of all styles, in the order in which they are registered.
pub open spec fn style_keys() -> Seq<StyleKey> {
    seq![
        StyleKey::Frame,
        StyleKey::Label,
        StyleKey::Button,
        StyleKey::ExitButton,
        StyleKey::IconifyButton,
        StyleKey::Notebook,
        StyleKey::NotebookTab,
    ]
}

/// How the idle button looks in a state: its label and its style.
#[derive(Debug, PartialEq, Eq)]
pub struct Affordance {
    pub label: &'static str,
    pub style: StyleKey,
}

/// The label of the idle button while the engine is idle (`true`) or running.
pub open spec fn idle_label(idle: bool) -> Seq<char> {
    if idle {
        "Idle"@
    } else {
        "Running"@
    }
}

/// The style of the idle button while the engine is idle (`true`) or running.
pub open spec fn idle_style(idle: bool) -> StyleKey {
    if idle {
        StyleKey::IconifyButton
    } else {
        StyleKey::Button
    }
}

/// The two looks of the idle button differ in label and in style, so the
/// button shows one state at a time.
pub proof fn lemma_idle_looks_differ()
    ensures
        idle_label(true) != idle_label(false),
        idle_style(true) != idle_style(false),
        toolkit_style(idle_style(true)).name != toolkit_style(idle_style(false)).name,
{
    reveal_strlit("Idle");
    reveal_strlit("Running");
    reveal_strlit("iconify.toolkit.TButton");
    reveal_strlit("button.toolkit.TButton");
    assert("Idle"@.len() != "Running"@.len());
    assert("iconify.toolkit.TButton"@.len() != "button.toolkit.TButton"@.len());
}

/// A line of a page of the toolkit window: what is shown, and its value.
#[derive(Debug, PartialEq, Eq)]
pub struct Field {
    pub name: String,
    pub value: String,
}

/// What a [`Field`] holds, as sequences of characters.
pub struct FieldView {
    pub name: Seq<char>,
    pub value: Seq<char>,
}

impl View for Field {
    type V = FieldView;

    open spec fn view(&self) -> FieldView {
        FieldView { name: self.name@, value: self.value@ }
    }
}

impl DeepView for Field {
    type V = FieldView;

    open spec fn deep_view(&self) -> FieldView {
        self@
    }
}

/// What a message box says.
#[derive(Debug, PartialEq, Eq)]
pub struct Notice {
    pub title: String,
    pub message: String,
    pub detail: String,
}

/// What a [`Notice`] holds, as sequences of characters.
pub struct NoticeView {
    pub title: Seq<char>,
    pub message: Seq<char>,
    pub detail: Seq<char>,
}

impl View for Notice {
    type V = NoticeView;

    open spec fn view(&self) -> NoticeView {
        NoticeView { title: self.title@, message: self.message@, detail: self.detail@ }
    }
}

/// The lines of the page "Details" for `config`: the input method, whether
/// the engine commits by itself, and the size of its buffer. What `config`
/// leaves out is taken from the defaults.
pub open spec fn details_of(config: ConfigView) -> Seq<FieldView> {
    seq![
        FieldView { name: "IME:"@, value: config.info_or_default().input_method },
        FieldView {
            name: "Auto Commit:"@,
            value: bool_text(config.core_or_default().auto_commit),
        },
        FieldView {
            name: "Buffer Size:"@,
            value: signed_decimal(config.core_or_default().buffer_size as int),
        },
    ]
}

/// What the box behind the line "IME:" says of `config`: the name of the
/// configuration, then its homepage and, after an empty line, its
/// maintainers separated by commas.
pub open spec fn description_of(config: ConfigView) -> NoticeView {
    NoticeView {
        title: "Configuration file"@,
        message: config.info_or_default().name,
        detail: config.info_or_default().homepage + "\n\nby "@ + join(
            config.info_or_default().maintainors,
            ", "@,
        ),
    }
}

/// The lines of the page "Help": each opens a box.
pub open spec fn help_fields() -> Seq<FieldView> {
    seq![
        FieldView { name: "Keyboard shortcuts:"@, value: "open"@ },
        FieldView { name: "About Afrim Wish:"@, value: "open"@ },
    ]
}

/// What the box behind the line "Keyboard shortcuts:" says.
pub open spec fn shortcuts_notice() -> NoticeView {
    NoticeView {
        title: "Keyboard shortcuts"@,
        message: "Keyboard shortcuts"@,
        detail: "Command -> Shortcuts\n\nPause / Resume -> CtrlLeft + CtrlRight\n\nClear -> Escape / Space\n\nSelect Next Predicate -> Ctrl + ShiftLeft\n\nSelect Previous Predicate -> Ctrl + ShiftRight\n\nCommit Selected Predicate -> Ctrl + Space"@,
    }
}

/// What a program says of itself.
#[derive(Clone, Copy, Debug, PartialEq, Eq)]
pub struct Package {
    pub name: &'static str,
    pub version: &'static str,
    pub authors: &'static str,
    pub description: &'static str,
    pub repository: &'static str,
    pub license: &'static str,
}

/// What the box behind the line "About Afrim Wish:" says of `package`: its
/// name, then its version, authors, description and repository, an empty
/// line between each two, and the disclaimer that names its license.
pub open spec fn about_notice(package: Package) -> NoticeView {
    NoticeView {
        title: "About"@,
        message: package.name@,
        detail: "version: "@ + package.version@ + "\n\nby "@ + package.authors@ + "\n\n"@
            + package.description@ + "\n\n"@ + package.repository@
            + "\n\nThis program comes with absolutely no warranty.\nSee the "@
            + package.license@ + " license for more details."@,
    }
}

/// The toolkit window's model: the configuration it displays.
#[derive(Debug)]
pub struct ToolKit {
    config: Config,
}

impl View for ToolKit {
    type V = ConfigView;

    closed spec fn view(&self) -> ConfigView {
        self.config@
    }
}

impl ToolKit {
    /// The toolkit for `config`.
    pub fn new(config: Config) -> (toolkit: ToolKit)
        ensures
            toolkit@ == config@,
    {
        ToolKit { config }
    }

    /// The style that `key` names.
    pub fn style(key: StyleKey) -> (style: Style)
        ensures
            style@ == toolkit_style(key),
    {
        let blank = Style::default();
        match key {
            StyleKey::Frame => Style {
                name: "toolkit.TFrame",
                background: String::from_str("#1e1e1e"),
                ..blank
            },
            StyleKey::Label => Style {
                name: "label.toolkit.TLabel",
                background: String::from_str("#1e1e1e"),
                foreground: String::from_str("#ffffff"),
                font_size: scale(12),
                font_family: String::from_str("Charis-SIL"),
                ..blank
            },
            StyleKey::Button => Style {
                name: "button.toolkit.TButton",
                background: String::from_str("#ffffff"),
                foreground: String::from_str("#1e1e1e"),
                font_size: scale(12),
                font_family: String::from_str("Charis-SIL"),
                ..blank
            },
            StyleKey::ExitButton => Style {
                name: "exit.toolkit.TButton",
                background: String::from_str("#e03131"),
                foreground: String::from_str("#1e1e1e"),
                font_size: scale(12),
                font_family: String::from_str("Charis-SIL"),
                font_weight: String::from_str("bold"),
            },
            StyleKey::IconifyButton => Style {
                name: "iconify.toolkit.TButton",
                background: String::from_str("#1971c2"),
                foreground: String::from_str("#1e1e1e"),
                font_size: scale(12),
                font_family: String::from_str("Charis-SIL"),
                font_weight: String::from_str("bold"),
            },
            StyleKey::Notebook => Style {
                name: "toolkit.TNotebook",
                background: String::from_str("#1e1e1e"),
                ..blank
            },
            StyleKey::NotebookTab => Style {
                name: "toolkit.TNotebook.Tab",
                background: String::from_str("#ffffff"),
                foreground: String::from_str("#1e1e1e"),
                font_size: scale(12),
                font_family: String::from_str("Charis-SIL"),
                ..blank
            },
        }
    }

    /// All styles of the toolkit window with their keys, for the caller to
    /// register: one for each key, in the order of `style_keys()`.
    pub fn build_theme(&self) -> (styles: Vec<(StyleKey, Style)>)
        ensures
            styles.len() == style_keys().len(),
            forall|i: int|
                0 <= i < styles.len() ==> (#[trigger] styles[i]).0 == style_keys()[i]
                    && styles[i].1@ == toolkit_style(style_keys()[i]),
    {
        let mut styles: Vec<(StyleKey, Style)> = Vec::new();
        styles.push((StyleKey::Frame, Self::style(StyleKey::Frame)));
        styles.push((StyleKey::Label, Self::style(StyleKey::Label)));
        styles.push((StyleKey::Button, Self::style(StyleKey::Button)));
        styles.push((StyleKey::ExitButton, Self::style(StyleKey::ExitButton)));
        styles.push((StyleKey::IconifyButton, Self::style(StyleKey::IconifyButton)));
        styles.push((StyleKey::Notebook, Self::style(StyleKey::Notebook)));
        styles.push((StyleKey::NotebookTab, Self::style(StyleKey::NotebookTab)));
        styles
    }

    /// How the idle button looks while the engine is idle (`true`) or running.
    pub fn idle_affordance(idle: bool) -> (look: Affordance)
        ensures
            look.label@ == idle_label(idle),
            look.style == idle_style(idle),
    {
        if idle {
            Affordance { label: "Idle", style: StyleKey::IconifyButton }
        } else {
            Affordance { label: "Running", style: StyleKey::Button }
        }
    }

    /// The lines of the page "Details".
    pub fn details(&self) -> (fields: Vec<Field>)
        ensures
            fields.deep_view() == details_of(self@),
    {
        let info = self.config.info_or_default();
        let core = self.config.core_or_default();
        let mut fields: Vec<Field> = Vec::new();
        fields.push(Field { name: String::from_str("IME:"), value: info.input_method });
        fields.push(
            Field {
                name: String::from_str("Auto Commit:"),
                value: String::from_str(bool_str(core.auto_commit)),
            },
        );
        fields.push(
            Field {
                name: String::from_str("Buffer Size:"),
                value: signed_decimal_string(core.buffer_size as i64),
            },
        );
        assert(fields.deep_view() =~= details_of(self@));
        fields
    }

    /// The lines of the page "Help".
    pub fn help() -> (fields: Vec<Field>)
        ensures
            fields.deep_view() == help_fields(),
    {
        let mut fields: Vec<Field> = Vec::new();
        fields.push(
            Field { name: String::from_str("Keyboard shortcuts:"), value: String::from_str("open") },
        );
        fields.push(
            Field { name: String::from_str("About Afrim Wish:"), value: String::from_str("open") },
        );
        assert(fields.deep_view() =~= help_fields());
        fields
    }

    /// What the box behind the line "Keyboard shortcuts:" says.
    pub fn shortcuts() -> (notice: Notice)
        ensures
            notice@ == shortcuts_notice(),
    {
        Notice {
            title: String::from_str("Keyboard shortcuts"),
            message: String::from_str("Keyboard shortcuts"),
            detail: String::from_str(
                "Command -> Shortcuts\n\nPause / Resume -> CtrlLeft + CtrlRight\n\nClear -> Escape / Space\n\nSelect Next Predicate -> Ctrl + ShiftLeft\n\nSelect Previous Predicate -> Ctrl + ShiftRight\n\nCommit Selected Predicate -> Ctrl + Space",
            ),
        }
    }

    /// What the box behind the line "About Afrim Wish:" says of `package`.
    pub fn about(package: Package) -> (notice: Notice)
        ensures
            notice@ == about_notice(package),
    {
        let mut detail = String::from_str("version: ");
        detail.append(package.version);
        detail.append("\n\nby ");
        detail.append(package.authors);
        detail.append("\n\n");
        detail.append(package.description);
        detail.append("\n\n");
        detail.append(package.repository);
        detail.append("\n\nThis program comes with absolutely no warranty.\nSee the ");
        detail.append(package.license);
        detail.append(" license for more details.");
        Notice { title: String::from_str("About"), message: String::from_str(package.name), detail }
    }

    /// What the box behind the line "IME:" says.
    pub fn description(&self) -> (notice: Notice)
        ensures
            notice@ == description_of(self@),
    {
        let info = self.config.info_or_default();
        let mut detail = info.homepage;
        detail.append("\n\nby ");
        let maintainors = join_strings(&info.maintainors, ", ");
        detail.append(maintainors.as_str());
        Notice { title: String::from_str("Configuration file"), message: info.name, detail }
    }
}

} // verus!
