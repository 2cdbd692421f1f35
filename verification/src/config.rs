//! Settings handed over at start-up: the two colour zones of the overlay and
//! what the toolkit window shows about the input method.

use vstd::prelude::*;

verus! {

/// A font: family, size in points, and weight.
#[derive(Debug)]
pub struct ThemeFont {
    pub family: String,
    pub size: u64,
    pub weight: String,
}

/// What a [`ThemeFont`] holds, as sequences of characters.
pub struct ThemeFontView {
    pub family: Seq<char>,
    pub size: u64,
    pub weight: Seq<char>,
}

impl View for ThemeFont {
    type V = ThemeFontView;

    open spec fn view(&self) -> ThemeFontView {
        ThemeFontView { family: self.family@, size: self.size, weight: self.weight@ }
    }
}

impl Clone for ThemeFont {
    fn clone(&self) -> (r: ThemeFont)
        ensures
            r@ == self@,
    {
        ThemeFont { family: self.family.clone(), size: self.size, weight: self.weight.clone() }
    }
}

/// The colours and font of one zone of the overlay.
#[derive(Debug)]
pub struct SectionTheme {
    pub background: String,
    pub foreground: String,
    pub font: ThemeFont,
}

/// What a [`SectionTheme`] holds, as sequences of characters.
pub struct SectionThemeView {
    pub background: Seq<char>,
    pub foreground: Seq<char>,
    pub font: ThemeFontView,
}

impl View for SectionTheme {
    type V = SectionThemeView;

    open spec fn view(&self) -> SectionThemeView {
        SectionThemeView {
            background: self.background@,
            foreground: self.foreground@,
            font: self.font@,
        }
    }
}

impl Clone for SectionTheme {
    fn clone(&self) -> (r: SectionTheme)
        ensures
            r@ == self@,
    {
        SectionTheme {
            background: self.background.clone(),
            foreground: self.foreground.clone(),
            font: self.font.clone(),
        }
    }
}

/// The look of the overlay: the header shows the text being composed, the
/// body the candidates.
#[derive(Debug)]
pub struct Theme {
    pub header: SectionTheme,
    pub body: SectionTheme,
}

/// What a [`Theme`] holds, as sequences of characters.
pub struct ThemeView {
    pub header: SectionThemeView,
    pub body: SectionThemeView,
}

impl View for Theme {
    type V = ThemeView;

    open spec fn view(&self) -> ThemeView {
        ThemeView { header: self.header@, body: self.body@ }
    }
}

impl Clone for Theme {
    fn clone(&self) -> (r: Theme)
        ensures
            r@ == self@,
    {
        Theme { header: self.header.clone(), body: self.body.clone() }
    }
}

/// The font of both zones when no theme is configured.
pub open spec fn default_font() -> ThemeFontView {
    ThemeFontView { family: "Charis-SIL"@, size: 10, weight: "bold"@ }
}

/// The theme used when none is configured: light text on a dark header,
/// dark text on a light body.
pub open spec fn default_theme() -> ThemeView {
    ThemeView {
        header: SectionThemeView {
            background: "#252320"@,
            foreground: "#dedddd"@,
            font: default_font(),
        },
        body: SectionThemeView {
            background: "#dedddd"@,
            foreground: "#252320"@,
            font: default_font(),
        },
    }
}

impl Default for Theme {
    fn default() -> (r: Theme)
        ensures
            r@ == default_theme(),
    {
        let font = ThemeFont {
            family: String::from_str("Charis-SIL"),
            size: 10,
            weight: String::from_str("bold"),
        };
        let header = SectionTheme {
            background: String::from_str("#252320"),
            foreground: String::from_str("#dedddd"),
            font: font.clone(),
        };
        let body = SectionTheme {
            background: String::from_str("#dedddd"),
            foreground: String::from_str("#252320"),
            font,
        };
        Theme { header, body }
    }
}

/// Engine settings that the toolkit window displays.
#[derive(Clone, Copy, Debug, PartialEq, Eq)]
pub struct Core {
    pub buffer_size: i8,
    pub auto_commit: bool,
}

/// The engine settings assumed when none are configured.
pub open spec fn default_core() -> Core {
    Core { buffer_size: 64, auto_commit: false }
}

impl Default for Core {
    fn default() -> (r: Core)
        ensures
            r == default_core(),
    {
        Core { buffer_size: 64, auto_commit: false }
    }
}

/// Who made the input method and where it lives.
#[derive(Debug)]
pub struct Info {
    pub name: String,
    pub maintainors: Vec<String>,
    pub input_method: String,
    pub homepage: String,
}

/// What an [`Info`] holds, as sequences of characters.
pub struct InfoView {
    pub name: Seq<char>,
    pub maintainors: Seq<Seq<char>>,
    pub input_method: Seq<char>,
    pub homepage: Seq<char>,
}

impl View for Info {
    type V = InfoView;

    open spec fn view(&self) -> InfoView {
        InfoView {
            name: self.name@,
            maintainors: self.maintainors.deep_view(),
            input_method: self.input_method@,
            homepage: self.homepage@,
        }
    }
}

impl Clone for Info {
    fn clone(&self) -> (r: Info)
        ensures
            r@ == self@,
    {
        let mut maintainors: Vec<String> = Vec::new();
        let mut i: usize = 0;
        while i < self.maintainors.len()
            invariant
                i <= self.maintainors.len(),
                maintainors.len() == i,
                forall|j: int| 0 <= j < i ==> maintainors[j]@ == self.maintainors[j]@,
            decreases self.maintainors.len() - i,
        {
            maintainors.push(self.maintainors[i].clone());
            i += 1;
        }
        assert(maintainors.deep_view() =~= self.maintainors.deep_view());
        Info {
            name: self.name.clone(),
            maintainors,
            input_method: self.input_method.clone(),
            homepage: self.homepage.clone(),
        }
    }
}

/// What the toolkit window shows when the configuration says nothing of the
/// input method.
pub open spec fn default_info() -> InfoView {
    InfoView {
        name: "Unknown"@,
        maintainors: seq!["Unknow"@],
        input_method: "Unknow"@,
        homepage: "Unknow"@,
    }
}

impl Default for Info {
    fn default() -> (r: Info)
        ensures
            r@ == default_info(),
    {
        let mut maintainors: Vec<String> = Vec::new();
        maintainors.push(String::from_str("Unknow"));
        let r = Info {
            name: String::from_str("Unknown"),
            maintainors,
            input_method: String::from_str("Unknow"),
            homepage: String::from_str("Unknow"),
        };
        assert(r.maintainors.deep_view() =~= seq!["Unknow"@]);
        r
    }
}

/// The whole configuration; every section is optional.
#[derive(Debug)]
pub struct Config {
    pub theme: Option<Theme>,
    pub core: Option<Core>,
    pub info: Option<Info>,
}

/// What a [`Config`] holds, as sequences of characters.
pub struct ConfigView {
    pub theme: Option<ThemeView>,
    pub core: Option<Core>,
    pub info: Option<InfoView>,
}

impl ConfigView {
    /// The configured theme, or the default one.
    pub open spec fn theme_or_default(self) -> ThemeView {
        match self.theme {
            Some(theme) => theme,
            None => default_theme(),
        }
    }

    /// The configured engine settings, or the default ones.
    pub open spec fn core_or_default(self) -> Core {
        match self.core {
            Some(core) => core,
            None => default_core(),
        }
    }

    /// The configured description, or the default one.
    pub open spec fn info_or_default(self) -> InfoView {
        match self.info {
            Some(info) => info,
            None => default_info(),
        }
    }
}

impl View for Config {
    type V = ConfigView;

    open spec fn view(&self) -> ConfigView {
        ConfigView {
            theme: match self.theme {
                Some(theme) => Some(theme@),
                None => None,
            },
            core: self.core,
            info: match self.info {
                Some(info) => Some(info@),
                None => None,
            },
        }
    }
}

impl Clone for Config {
    fn clone(&self) -> (r: Config)
        ensures
            r@ == self@,
    {
        Config {
            theme: match &self.theme {
                Some(theme) => Some(theme.clone()),
                None => None,
            },
            core: self.core,
            info: match &self.info {
                Some(info) => Some(info.clone()),
                None => None,
            },
        }
    }
}

impl Default for Config {
    fn default() -> (r: Config)
        ensures
            r@ == (ConfigView { theme: None, core: None, info: None }),
    {
        Config { theme: None, core: None, info: None }
    }
}

impl Config {
    /// The configured theme, or the default one.
    pub fn theme_or_default(&self) -> (r: Theme)
        ensures
            r@ == self@.theme_or_default(),
    {
        match &self.theme {
            Some(theme) => theme.clone(),
            None => Theme::default(),
        }
    }

    /// The configured engine settings, or the default ones.
    pub fn core_or_default(&self) -> (r: Core)
        ensures
            r == self@.core_or_default(),
    {
        match self.core {
            Some(core) => core,
            None => Core::default(),
        }
    }

    /// The configured description, or the default one.
    pub fn info_or_default(&self) -> (r: Info)
        ensures
            r@ == self@.info_or_default(),
    {
        match &self.info {
            Some(info) => info.clone(),
            None => Info::default(),
        }
    }
}

} // verus!
