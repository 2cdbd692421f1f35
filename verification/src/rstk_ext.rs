//! The Tcl commands that style widgets and place top-level windows.
//!
//! Nothing here talks to the interpreter: each function returns the text of a
//! command, for the caller to send.

use crate::text::{bool_str, bool_text, decimal, decimal_string};
use vstd::prelude::*;

verus! {

/// A named ttk style: colours and font.
#[derive(Debug)]
pub struct Style {
    pub name: &'static str,
    pub background: String,
    pub foreground: String,
    pub font_size: u64,
    pub font_family: String,
    pub font_weight: String,
}

/// What a [`Style`] holds, as sequences of characters.
pub struct StyleView {
    pub name: Seq<char>,
    pub background: Seq<char>,
    pub foreground: Seq<char>,
    pub font_size: u64,
    pub font_family: Seq<char>,
    pub font_weight: Seq<char>,
}

impl View for Style {
    type V = StyleView;

    open spec fn view(&self) -> StyleView {
        StyleView {
            name: self.name@,
            background: self.background@,
            foreground: self.foreground@,
            font_size: self.font_size,
            font_family: self.font_family@,
            font_weight: self.font_weight@,
        }
    }
}

impl StyleView {
    /// The style with no name, no colours and no font.
    pub open spec fn blank() -> StyleView {
        StyleView {
            name: Seq::empty(),
            background: Seq::empty(),
            foreground: Seq::empty(),
            font_size: 0,
            font_family: Seq::empty(),
            font_weight: Seq::empty(),
        }
    }

    /// The command that gives the style the layout of the style it is named after.
    pub open spec fn layout_command(self) -> Seq<char> {
        "ttk::style layout {"@ + self.name + "} [ttk::style layout {"@ + self.name + "}];"@
    }

    /// The command that sets the style's colours and font.
    pub open spec fn config_command(self) -> Seq<char> {
        "ttk::style config "@ + self.name + " -background {"@ + self.background
            + "} -foreground {"@ + self.foreground + "} -font {"@ + self.font_family + " "@
            + decimal(self.font_size as nat) + " "@ + self.font_weight + "};"@
    }
}

impl Clone for Style {
    fn clone(&self) -> (r: Style)
        ensures
            r@ == self@,
    {
        Style {
            name: self.name,
            background: self.background.clone(),
            foreground: self.foreground.clone(),
            font_size: self.font_size,
            font_family: self.font_family.clone(),
            font_weight: self.font_weight.clone(),
        }
    }
}

impl Default for Style {
    fn default() -> (r: Style)
        ensures
            r@ == StyleView::blank(),
    {
        proof {
            reveal_strlit("");
        }
        let r = Style {
            name: "",
            background: String::new(),
            foreground: String::new(),
            font_size: 0,
            font_family: String::new(),
            font_weight: String::new(),
        };
        assert(r.name@ =~= Seq::<char>::empty());
        r
    }
}

impl Style {
    /// The two commands that register the style, in the order in which they
    /// are to be sent: its layout, then its colours and font.
    pub fn update(&self) -> (commands: Vec<String>)
        ensures
            commands.deep_view() == seq![self@.layout_command(), self@.config_command()],
    {
        let mut layout = String::from_str("ttk::style layout {");
        layout.append(self.name);
        layout.append("} [ttk::style layout {");
        layout.append(self.name);
        layout.append("}];");

        let size = decimal_string(self.font_size);
        let mut config = String::from_str("ttk::style config ");
        config.append(self.name);
        config.append(" -background {");
        config.append(self.background.as_str());
        config.append("} -foreground {");
        config.append(self.foreground.as_str());
        config.append("} -font {");
        config.append(self.font_family.as_str());
        config.append(" ");
        config.append(size.as_str());
        config.append(" ");
        config.append(self.font_weight.as_str());
        config.append("};");

        let mut commands: Vec<String> = Vec::new();
        commands.push(layout);
        commands.push(config);
        assert(commands.deep_view() =~= seq![self@.layout_command(), self@.config_command()]);
        commands
    }
}

/// The command that prepares the interpreter: its input is read as UTF-8.
pub open spec fn init_command() -> Seq<char> {
    "chan configure stdin -encoding utf-8"@
}

/// The command to send once, before any other.
pub fn init_rstk_ext() -> (command: &'static str)
    ensures
        command@ == init_command(),
{
    "chan configure stdin -encoding utf-8"
}

/// The command that gives the widget `id` the style named `style`.
pub open spec fn style_command_text(id: Seq<char>, style: Seq<char>) -> Seq<char> {
    id + " configure -style {"@ + style + "}"@
}

/// The command that gives the widget `id` the style `style`.
pub fn style_command(id: &str, style: &Style) -> (command: String)
    ensures
        command@ == style_command_text(id@, style@.name),
{
    let mut command = String::from_str(id);
    command.append(" configure -style {");
    command.append(style.name);
    command.append("}");
    command
}

/// The command that shows (`value`) or hides the window manager's frame
/// around the window `id`.
pub open spec fn border_command_text(id: Seq<char>, value: bool) -> Seq<char> {
    "wm overrideredirect "@ + id + " "@ + bool_text(!value) + ";"@
}

/// The command that shows or hides the frame around the window `id`.
pub fn border_command(id: &str, value: bool) -> (command: String)
    ensures
        command@ == border_command_text(id@, value),
{
    let mut command = String::from_str("wm overrideredirect ");
    command.append(id);
    command.append(" ");
    command.append(bool_str(!value));
    command.append(";");
    command
}

/// The command that keeps (`value`) the window `id` above all others, or
/// stops doing so.
pub open spec fn topmost_command_text(id: Seq<char>, value: bool) -> Seq<char> {
    "wm attributes "@ + id + " -topmost "@ + bool_text(value) + ";"@
}

/// The command that keeps the window `id` above all others, or stops doing so.
pub fn topmost_command(id: &str, value: bool) -> (command: String)
    ensures
        command@ == topmost_command_text(id@, value),
{
    let mut command = String::from_str("wm attributes ");
    command.append(id);
    command.append(" -topmost ");
    command.append(bool_str(value));
    command.append(";");
    command
}

/// The command that moves the window `id` to the screen position (`x`, `y`).
pub open spec fn position_command_text(id: Seq<char>, x: u64, y: u64) -> Seq<char> {
    "wm geometry "@ + id + " +"@ + decimal(x as nat) + "+"@ + decimal(y as nat)
}

/// The command that moves the window `id` to the screen position (`x`, `y`).
pub fn position_command(id: &str, x: u64, y: u64) -> (command: String)
    ensures
        command@ == position_command_text(id@, x, y),
{
    let left = decimal_string(x);
    let top = decimal_string(y);
    let mut command = String::from_str("wm geometry ");
    command.append(id);
    command.append(" +");
    command.append(left.as_str());
    command.append("+");
    command.append(top.as_str());
    command
}

} // verus!
