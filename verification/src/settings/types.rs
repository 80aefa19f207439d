//! The settings and their defaults.

use vstd::prelude::*;

verus! {

/// What the user can set.
#[derive(Debug, PartialEq, Eq)]
pub struct Settings {
    pub version: String,
    pub app_theme: String,
    pub font_size: u32,
    pub font_family: String,
    pub terminal_theme_id: String,
}

/// Settings as plain values.
pub struct SettingsView {
    pub version: Seq<char>,
    pub app_theme: Seq<char>,
    pub font_size: u32,
    pub font_family: Seq<char>,
    pub terminal_theme_id: Seq<char>,
}

impl View for Settings {
    type V = SettingsView;

    open spec fn view(&self) -> SettingsView {
        SettingsView {
            version: self.version@,
            app_theme: self.app_theme@,
            font_size: self.font_size,
            font_family: self.font_family@,
            terminal_theme_id: self.terminal_theme_id@,
        }
    }
}

/// The settings of a fresh installation.
pub open spec fn default_settings() -> SettingsView {
    SettingsView {
        version: "1.0.0"@,
        app_theme: "dark"@,
        font_size: 14,
        font_family: "Cascadia Code, Consolas, Monaco, monospace"@,
        terminal_theme_id: "retro"@,
    }
}

/// The theme of the application where the stored settings name none.
pub fn default_app_theme() -> (theme: String)
    ensures
        theme@ == "dark"@,
{
    String::from_str("dark")
}

/// The theme of the terminal where the stored settings name none.
pub fn default_terminal_theme_id() -> (id: String)
    ensures
        id@ == "retro"@,
{
    String::from_str("retro")
}

impl Default for Settings {
    fn default() -> (settings: Self)
        ensures
            settings@ == default_settings(),
    {
        Settings {
            version: String::from_str("1.0.0"),
            app_theme: default_app_theme(),
            font_size: 14,
            font_family: String::from_str("Cascadia Code, Consolas, Monaco, monospace"),
            terminal_theme_id: default_terminal_theme_id(),
        }
    }
}

impl Clone for Settings {
    fn clone(&self) -> (copy: Self)
        ensures
            copy@ == self@,
    {
        Settings {
            version: self.version.clone(),
            app_theme: self.app_theme.clone(),
            font_size: self.font_size,
            font_family: self.font_family.clone(),
            terminal_theme_id: self.terminal_theme_id.clone(),
        }
    }
}

/// The colours of a terminal.
#[derive(Debug, Clone, PartialEq, Eq)]
pub struct TerminalTheme {
    pub background: String,
    pub foreground: String,
    pub cursor: String,
    pub cursor_accent: Option<String>,
    pub selection_background: Option<String>,
    pub black: Option<String>,
    pub red: Option<String>,
    pub green: Option<String>,
    pub yellow: Option<String>,
    pub blue: Option<String>,
    pub magenta: Option<String>,
    pub cyan: Option<String>,
    pub white: Option<String>,
    pub bright_black: Option<String>,
    pub bright_red: Option<String>,
    pub bright_green: Option<String>,
    pub bright_yellow: Option<String>,
    pub bright_blue: Option<String>,
    pub bright_magenta: Option<String>,
    pub bright_cyan: Option<String>,
    pub bright_white: Option<String>,
}

/// Whether an optional colour is set to `text`.
pub open spec fn is_colour(colour: Option<String>, text: Seq<char>) -> bool {
    match colour {
        Some(c) => c@ == text,
        None => false,
    }
}

impl TerminalTheme {
    /// Whether the theme is the green-on-black one: black background and
    /// cursor accent, white selection, `normal` for the text, the cursor
    /// and the eight plain colours, and `bright` for the eight bright
    /// ones.
    pub open spec fn is_retro(self, normal: Seq<char>, bright: Seq<char>) -> bool {
        &&& self.background@ == "#000000"@
        &&& self.foreground@ == normal
        &&& self.cursor@ == normal
        &&& is_colour(self.cursor_accent, "#000000"@)
        &&& is_colour(self.selection_background, "#ffffff"@)
        &&& is_colour(self.black, normal)
        &&& is_colour(self.red, normal)
        &&& is_colour(self.green, normal)
        &&& is_colour(self.yellow, normal)
        &&& is_colour(self.blue, normal)
        &&& is_colour(self.magenta, normal)
        &&& is_colour(self.cyan, normal)
        &&& is_colour(self.white, normal)
        &&& is_colour(self.bright_black, bright)
        &&& is_colour(self.bright_red, bright)
        &&& is_colour(self.bright_green, bright)
        &&& is_colour(self.bright_yellow, bright)
        &&& is_colour(self.bright_blue, bright)
        &&& is_colour(self.bright_magenta, bright)
        &&& is_colour(self.bright_cyan, bright)
        &&& is_colour(self.bright_white, bright)
    }
}

impl Default for TerminalTheme {
    fn default() -> (theme: Self)
        ensures
            theme.is_retro("#13a10e"@, "#16ba10"@),
    {
        TerminalTheme {
            background: String::from_str("#000000"),
            foreground: String::from_str("#13a10e"),
            cursor: String::from_str("#13a10e"),
            cursor_accent: Some(String::from_str("#000000")),
            selection_background: Some(String::from_str("#ffffff")),
            black: Some(String::from_str("#13a10e")),
            red: Some(String::from_str("#13a10e")),
            green: Some(String::from_str("#13a10e")),
            yellow: Some(String::from_str("#13a10e")),
            blue: Some(String::from_str("#13a10e")),
            magenta: Some(String::from_str("#13a10e")),
            cyan: Some(String::from_str("#13a10e")),
            white: Some(String::from_str("#13a10e")),
            bright_black: Some(String::from_str("#16ba10")),
            bright_red: Some(String::from_str("#16ba10")),
            bright_green: Some(String::from_str("#16ba10")),
            bright_yellow: Some(String::from_str("#16ba10")),
            bright_blue: Some(String::from_str("#16ba10")),
            bright_magenta: Some(String::from_str("#16ba10")),
            bright_cyan: Some(String::from_str("#16ba10")),
            bright_white: Some(String::from_str("#16ba10")),
        }
    }
}

} // verus!
