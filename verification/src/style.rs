//! Style rules: how a color turns into the attributes of the text that shows
//! it.

use vstd::prelude::*;
use vstd::string::*;
use crate::color::Color;

verus! {

/// How strongly a color shows in the foreground or the background of a line.
#[derive(Clone, Copy, Debug, PartialEq, Eq, Structural)]
pub enum Emphasis {
    /// The terminal's own color is kept.
    Plain,
    /// The color itself.
    Bright,
    /// The darkened color.
    Dark,
}

/// The attributes of one piece of text: the colors that override the
/// terminal's own, where there are any, and weight and slant.
#[derive(Clone, Copy, Debug, PartialEq, Eq, Structural)]
pub struct TextStyle {
    pub foreground: Option<Color>,
    pub background: Option<Color>,
    pub bold: bool,
    pub italic: bool,
}

/// A style rule: the emphasis of foreground and background, each chosen on
/// its own, and whether the text is bold, italic, both or neither.
#[derive(Clone, Copy, Debug, PartialEq, Eq, Structural)]
pub struct StyleRule {
    pub foreground: Emphasis,
    pub background: Emphasis,
    pub bold: bool,
    pub italic: bool,
}

/// A style profile as a configuration spells it: the emphasis of foreground
/// and background by name, and a list of keywords for weight and slant.
#[derive(Clone, Debug, PartialEq, Eq)]
pub struct FormatMode {
    pub foreground: String,
    pub background: String,
    pub markdown: Vec<String>,
}

/// The color that an emphasis gives to a line showing `color`: the color, its
/// darkened variant, or no override.
pub open spec fn display_color(color: Color, emphasis: Emphasis) -> Option<Color> {
    match emphasis {
        Emphasis::Bright => Some(color),
        Emphasis::Dark => Some(color.darkened()),
        Emphasis::Plain => None,
    }
}

/// The emphasis that a word names: `bright`, `dark`, and none for any other
/// word.
pub open spec fn emphasis_named(word: Seq<char>) -> Emphasis {
    if word == "bright"@ {
        Emphasis::Bright
    } else if word == "dark"@ {
        Emphasis::Dark
    } else {
        Emphasis::Plain
    }
}

/// Whether `keyword` is one of `words`.
pub open spec fn lists(words: Seq<String>, keyword: Seq<char>) -> bool {
    exists|i: int| 0 <= i < words.len() && (#[trigger] words[i])@ == keyword
}

/// Turns a color and an emphasis into the color to show, if any.
pub fn to_display_color(color: Color, emphasis: Emphasis) -> (shown: Option<Color>)
    ensures
        shown == display_color(color, emphasis),
{
    match emphasis {
        Emphasis::Bright => Some(color),
        Emphasis::Dark => Some(color.darken()),
        Emphasis::Plain => None,
    }
}

/// Reads an emphasis from its name. A word that is neither `bright` nor
/// `dark` stands for no emphasis.
pub fn emphasis_of(word: &String) -> (emphasis: Emphasis)
    ensures
        emphasis == emphasis_named(word@),
{
    let bright = String::from_str("bright");
    let dark = String::from_str("dark");
    if *word == bright {
        Emphasis::Bright
    } else if *word == dark {
        Emphasis::Dark
    } else {
        Emphasis::Plain
    }
}

/// Tells whether a keyword occurs in a list of words.
pub fn has_keyword(words: &Vec<String>, keyword: &str) -> (found: bool)
    ensures
        found == lists(words@, keyword@),
{
    let wanted = String::from_str(keyword);
    let mut i: usize = 0;
    while i < words.len()
        invariant
            i <= words.len(),
            wanted@ == keyword@,
            forall|j: int| 0 <= j < i ==> (#[trigger] words@[j])@ != keyword@,
        decreases words.len() - i,
    {
        if words[i] == wanted {
            return true;
        }
        i += 1;
    }
    false
}

impl StyleRule {
    /// The attributes of a line that shows `color` under this rule.
    /// Foreground and background follow their own emphasis; weight and slant
    /// are taken over as they are.
    pub open spec fn applied(self, color: Color) -> TextStyle {
        TextStyle {
            foreground: display_color(color, self.foreground),
            background: display_color(color, self.background),
            bold: self.bold,
            italic: self.italic,
        }
    }

    /// Works out the attributes of a line that shows `color`.
    pub fn color_spec(&self, color: Color) -> (style: TextStyle)
        ensures
            style == self.applied(color),
    {
        TextStyle {
            foreground: to_display_color(color, self.foreground),
            background: to_display_color(color, self.background),
            bold: self.bold,
            italic: self.italic,
        }
    }
}

impl FormatMode {
    /// The rule that the profile spells out. The text is bold where the
    /// keywords list `bold` and italic where they list `italic`; other
    /// keywords count for nothing.
    pub open spec fn rule(&self) -> StyleRule {
        StyleRule {
            foreground: emphasis_named(self.foreground@),
            background: emphasis_named(self.background@),
            bold: lists(self.markdown@, "bold"@),
            italic: lists(self.markdown@, "italic"@),
        }
    }

    /// Reads the profile into a style rule.
    pub fn style_rule(&self) -> (rule: StyleRule)
        ensures
            rule == self.rule(),
    {
        StyleRule {
            foreground: emphasis_of(&self.foreground),
            background: emphasis_of(&self.background),
            bold: has_keyword(&self.markdown, "bold"),
            italic: has_keyword(&self.markdown, "italic"),
        }
    }

    /// Works out the attributes of a line that shows `color` under this
    /// profile.
    pub fn color_spec(&self, color: Color) -> (style: TextStyle)
        ensures
            style == self.rule().applied(color),
    {
        self.style_rule().color_spec(color)
    }
}

impl Default for FormatMode {
    /// The profile of the live stream unless configured otherwise: the color
    /// itself in the foreground, nothing else.
    fn default() -> (mode: FormatMode)
        ensures
            mode.foreground@ == "bright"@,
            mode.background@ == "none"@,
            mode.markdown@.len() == 0,
    {
        FormatMode {
            foreground: String::from_str("bright"),
            background: String::from_str("none"),
            markdown: Vec::new(),
        }
    }
}

} // verus!
