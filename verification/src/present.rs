//! The presenter: a color and a style profile become a line of styled text.

use vstd::prelude::*;
use crate::color::Color;
use crate::style::{FormatMode, StyleRule, TextStyle};
use crate::template::{fill, filled};

verus! {

/// A line of text with the attributes to show it in. Whoever writes it out
/// resets the attributes after the text.
#[derive(Clone, Debug, PartialEq, Eq)]
pub struct StyledText {
    pub text: String,
    pub style: TextStyle,
}

/// A styled line as a value: its characters and its attributes.
pub struct StyledLine {
    pub text: Seq<char>,
    pub style: TextStyle,
}

impl View for StyledText {
    type V = StyledLine;

    open spec fn view(&self) -> StyledLine {
        StyledLine { text: self.text@, style: self.style }
    }
}

/// The live line for a color: `#rrggbb`, in the attributes that the rule
/// gives the color.
pub open spec fn live_line(color: Color, rule: StyleRule) -> StyledLine {
    StyledLine { text: color.hex_text(), style: rule.applied(color) }
}

/// The final line for a color: the template with `#rrggbb` in its slot, in
/// the attributes that the rule gives the color.
pub open spec fn final_line(color: Color, rule: StyleRule, template: Seq<char>) -> StyledLine {
    StyledLine { text: filled(template, color.hex_text()), style: rule.applied(color) }
}

/// Presents a color for the live stream: the text `#rrggbb`, styled by the
/// profile.
pub fn present_live(color: Color, mode: &FormatMode) -> (line: StyledText)
    ensures
        line@ == live_line(color, mode.rule()),
{
    StyledText { text: color.hex(), style: mode.color_spec(color) }
}

/// Presents a color as the committed one: the template with `#rrggbb` in its
/// slot, styled by the profile.
pub fn present_final(color: Color, mode: &FormatMode, template: &str) -> (line: StyledText)
    ensures
        line@ == final_line(color, mode.rule(), template@),
{
    let hex = color.hex();
    StyledText { text: fill(template, hex.as_str()), style: mode.color_spec(color) }
}

} // verus!
