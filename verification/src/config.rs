//! The configuration of a session.

use vstd::prelude::*;
use vstd::string::*;
use crate::style::FormatMode;
use crate::template::{has_one_slot, one_slot, slot, slot_at};

verus! {

/// What a session is run with: the stop buttons, the style profile of the
/// live stream, the style profile of the final line, and the template of the
/// final line.
///
/// Every configuration names at least one stop button, since a session could
/// not be ended otherwise, and its template has exactly one slot.
#[derive(Debug)]
pub struct Config {
    stop_buttons: Vec<usize>,
    normal: FormatMode,
    selected: FormatMode,
    selected_formatting: String,
}

/// Why a configuration is refused.
#[derive(Clone, Copy, Debug, PartialEq, Eq, Structural)]
pub enum ConfigError {
    /// No stop button is named.
    NoStopButtons,
    /// The template has no slot, or more than one.
    BadTemplate,
}

/// Whether a stop set and a template make a configuration, and the reason
/// where they do not. An empty stop set is reported before a bad template.
pub open spec fn acceptable(stop_set: Seq<usize>, template: Seq<char>) -> Result<(), ConfigError> {
    if stop_set.len() == 0 {
        Err(ConfigError::NoStopButtons)
    } else if !one_slot(template) {
        Err(ConfigError::BadTemplate)
    } else {
        Ok(())
    }
}

impl Config {
    #[verifier::type_invariant]
    spec fn inv(&self) -> bool {
        acceptable(self.stop_buttons@, self.selected_formatting@) is Ok
    }

    /// The indices of the stop buttons.
    pub closed spec fn stop_set(&self) -> Seq<usize> {
        self.stop_buttons@
    }

    /// The style profile of the live stream.
    pub closed spec fn live_mode(&self) -> FormatMode {
        self.normal
    }

    /// The style profile of the final line.
    pub closed spec fn final_mode(&self) -> FormatMode {
        self.selected
    }

    /// The template of the final line.
    pub closed spec fn template(&self) -> Seq<char> {
        self.selected_formatting@
    }

    /// Makes a configuration of its four parts. It is refused with
    /// `NoStopButtons` where the stop set is empty, else with `BadTemplate`
    /// where the template does not have exactly one slot `{hex}`.
    pub fn new(
        stop_buttons: Vec<usize>,
        normal: FormatMode,
        selected: FormatMode,
        selected_formatting: String,
    ) -> (made: Result<Config, ConfigError>)
        ensures
            match made {
                Ok(config) => {
                    &&& acceptable(stop_buttons@, selected_formatting@) is Ok
                    &&& config.stop_set() == stop_buttons@
                    &&& config.live_mode() == normal
                    &&& config.final_mode() == selected
                    &&& config.template() == selected_formatting@
                },
                Err(reason) => acceptable(stop_buttons@, selected_formatting@) == Err::<
                    (),
                    ConfigError,
                >(reason),
            },
    {
        if stop_buttons.len() == 0 {
            Err(ConfigError::NoStopButtons)
        } else if !has_one_slot(selected_formatting.as_str()) {
            Err(ConfigError::BadTemplate)
        } else {
            Ok(Config { stop_buttons, normal, selected, selected_formatting })
        }
    }

    /// The indices of the stop buttons, of which there is at least one.
    pub fn stop_buttons(&self) -> (stop_buttons: &Vec<usize>)
        ensures
            stop_buttons@ == self.stop_set(),
            stop_buttons@.len() > 0,
    {
        proof {
            use_type_invariant(self);
        }
        &self.stop_buttons
    }

    /// The style profile of the live stream.
    pub fn normal(&self) -> (mode: &FormatMode)
        ensures
            *mode == self.live_mode(),
    {
        &self.normal
    }

    /// The style profile of the final line.
    pub fn selected(&self) -> (mode: &FormatMode)
        ensures
            *mode == self.final_mode(),
    {
        &self.selected
    }

    /// The template of the final line, which has exactly one slot.
    pub fn selected_formatting(&self) -> (template: &String)
        ensures
            template@ == self.template(),
            one_slot(template@),
    {
        proof {
            use_type_invariant(self);
        }
        &self.selected_formatting
    }
}

/// The template `> {hex} <` has its one slot at index 2.
proof fn lemma_default_template()
    ensures
        one_slot("> {hex} <"@),
{
    reveal_strlit("> {hex} <");
    let text = "> {hex} <"@;
    assert(text.subrange(2, 7) =~= slot());
    assert(slot_at(text, 2));
    assert forall|j: int| slot_at(text, j) implies j == 2 by {
        assert(text.subrange(j, j + 5)[0] == text[j]);
        assert(slot()[0] == '{');
    }
}

impl Default for Config {
    /// The configuration of a session that is given none: the buttons 3, 4
    /// and 5 stop it, the live stream shows each color in bright foreground,
    /// the final line adds bold, and the template is `> {hex} <`.
    fn default() -> (config: Config)
        ensures
            config.stop_set() == seq![3usize, 4usize, 5usize],
            config.live_mode().foreground@ == "bright"@,
            config.live_mode().background@ == "none"@,
            config.live_mode().markdown@.len() == 0,
            config.final_mode().foreground@ == "bright"@,
            config.final_mode().background@ == "none"@,
            config.final_mode().markdown@.len() == 1,
            config.final_mode().markdown@[0]@ == "bold"@,
            config.template() == "> {hex} <"@,
    {
        let mut stop_buttons: Vec<usize> = Vec::new();
        stop_buttons.push(3);
        stop_buttons.push(4);
        stop_buttons.push(5);
        let mut selected = FormatMode::default();
        selected.markdown.push(String::from_str("bold"));
        proof {
            lemma_default_template();
            assert(stop_buttons@ =~= seq![3usize, 4usize, 5usize]);
        }
        Config {
            stop_buttons,
            normal: FormatMode::default(),
            selected,
            selected_formatting: String::from_str("> {hex} <"),
        }
    }
}

} // verus!
