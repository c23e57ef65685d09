//! Settings of the service around the generator.

use vstd::prelude::*;

verus! {

/// The settings of the service.
#[derive(Debug, Clone, Copy, PartialEq, Eq, Structural)]
pub struct Config {
    /// Whether the service runs in debug mode.
    pub debug: bool,
}

/// What a text reads as a truth value: `true` and `false` are the only texts
/// that do.
pub open spec fn truth_value(text: Seq<char>) -> Option<bool> {
    if text == "true"@ {
        Some(true)
    } else if text == "false"@ {
        Some(false)
    } else {
        None
    }
}

/// The debug mode that a setting asks for: on, unless the setting is there
/// and reads as `false`.
pub open spec fn debug_mode(setting: Option<Seq<char>>) -> bool {
    match setting {
        Some(text) => truth_value(text) != Some(false),
        None => true,
    }
}

/// `str::parse::<bool>`: `true` for the text `true`, `false` for the text
/// `false`, and nothing for any other text.
#[verifier::external_body]
fn parse_bool(text: &str) -> (value: Option<bool>)
    ensures
        value == truth_value(text@),
{
    text.parse::<bool>().ok()
}

impl Config {
    /// The settings that follow from the debug setting, if one is given.
    pub fn from_debug_setting(setting: Option<&str>) -> (config: Config)
        ensures
            config.debug == debug_mode(
                match setting {
                    Some(text) => Some(text@),
                    None => None,
                },
            ),
    {
        let debug: bool = match setting {
            Some(text) => match parse_bool(text) {
                Some(value) => value,
                None => true,
            },
            None => true,
        };
        Config { debug }
    }
}

} // verus!
