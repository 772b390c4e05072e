use vstd::prelude::*;

use crate::text::str_equals;
use crate::ConfigError;

verus! {

/// The three colors a widget is drawn with.
#[derive(Debug, Clone, Copy)]
pub struct Theme {
    pub color_text: [u8; 3],
    pub color_highlighted: [u8; 3],
    pub color_headline: [u8; 3],
}

/// A theme from its colors, in the order text, highlighted, headline.
pub open spec fn theme_colors(text: [u8; 3], highlighted: [u8; 3], headline: [u8; 3]) -> Theme {
    Theme { color_text: text, color_highlighted: highlighted, color_headline: headline }
}

/// The theme a name resolves to, if the name is known.
pub open spec fn theme_of(name: Seq<char>) -> Option<Theme> {
    if name == "gb-dark"@ {
        Some(theme_colors([251, 241, 199], [254, 128, 25], [235, 219, 178]))
    } else if name == "gb-light"@ {
        Some(theme_colors([146, 131, 116], [254, 128, 25], [124, 111, 100]))
    } else if name == "monochrome-dark"@ {
        Some(theme_colors([168, 168, 168], [231, 231, 231], [154, 154, 154]))
    } else if name == "monochrome-light"@ {
        Some(theme_colors([89, 89, 89], [25, 25, 25], [77, 77, 77]))
    } else {
        None
    }
}

impl Theme {
    /// Resolves a theme name; an unknown name is an error.
    pub fn new(name: &str) -> (r: Result<Theme, ConfigError>)
        ensures
            theme_of(name@) is Some ==> r == Ok::<Theme, ConfigError>(theme_of(name@).unwrap()),
            theme_of(name@) is None ==> r == Err::<Theme, ConfigError>(ConfigError::UnknownTheme),
    {
        if str_equals(name, "gb-dark") {
            Ok(Theme {
                color_text: [251, 241, 199],
                color_highlighted: [254, 128, 25],
                color_headline: [235, 219, 178],
            })
        } else if str_equals(name, "gb-light") {
            Ok(Theme {
                color_text: [146, 131, 116],
                color_highlighted: [254, 128, 25],
                color_headline: [124, 111, 100],
            })
        } else if str_equals(name, "monochrome-dark") {
            Ok(Theme {
                color_text: [168, 168, 168],
                color_highlighted: [231, 231, 231],
                color_headline: [154, 154, 154],
            })
        } else if str_equals(name, "monochrome-light") {
            Ok(Theme {
                color_text: [89, 89, 89],
                color_highlighted: [25, 25, 25],
                color_headline: [77, 77, 77],
            })
        } else {
            Err(ConfigError::UnknownTheme)
        }
    }
}

/// Theme resolution is a pure function of the name: two resolutions of one
/// name give the same colors.
pub proof fn theme_resolution_is_pure(name: Seq<char>, first: Option<Theme>, second: Option<Theme>)
    requires
        first == theme_of(name),
        second == theme_of(name),
    ensures
        first == second,
{
}

} // verus!
