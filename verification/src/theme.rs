//! The colour theme that follows the desktop's colour-scheme preference.
use vstd::prelude::*;
use vstd::string::StringExecFns;

verus! {

#[derive(Clone, Copy, PartialEq, Eq, Debug)]
pub enum ThemeChoice {
    GruvboxLight,
    GruvboxDark,
    /// The toolkit's default theme.
    Default,
}

pub open spec fn theme_for(color_scheme: Seq<char>) -> ThemeChoice {
    if color_scheme == "prefer-light"@ || color_scheme == "default"@ {
        ThemeChoice::GruvboxLight
    } else if color_scheme == "prefer-dark"@ {
        ThemeChoice::GruvboxDark
    } else {
        ThemeChoice::Default
    }
}

/// The theme for the desktop's `color-scheme` setting.
pub fn get(color_scheme: &str) -> (r: ThemeChoice)
    ensures
        r == theme_for(color_scheme@),
{
    let scheme = String::from_str(color_scheme);
    if scheme == String::from_str("prefer-light") || scheme == String::from_str("default") {
        ThemeChoice::GruvboxLight
    } else if scheme == String::from_str("prefer-dark") {
        ThemeChoice::GruvboxDark
    } else {
        ThemeChoice::Default
    }
}

} // verus!
