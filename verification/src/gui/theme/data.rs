//! The themes that come with the application.

use crate::json::text_eq;
use vstd::prelude::*;
use vstd::string::StringExecFns;

verus! {

/// What has a dark and a light form.
pub trait DefaultThemes: Sized {
    fn dark() -> Self;

    fn light() -> Self;
}

/// A theme as the settings name it.
#[derive(Debug, Clone)]
pub struct ThemeData {
    pub id: String,
    pub name: String,
}

/// The id of the dark theme.
pub open spec fn dark_id() -> Seq<char> {
    "strife.dark"@
}

/// The id of the light theme.
pub open spec fn light_id() -> Seq<char> {
    "strife.light"@
}

impl DefaultThemes for ThemeData {
    fn dark() -> (theme: ThemeData)
        ensures
            theme.id@ == dark_id(),
            theme.name@ == "Default Dark"@,
    {
        ThemeData { id: String::from_str("strife.dark"), name: String::from_str("Default Dark") }
    }

    fn light() -> (theme: ThemeData)
        ensures
            theme.id@ == light_id(),
            theme.name@ == "Default Light"@,
    {
        ThemeData { id: String::from_str("strife.light"), name: String::from_str("Default Light") }
    }
}

impl Default for ThemeData {
    fn default() -> (theme: ThemeData)
        ensures
            theme.id@ == dark_id(),
            theme.name@ == "Default Dark"@,
    {
        ThemeData::dark()
    }
}

impl ThemeData {
    /// The theme that the settings mean by `id`: the light one for its id, and the
    /// dark one for its own id and for every id that is not known.
    pub fn by_id(id: &str) -> (theme: ThemeData)
        ensures
            theme.id@ == if id@ == light_id() {
                light_id()
            } else {
                dark_id()
            },
            theme.name@ == if id@ == light_id() {
                "Default Light"@
            } else {
                "Default Dark"@
            },
    {
        if text_eq(id, "strife.light") {
            ThemeData::light()
        } else {
            ThemeData::dark()
        }
    }
}

} // verus!
