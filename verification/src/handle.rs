//! The ways in which a program can have its connections handled, and their
//! names.

use vstd::prelude::*;
use vstd::string::StringExecFns;
use crate::text::{lowercase, same, to_lowercase, trim, trimmed};

verus! {

/// How connections are handled.
#[derive(Clone, Copy, Debug, PartialEq, Eq, Structural)]
pub enum HandleMethod {
    /// By the server's own pool of workers.
    Default,
    /// By the pool of another crate.
    Crate,
    /// One after the other, each on the thread that accepted it.
    Blocked,
}

/// The way that goes by `name`, if one does. The empty name stands for the
/// default.
pub open spec fn method_named(name: Seq<char>) -> Option<HandleMethod> {
    if name == ""@ || name == "def"@ || name == "default"@ {
        Some(HandleMethod::Default)
    } else if name == "crate"@ || name == "lib"@ {
        Some(HandleMethod::Crate)
    } else if name == "block"@ || name == "blocked"@ {
        Some(HandleMethod::Blocked)
    } else {
        None
    }
}

/// What is said of a text that names no way.
pub open spec fn parse_error(text: Seq<char>) -> Seq<char> {
    "string cannot be parsed to HandleMethod: "@ + text
}

impl HandleMethod {
    /// The way that goes by `name`, if one does.
    pub fn named(name: &str) -> (method: Option<HandleMethod>)
        ensures
            method == method_named(name@),
    {
        if same(name, "") || same(name, "def") || same(name, "default") {
            Some(HandleMethod::Default)
        } else if same(name, "crate") || same(name, "lib") {
            Some(HandleMethod::Crate)
        } else if same(name, "block") || same(name, "blocked") {
            Some(HandleMethod::Blocked)
        } else {
            None
        }
    }

    /// The way that `text` names, the case of letters and the white space
    /// around the name set aside; or what is said of a text that names none.
    pub fn from_str(text: &str) -> (r: Result<HandleMethod, String>)
        ensures
            match r {
                Ok(method) => method_named(trimmed(lowercase(text@))) == Some(method),
                Err(e) => method_named(trimmed(lowercase(text@))).is_none() && e@ == parse_error(
                    text@,
                ),
            },
    {
        let lowered = to_lowercase(text);
        match HandleMethod::named(trim(lowered.as_str())) {
            Some(method) => Ok(method),
            None => {
                let mut e = String::from_str("string cannot be parsed to HandleMethod: ");
                e.append(text);
                Err(e)
            },
        }
    }
}

} // verus!
