//! User settings: the values a configuration file and `WHYCANT_*`
//! variables may set, each absent unless given, and the interactive
//! tristate's spellings.

use vstd::prelude::*;
use crate::cli::{ColorMode, Format};
use crate::text::{append_str, ascii_lower, lemma_ascii_lower_idempotent, lit, to_ascii_lower};

verus! {

/// The interactive setting: on, off, or decided by whether a terminal is
/// attached.
#[derive(Clone, Copy, PartialEq, Eq, Debug, Structural)]
pub enum Tristate {
    On,
    Off,
    Auto,
}

/// A spelling the interactive setting does not accept, lowercased.
#[derive(PartialEq, Eq, Debug)]
pub struct TristateError {
    pub value: String,
}

pub open spec fn tristate_error_text(value: Seq<char>) -> Seq<char> {
    "invalid interactive value: "@ + value
}

impl TristateError {
    pub fn message(&self) -> (r: String)
        ensures
            r@ == tristate_error_text(self.value@),
    {
        let mut s = lit("invalid interactive value: ");
        append_str(&mut s, self.value.as_str());
        s
    }
}

/// What a textual value means, compared without regard to ASCII case.
pub open spec fn tristate_word(s: Seq<char>) -> Option<Tristate> {
    let l = ascii_lower(s);
    if l == "on"@ || l == "1"@ || l == "true"@ || l == "yes"@ {
        Some(Tristate::On)
    } else if l == "off"@ || l == "0"@ || l == "false"@ || l == "no"@ {
        Some(Tristate::Off)
    } else if l == "auto"@ {
        Some(Tristate::Auto)
    } else {
        None
    }
}

impl Tristate {
    /// A boolean value: `true` is on, `false` off.
    pub fn from_bool(v: bool) -> (r: Tristate)
        ensures
            r == (if v {
                Tristate::On
            } else {
                Tristate::Off
            }),
    {
        if v {
            Tristate::On
        } else {
            Tristate::Off
        }
    }

    /// A signed integer value: nonzero is on, zero off.
    pub fn from_int(v: i64) -> (r: Tristate)
        ensures
            r == (if v != 0 {
                Tristate::On
            } else {
                Tristate::Off
            }),
    {
        if v != 0 {
            Tristate::On
        } else {
            Tristate::Off
        }
    }

    /// An unsigned integer value: nonzero is on, zero off.
    pub fn from_uint(v: u64) -> (r: Tristate)
        ensures
            r == (if v != 0 {
                Tristate::On
            } else {
                Tristate::Off
            }),
    {
        if v != 0 {
            Tristate::On
        } else {
            Tristate::Off
        }
    }

    /// A textual value: `on`, `1`, `true`, `yes`; `off`, `0`, `false`,
    /// `no`; or `auto`, in any ASCII case. Anything else is refused, with
    /// the value lowercased.
    pub fn from_text(s: &str) -> (r: Result<Tristate, TristateError>)
        ensures
            r matches Ok(t) ==> tristate_word(s@) == Some(t),
            r matches Err(e) ==> tristate_word(s@) is None && e.value@ == ascii_lower(s@),
    {
        let l = to_ascii_lower(s);
        if l == lit("on") || l == lit("1") || l == lit("true") || l == lit("yes") {
            Ok(Tristate::On)
        } else if l == lit("off") || l == lit("0") || l == lit("false") || l == lit("no") {
            Ok(Tristate::Off)
        } else if l == lit("auto") {
            Ok(Tristate::Auto)
        } else {
            Err(TristateError { value: l })
        }
    }
}

/// Interactive values ignore ASCII case: a value means what its lowercase
/// form means.
pub proof fn tristate_case_law(s: Seq<char>)
    ensures
        tristate_word(ascii_lower(s)) == tristate_word(s),
{
    lemma_ascii_lower_idempotent(s);
}

/// Settings from the configuration file and environment; each is `None`
/// unless set.
#[derive(Clone, Copy, PartialEq, Eq, Debug, Structural)]
pub struct Settings {
    pub color: Option<ColorMode>,
    pub format: Option<Format>,
    pub interactive: Option<Tristate>,
    pub print_fixes: Option<bool>,
    pub ascii: Option<bool>,
    pub all: Option<bool>,
}

impl Default for Settings {
    fn default() -> (r: Settings)
        ensures
            r == (Settings {
                color: None,
                format: None,
                interactive: None,
                print_fixes: None,
                ascii: None,
                all: None,
            }),
    {
        Settings {
            color: None,
            format: None,
            interactive: None,
            print_fixes: None,
            ascii: None,
            all: None,
        }
    }
}

} // verus!
