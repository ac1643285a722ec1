//! Bar orientation and its textual form.
//!
//! A configuration file names the orientation of a bar or widget as a
//! string; it is accepted case-insensitively (ASCII case folding) as
//! `horizontal`/`h` or `vertical`/`v`. Any other value is a configuration
//! error.

use vstd::prelude::*;

verus! {

#[derive(Clone, Copy, Debug, PartialEq, Eq, Structural)]
pub enum Orientation {
    Horizontal,
    Vertical,
}

/// True when `a` is `b` up to ASCII case, position by position, where `b`
/// is already a lowercase ASCII letter sequence: at each position the
/// characters are equal, or `a` holds the uppercase form of `b`'s letter.
pub open spec fn chars_eq_ci(a: Seq<char>, b: Seq<char>) -> bool {
    &&& a.len() == b.len()
    &&& forall|i: int|
        0 <= i < b.len() ==> (a[i] == b[i] || ('a' <= b[i] <= 'z' && a[i] as int == b[i] as int
            - 32))
}

/// The orientation a configuration string denotes, if any.
pub open spec fn spec_orientation_of(s: Seq<char>) -> Option<Orientation> {
    if chars_eq_ci(s, "horizontal"@) || chars_eq_ci(s, "h"@) {
        Some(Orientation::Horizontal)
    } else if chars_eq_ci(s, "vertical"@) || chars_eq_ci(s, "v"@) {
        Some(Orientation::Vertical)
    } else {
        None
    }
}

/// Compares `s` against a lowercase ASCII pattern `pat`, ignoring the
/// ASCII case of `s`.
fn eq_ignore_ascii_case(s: &str, pat: &str) -> (r: bool)
    requires
        forall|i: int| 0 <= i < pat@.len() ==> 'a' <= #[trigger] pat@[i] <= 'z',
    ensures
        r == chars_eq_ci(s@, pat@),
{
    let n = s.unicode_len();
    let m = pat.unicode_len();
    if n != m {
        return false;
    }
    let mut i: usize = 0;
    while i < m
        invariant
            0 <= i <= m,
            m == pat@.len(),
            n == s@.len(),
            n == m,
            forall|j: int| 0 <= j < pat@.len() ==> 'a' <= #[trigger] pat@[j] <= 'z',
            forall|j: int|
                0 <= j < i ==> (s@[j] == pat@[j] || ('a' <= pat@[j] <= 'z' && s@[j] as int
                    == pat@[j] as int - 32)),
        decreases m - i,
    {
        let c = s.get_char(i);
        let p = pat.get_char(i);
        if !(c == p || (c as u32 == p as u32 - 32)) {
            return false;
        }
        i += 1;
    }
    true
}

/// Parses an `Orientation` from a string, accepting `horizontal`,
/// `vertical`, `h` or `v` in any ASCII case; every other string is
/// rejected.
pub fn try_get_orientation(orientation: &str) -> (r: Result<Orientation, ConfigError>)
    ensures
        r matches Ok(o) ==> spec_orientation_of(orientation@) == Some(o),
        r is Err <==> spec_orientation_of(orientation@) is None,
        r matches Err(e) ==> e == ConfigError::InvalidOrientation,
{
    proof {
        reveal_strlit("horizontal");
        reveal_strlit("h");
        reveal_strlit("vertical");
        reveal_strlit("v");
    }
    if eq_ignore_ascii_case(orientation, "horizontal") || eq_ignore_ascii_case(orientation, "h") {
        Ok(Orientation::Horizontal)
    } else if eq_ignore_ascii_case(orientation, "vertical") || eq_ignore_ascii_case(
        orientation,
        "v",
    ) {
        Ok(Orientation::Vertical)
    } else {
        Err(ConfigError::InvalidOrientation)
    }
}

/// A configuration value that cannot be used; fatal for the node that
/// carries it only, never for its siblings.
#[derive(Clone, Copy, Debug, PartialEq, Eq, Structural)]
pub enum ConfigError {
    InvalidOrientation,
}

} // verus!
