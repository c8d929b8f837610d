//! Reading the list of windows that exist when the bridge starts.
//!
//! The window directory lists its windows by name, and the name of a window
//! is its id written as a number, usually in hexadecimal with a `0x` prefix.

use vstd::prelude::*;
use vstd::string::StrSliceExecFns;

verus! {

/// The number that `parse_int::parse::<u32>` reads from a text, or `None`
/// where it reports an error. It skips surrounding white space, takes the
/// prefixes `0x`, `0o` and `0b` in either case for the base, and leaves out
/// underscores among the digits.
pub uninterp spec fn parsed_window_id(name: Seq<char>) -> Option<u32>;

/// Calls `parse_int::parse::<u32>` and drops the error's details. A text
/// with a minus sign is left out: for an unsigned type the outside function
/// negates by an overflowing multiplication.
#[verifier::external_body]
fn parse_window_id(name: &str) -> (id: Option<u32>)
    requires
        !name@.contains('-'),
    ensures
        id == parsed_window_id(name@),
{
    parse_int::parse::<u32>(name).ok()
}

/// The window id that a name of the window directory stands for: none where
/// the name holds a minus sign, else what the parser reads.
pub open spec fn listed_window(name: Seq<char>) -> Option<u32> {
    if name.contains('-') {
        None
    } else {
        parsed_window_id(name)
    }
}

/// Whether a text holds a minus sign. Names are a dozen characters at most,
/// so the characters are simply looked at one by one.
fn has_minus(name: &str) -> (found: bool)
    ensures
        found == name@.contains('-'),
{
    let n = name.unicode_len();
    let mut i: usize = 0;
    while i < n
        invariant
            n == name@.len(),
            i <= n,
            forall|j: int| 0 <= j < i ==> name@[j] != '-',
        decreases n - i,
    {
        if name.get_char(i) == '-' {
            return true;
        }
        i += 1;
    }
    false
}

/// Reads the id of a window from its name in the window directory.
pub fn initial_window(name: &str) -> (id: Option<u32>)
    ensures
        id == listed_window(name@),
{
    if has_minus(name) {
        None
    } else {
        parse_window_id(name)
    }
}

} // verus!
