//! Selection of the input port by a prefix of its name.

use vstd::prelude::*;

verus! {

/// Whether a character has the Unicode property White_Space.
pub open spec fn is_white_space(c: char) -> bool {
    let code = c as u32;
    ||| 0x09 <= code <= 0x0D
    ||| code == 0x20
    ||| code == 0x85
    ||| code == 0xA0
    ||| code == 0x1680
    ||| 0x2000 <= code <= 0x200A
    ||| code == 0x2028
    ||| code == 0x2029
    ||| code == 0x202F
    ||| code == 0x205F
    ||| code == 0x3000
}

/// A text without its leading and trailing white space.
pub open spec fn trimmed(s: Seq<char>) -> Seq<char>
    decreases s.len(),
{
    if s.len() == 0 {
        s
    } else if is_white_space(s.first()) {
        trimmed(s.drop_first())
    } else if is_white_space(s.last()) {
        trimmed(s.drop_last())
    } else {
        s
    }
}

/// Whether a text begins with another.
pub open spec fn has_prefix(s: Seq<char>, prefix: Seq<char>) -> bool {
    prefix.len() <= s.len() && s.take(prefix.len() as int) == prefix
}

/// Whether a port of that name is selected by the prefix: the name begins
/// with the prefix, once white space around the prefix is dropped.
pub open spec fn port_matches(name: Seq<char>, prefix: Seq<char>) -> bool {
    has_prefix(name, trimmed(prefix))
}

/// Calls `str::trim`.
///
/// Trusted: the result is the text without its leading and trailing white
/// space, white space being the characters with the property White_Space.
#[verifier::external_body]
fn trim(s: &str) -> (r: &str)
    ensures
        r@ == trimmed(s@),
{
    s.trim()
}

/// Calls `str::starts_with` with a text as the pattern.
///
/// Trusted: the result says whether the pattern is a prefix of the text.
#[verifier::external_body]
fn starts_with(s: &str, prefix: &str) -> (r: bool)
    ensures
        r == has_prefix(s@, prefix@),
{
    s.starts_with(prefix)
}

/// Picks the first port whose name the prefix selects, by its index.
pub fn select_port(names: &Vec<String>, port_name_prefix: &str) -> (r: Option<usize>)
    ensures
        match r {
            Some(i) => i < names.len() && port_matches(names[i as int]@, port_name_prefix@)
                && forall|j: int| 0 <= j < i ==> !port_matches(#[trigger] names[j]@, port_name_prefix@),
            None => forall|j: int|
                0 <= j < names.len() ==> !port_matches(#[trigger] names[j]@, port_name_prefix@),
        },
{
    let prefix = trim(port_name_prefix);
    let mut i: usize = 0;
    while i < names.len()
        invariant
            i <= names.len(),
            prefix@ == trimmed(port_name_prefix@),
            forall|j: int| 0 <= j < i ==> !port_matches(#[trigger] names[j]@, port_name_prefix@),
        decreases names.len() - i,
    {
        if starts_with(names[i].as_str(), prefix) {
            return Some(i);
        }
        i = i + 1;
    }
    None
}

} // verus!
