//! Password generation from a pattern, done by the `pants_gen` crate.

use vstd::prelude::*;
use vstd::string::StrSliceExecFns;
use vstd::utf8::is_ascii_chars;

verus! {

/// `pants_gen::password::PasswordSpec`, a parsed pattern. It is only carried
/// from the parser to the generator; nothing is known of what it holds.
#[verifier::external_type_specification]
#[verifier::external_body]
pub struct ExPasswordSpec(pants_gen::password::PasswordSpec);

/// A pattern that the parser can be given: its text is ASCII, or no colon
/// occurs in it. The parser takes a set of characters that begins with a
/// colon for a named set and then looks at its last character by the text's
/// length in bytes, which goes past the end where a character takes more
/// than one byte.
pub open spec fn parseable(text: Seq<char>) -> bool {
    is_ascii_chars(text) || !text.contains(':')
}

/// `<pants_gen::password::PasswordSpec as FromStr>::from_str`, reached through
/// `str::parse`, with a parse error turned into `None`. Nothing is claimed of
/// the pattern that comes back.
#[verifier::external_body]
fn parse_spec(text: &str) -> (r: Option<pants_gen::password::PasswordSpec>)
    requires
        parseable(text@),
{
    match text.parse::<pants_gen::password::PasswordSpec>() {
        Ok(spec) => Some(spec),
        Err(_) => None,
    }
}

/// `pants_gen::password::PasswordSpec::generate`. The password is drawn at
/// random, so nothing is claimed of it; `None` comes back where the pattern
/// cannot be met. The generator builds the whole password in memory, however
/// long the pattern asks it to be.
#[verifier::external_body]
fn generate_from(spec: &pants_gen::password::PasswordSpec) -> (r: Option<String>) {
    spec.generate()
}

/// Whether a colon occurs in `text`.
pub fn mentions_colon(text: &str) -> (r: bool)
    ensures
        r == text@.contains(':'),
{
    let n: usize = text.unicode_len();
    let mut i: usize = 0;
    while i < n
        invariant
            n == text@.len(),
            i <= n,
            forall|j: int| 0 <= j < i ==> text@[j] != ':',
        decreases n - i,
    {
        if text.get_char(i) == ':' {
            return true;
        }
        i += 1;
    }
    false
}

/// A fresh password that follows the pattern `text`, or `None` where the
/// pattern cannot be given to the parser, does not parse or cannot be met.
pub fn generate(text: &str) -> (r: Option<String>)
    ensures
        !parseable(text@) ==> r.is_none(),
{
    if !text.is_ascii() && mentions_colon(text) {
        return None;
    }
    match parse_spec(text) {
        Some(spec) => generate_from(&spec),
        None => None,
    }
}

} // verus!
