//! What a channel name, an Instant View hash, a feed link and a link substitution must look like.

use crate::text;
use vstd::prelude::*;

verus! {

/// The pattern of channel names.
pub const USERNAME_PATTERN: &'static str = "^@([a-zA-Z][a-zA-Z0-9_]+)$";

/// The pattern of Instant View hashes.
pub const IV_HASH_PATTERN: &'static str = "^[a-f0-9]{14}$";

/// An ASCII letter.
pub open spec fn letter(c: char) -> bool {
    ('a' <= c <= 'z') || ('A' <= c <= 'Z')
}

/// An ASCII letter, a decimal digit or an underscore.
pub open spec fn name_char(c: char) -> bool {
    letter(c) || ('0' <= c <= '9') || c == '_'
}

/// A lower case hexadecimal digit.
pub open spec fn hex_digit(c: char) -> bool {
    ('a' <= c <= 'f') || ('0' <= c <= '9')
}

/// A channel name: `@`, a letter, and then letters, digits and underscores, at least one of them.
pub open spec fn is_username(s: Seq<char>) -> bool {
    &&& s.len() >= 3
    &&& s[0] == '@'
    &&& letter(s[1])
    &&& forall|i: int| 2 <= i < s.len() ==> name_char(#[trigger] s[i])
}

/// An Instant View hash: fourteen lower case hexadecimal digits.
pub open spec fn is_iv_hash(s: Seq<char>) -> bool {
    &&& s.len() == 14
    &&& forall|i: int| 0 <= i < s.len() ==> hex_digit(#[trigger] s[i])
}

/// `regex::Regex::new` and `is_match` on one of the two patterns above. Both patterns compile, and
/// both are anchored at either end of the text, so that a match is a match of the whole text: the
/// contract spells out which texts those are.
#[verifier::external_body]
fn regex_match(pattern: &str, text: &str) -> (found: bool)
    requires
        pattern@ == USERNAME_PATTERN@ || pattern@ == IV_HASH_PATTERN@,
    ensures
        pattern@ == USERNAME_PATTERN@ ==> found == is_username(text@),
        pattern@ == IV_HASH_PATTERN@ ==> found == is_iv_hash(text@),
{
    regex::Regex::new(pattern).unwrap().is_match(text)
}

/// See [`is_username`].
pub fn username_matches(text: &str) -> (r: bool)
    ensures
        r == is_username(text@),
{
    regex_match(USERNAME_PATTERN, text)
}

/// See [`is_iv_hash`].
pub fn iv_hash_matches(text: &str) -> (r: bool)
    ensures
        r == is_iv_hash(text@),
{
    regex_match(IV_HASH_PATTERN, text)
}

/// The scheme of an absolute URL in lower case, or why the text is no absolute URL.
pub uninterp spec fn url_scheme(text: Seq<char>) -> Result<Seq<char>, Seq<char>>;

/// `url::Url::parse` and `scheme`. The contract claims only that the scheme, or the wording of the
/// error, depends on the text alone.
#[verifier::external_body]
pub(crate) fn parse_scheme(text: &str) -> (r: Result<String, String>)
    ensures
        text::text_outcome(r) == url_scheme(text@),
{
    match url::Url::parse(text) {
        Ok(parsed) => Ok(parsed.scheme().to_string()),
        Err(e) => Err(e.to_string()),
    }
}

/// Why a text is no substitution command such as `s/this/that/g`, or nothing where it is one.
pub uninterp spec fn substitution_refusal(command: Seq<char>) -> Option<Seq<char>>;

/// What a substitution command makes of a text.
pub uninterp spec fn substituted(command: Seq<char>, text: Seq<char>) -> Seq<char>;

/// `sedregex::ReplaceCommand::new`. The contract claims only that whether the command is accepted,
/// and the wording of the error where it is not, depends on the command alone.
#[verifier::external_body]
pub(crate) fn check_substitution(command: &str) -> (refusal: Option<String>)
    ensures
        text::opt_text(refusal) == substitution_refusal(command@),
{
    sedregex::ReplaceCommand::new(command).err().map(|e| e.to_string())
}

/// `sedregex::ReplaceCommand::execute` on a command that is accepted. The contract claims only that
/// the result depends on the command and the text alone.
#[verifier::external_body]
fn run_substitution(command: &str, text: &str) -> (r: String)
    requires
        substitution_refusal(command@) is None,
    ensures
        r@ == substituted(command@, text@),
{
    sedregex::ReplaceCommand::new(command).unwrap().execute(text).into_owned()
}

/// What an optional substitution command makes of a text, or why the command is refused.
pub open spec fn rewritten(command: Option<Seq<char>>, text: Seq<char>) -> Result<
    Seq<char>,
    Seq<char>,
> {
    match command {
        None => Ok(text),
        Some(c) => match substitution_refusal(c) {
            Some(refusal) => Err(refusal),
            None => Ok(substituted(c, text)),
        },
    }
}

/// Applies an optional substitution command to a text: see [`rewritten`].
pub fn rewrite(command: &Option<String>, text: &str) -> (r: Result<String, String>)
    ensures
        text::text_outcome(r) == rewritten(text::opt_text(*command), text@),
{
    match command {
        None => Ok(text.to_owned()),
        Some(c) => match check_substitution(c.as_str()) {
            Some(refusal) => Err(refusal),
            None => Ok(run_substitution(c.as_str(), text)),
        },
    }
}

} // verus!
