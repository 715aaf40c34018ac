use vstd::prelude::*;

use crate::error::MyError;

verus! {

/// What `{:?}` writes for a string of characters: the string in double
/// quotes, with the characters that need it escaped.
pub uninterp spec fn str_debug_text(s: Seq<char>) -> Seq<char>;

/// A character that `{:?}` on a string writes as it is: printable ASCII other
/// than a quote mark or a backslash.
pub open spec fn is_plain_char(c: char) -> bool {
    &&& ' ' <= c <= '~'
    &&& c != '"'
    &&& c != '\''
    &&& c != '\\'
}

/// Text made of plain characters only.
pub open spec fn is_plain_text(s: Seq<char>) -> bool {
    forall|i: int| 0 <= i < s.len() ==> is_plain_char(#[trigger] s[i])
}

/// Writes `s` with `{:?}`, std's `Debug` for `str`.
///
/// Trusted: the result is what `Debug for str` writes, a function of the
/// characters alone; where every character is printable ASCII other than a
/// quote mark or a backslash, std's documentation of `char::escape_debug`
/// leaves each character as it is, so the result is `s` between double quotes.
#[verifier::external_body]
fn debug_text(s: &str) -> (r: String)
    ensures
        r@ == str_debug_text(s@),
        is_plain_text(s@) ==> r@ == seq!['"'] + s@ + seq!['"'],
{
    format!("{:?}", s)
}

/// The context given to a file that could not be opened, around the file's
/// name as `{:?}` wrote it: `filename: `, the quoted name, `, not found`.
pub fn frame_context(quoted: &str) -> (r: String)
    ensures
        r@ == "filename: "@ + quoted@ + ", not found"@,
{
    let mut r = String::from_str("filename: ");
    r.append(quoted);
    r.append(", not found");
    r
}

/// The context given to the file `filename` when it cannot be opened.
pub fn context_message(filename: &str) -> (r: String)
    ensures
        r@ == "filename: "@ + str_debug_text(filename@) + ", not found"@,
        is_plain_text(filename@) ==> r@ == "filename: "@ + (seq!['"'] + filename@ + seq!['"'])
            + ", not found"@,
{
    let quoted = debug_text(filename);
    frame_context(quoted.as_str())
}

/// The text of the error that `fail_with_error` returns.
pub open spec fn custom_failure_text() -> Seq<char> {
    "This is a custom error"@
}

/// Always fails, with a custom error that says so.
pub fn fail_with_error() -> (r: Result<(), MyError>)
    ensures
        r matches Err(MyError::Custom(s)) && s@ == custom_failure_text(),
{
    Err(MyError::Custom(String::from_str("This is a custom error")))
}

} // verus!
