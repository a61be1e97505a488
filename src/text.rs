//! Character classes, the two segment sanitizers and ASCII case folding.

use vstd::prelude::*;
use vstd::utf8::is_ascii_chars;

verus! {

/// A char that a folder segment keeps as it is: an ASCII letter, an ASCII digit or `-`.
pub open spec fn is_path_char(c: char) -> bool {
    ||| 'a' <= c <= 'z'
    ||| 'A' <= c <= 'Z'
    ||| '0' <= c <= '9'
    ||| c == '-'
}

/// A char that a file-name segment keeps as it is: a folder char or `.`.
pub open spec fn is_file_char(c: char) -> bool {
    is_path_char(c) || c == '.'
}

/// Every char outside the folder class becomes `_`.
pub open spec fn sanitize_path(s: Seq<char>) -> Seq<char> {
    s.map_values(|c: char| if is_path_char(c) { c } else { '_' })
}

/// Every char outside the file-name class becomes `_`.
pub open spec fn sanitize_file(s: Seq<char>) -> Seq<char> {
    s.map_values(|c: char| if is_file_char(c) { c } else { '_' })
}

/// The regex pattern that matches one char outside the folder class.
pub open spec fn path_class_pattern() -> Seq<char> {
    "[^A-Za-z0-9-]"@
}

/// The regex pattern that matches one char outside the file-name class.
pub open spec fn file_class_pattern() -> Seq<char> {
    "[^A-Za-z0-9.-]"@
}

/// Relies on regex::Regex::new and regex::Regex::replace_all. Each of the two
/// patterns is a single negated character class, which compiles and matches exactly
/// one char (a Unicode scalar value) outside the class; replace_all writes the
/// replacement in place of every match and keeps the text between matches. A
/// replacement without `$` is inserted literally.
#[verifier::external_body]
fn replace_outside_class(pattern: &str, text: &str, replacement: &str) -> (r: String)
    requires
        pattern@ == path_class_pattern() || pattern@ == file_class_pattern(),
        replacement@.len() == 1,
        replacement@[0] != '$',
    ensures
        pattern@ == path_class_pattern() ==> r@ == text@.map_values(
            |c: char| if is_path_char(c) { c } else { replacement@[0] },
        ),
        pattern@ == file_class_pattern() ==> r@ == text@.map_values(
            |c: char| if is_file_char(c) { c } else { replacement@[0] },
        ),
{
    regex::Regex::new(pattern).unwrap().replace_all(text, replacement).into_owned()
}

/// Replaces every char of `value` that is not an ASCII letter, an ASCII digit or `-`
/// by `_`.
pub fn get_valid_path_name(value: String) -> (r: String)
    ensures
        r@ == sanitize_path(value@),
{
    let pattern = "[^A-Za-z0-9-]";
    let placeholder = "_";
    proof {
        reveal_strlit("[^A-Za-z0-9-]");
        reveal_strlit("_");
    }
    replace_outside_class(pattern, value.as_str(), placeholder)
}

/// Replaces every char of `value` that is not an ASCII letter, an ASCII digit, `-`
/// or `.` by `_`.
pub fn get_valid_file_path(value: String) -> (r: String)
    ensures
        r@ == sanitize_file(value@),
{
    let pattern = "[^A-Za-z0-9.-]";
    let placeholder = "_";
    proof {
        reveal_strlit("[^A-Za-z0-9.-]");
        reveal_strlit("_");
    }
    replace_outside_class(pattern, value.as_str(), placeholder)
}

/// The lower-case form of an ASCII upper-case letter; any other char unchanged.
pub open spec fn lower_char(c: char) -> char {
    if 'A' <= c <= 'Z' {
        ((c as u32) + 32) as char
    } else {
        c
    }
}

/// ASCII case folding of a whole sequence.
pub open spec fn lower_ascii(s: Seq<char>) -> Seq<char> {
    s.map_values(|c: char| lower_char(c))
}

/// Relies on str::to_lowercase: on text made of ASCII chars only, it maps each of
/// `A`..=`Z` to `a`..=`z` and keeps every other char.
#[verifier::external_body]
fn lowercase(s: &str) -> (r: String)
    ensures
        is_ascii_chars(s@) ==> r@ == lower_ascii(s@),
{
    s.to_lowercase()
}

/// A folder segment as it stands in a key: sanitized, then case-folded.
pub open spec fn path_segment(s: Seq<char>) -> Seq<char> {
    lower_ascii(sanitize_path(s))
}

/// A file-name segment as it stands in a key: sanitized, then case-folded.
pub open spec fn file_segment(s: Seq<char>) -> Seq<char> {
    lower_ascii(sanitize_file(s))
}

/// The folder segment of `value`.
pub fn path_segment_of(value: &String) -> (r: String)
    ensures
        r@ == path_segment(value@),
{
    let clean = get_valid_path_name(value.clone());
    proof {
        assert(is_ascii_chars(clean@));
    }
    lowercase(clean.as_str())
}

/// The file-name segment of `value`.
pub fn file_segment_of(value: &String) -> (r: String)
    ensures
        r@ == file_segment(value@),
{
    let clean = get_valid_file_path(value.clone());
    proof {
        assert(is_ascii_chars(clean@));
    }
    lowercase(clean.as_str())
}

/// Sanitizing a folder segment a second time changes nothing.
pub proof fn lemma_sanitize_path_idempotent(s: Seq<char>)
    ensures
        sanitize_path(sanitize_path(s)) == sanitize_path(s),
{
    assert(sanitize_path(sanitize_path(s)) =~= sanitize_path(s));
}

/// Sanitizing a file-name segment a second time changes nothing.
pub proof fn lemma_sanitize_file_idempotent(s: Seq<char>)
    ensures
        sanitize_file(sanitize_file(s)) == sanitize_file(s),
{
    assert(sanitize_file(sanitize_file(s)) =~= sanitize_file(s));
}

} // verus!
