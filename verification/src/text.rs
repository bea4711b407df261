//! Small operations on text: the exit command and the capital letter of a
//! speaker's name.

use vstd::prelude::*;
use vstd::string::*;

verus! {

/// What `str::trim` leaves of a text: the text without the white space at
/// its two ends, white space as Unicode defines it.
pub uninterp spec fn trimmed(s: Seq<char>) -> Seq<char>;

/// What `str::to_lowercase` makes of a text: its lower-case form by
/// Unicode's rules.
pub uninterp spec fn lowercased(s: Seq<char>) -> Seq<char>;

/// Calls `str::trim`. Trusted: the result is named `trimmed`, a function of
/// the characters alone.
#[verifier::external_body]
fn trim<'a>(s: &'a str) -> (r: &'a str)
    ensures
        r@ == trimmed(s@),
{
    s.trim()
}

/// Calls `str::to_lowercase`. Trusted: the result is named `lowercased`, a
/// function of the characters alone.
#[verifier::external_body]
fn to_lowercase(s: &str) -> (r: String)
    ensures
        r@ == lowercased(s@),
{
    s.to_lowercase()
}

/// Calls `String::push`. Trusted: the character is added at the end and
/// nothing else changes.
#[verifier::external_body]
fn push_char(s: &mut String, c: char)
    ensures
        final(s)@ == old(s)@.push(c),
{
    s.push(c)
}

/// Whether a normalised word is the exit command.
pub fn is_exit_word(word: &str) -> (r: bool)
    ensures
        r == (word@ == "exit"@),
{
    let given = String::from_str(word);
    let wanted = String::from_str("exit");
    given == wanted
}

/// Whether a line typed by the user asks to end the conversation: the word
/// `exit`, in any case, with any white space around it.
pub fn is_exit_command(line: &str) -> (r: bool)
    ensures
        r == (lowercased(trimmed(line@)) == "exit"@),
{
    let stripped = trim(line);
    let lowered = to_lowercase(stripped);
    is_exit_word(lowered.as_str())
}

/// The upper-case form of an ASCII lower-case letter; any other character
/// is left as it is.
pub open spec fn upper_ascii(c: char) -> char {
    if 'a' <= c && c <= 'z' {
        ((c as u8) - 32) as u8 as char
    } else {
        c
    }
}

/// A text with its first character in upper case.
pub open spec fn capitalized(s: Seq<char>) -> Seq<char> {
    if s.len() == 0 {
        s
    } else {
        seq![upper_ascii(s[0])] + s.subrange(1, s.len() as int)
    }
}

/// The upper-case form of an ASCII lower-case letter.
pub fn to_upper_ascii(c: char) -> (r: char)
    ensures
        r == upper_ascii(c),
{
    if 'a' <= c && c <= 'z' {
        let code: u8 = c as u8;
        (code - 32) as char
    } else {
        c
    }
}

/// Puts the first character of a text in upper case, as in a speaker's
/// name before a line of dialogue.
pub fn capitalize_first_letter(s: &str) -> (r: String)
    ensures
        r@ == capitalized(s@),
{
    let n: usize = s.unicode_len();
    let mut out = String::new();
    if n == 0 {
        assert(s@ =~= Seq::<char>::empty());
        return out;
    }
    let first = to_upper_ascii(s.get_char(0));
    push_char(&mut out, first);
    out.append(s.substring_char(1, n));
    assert(out@ =~= capitalized(s@));
    out
}

} // verus!
