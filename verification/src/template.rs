//! Which templates are handed to the template engine.
//!
//! A template is plain if it is text with variables in it: every tag is of
//! the form `{{ name.name }}`, one name or several joined by dots, with
//! white space around it at most. Such a template is expanded by looking
//! the variables up, and by nothing else. Any other template (one with a
//! filter, a condition, a loop, a number or a string in a tag) is not
//! handed on, since the engine does not return on every such template.

use vstd::prelude::*;
use vstd::string::StringSliceAdditionalSpecFns;

verus! {

/// Where in a template the scan is.
#[derive(Clone, Copy, Debug, PartialEq, Eq, Structural)]
pub enum Scan {
    /// In text, outside every tag.
    Text,
    /// Behind `{{`, before the name.
    Open,
    /// In a name.
    Name,
    /// Behind a dot in a name.
    Dot,
    /// Behind the name, before `}}`.
    Close,
}

pub open spec fn is_white(c: u8) -> bool {
    c == 32 || c == 9 || c == 13 || c == 10
}

/// A letter or an underscore.
pub open spec fn is_name_start(c: u8) -> bool {
    (65 <= c <= 90) || (97 <= c <= 122) || c == 95
}

/// A letter, a digit or an underscore.
pub open spec fn is_name_char(c: u8) -> bool {
    is_name_start(c) || (48 <= c <= 57)
}

/// The byte behind a `{` that opens a tag: `{`, `%` or `#`.
pub open spec fn is_opener(c: u8) -> bool {
    c == 123 || c == 37 || c == 35
}

/// Whether `}}` stands at position `i`.
pub open spec fn closes_at(bytes: Seq<u8>, i: int) -> bool {
    i + 1 < bytes.len() && bytes[i] == 125 && bytes[i + 1] == 125
}

/// Whether the bytes from position `i` on, read in the given mode, are the
/// rest of a plain template.
pub open spec fn plain_from(bytes: Seq<u8>, i: int, mode: Scan) -> bool
    decreases bytes.len() - i,
{
    if i < 0 {
        false
    } else if i >= bytes.len() {
        mode == Scan::Text
    } else {
        let c = bytes[i];
        match mode {
            Scan::Text => if c == 123 && i + 1 < bytes.len() && is_opener(bytes[i + 1]) {
                bytes[i + 1] == 123 && plain_from(bytes, i + 2, Scan::Open)
            } else {
                plain_from(bytes, i + 1, Scan::Text)
            },
            Scan::Open => if is_white(c) {
                plain_from(bytes, i + 1, Scan::Open)
            } else {
                is_name_start(c) && plain_from(bytes, i + 1, Scan::Name)
            },
            Scan::Name => if is_name_char(c) {
                plain_from(bytes, i + 1, Scan::Name)
            } else if c == 46 {
                plain_from(bytes, i + 1, Scan::Dot)
            } else if is_white(c) {
                plain_from(bytes, i + 1, Scan::Close)
            } else {
                closes_at(bytes, i) && plain_from(bytes, i + 2, Scan::Text)
            },
            Scan::Dot => is_name_char(c) && plain_from(bytes, i + 1, Scan::Name),
            Scan::Close => if is_white(c) {
                plain_from(bytes, i + 1, Scan::Close)
            } else {
                closes_at(bytes, i) && plain_from(bytes, i + 2, Scan::Text)
            },
        }
    }
}

/// Whether the bytes are a plain template.
pub open spec fn plain_bytes(bytes: Seq<u8>) -> bool {
    plain_from(bytes, 0, Scan::Text)
}

/// Whether the text, as UTF-8, is a plain template.
pub open spec fn plain_template(text: Seq<char>) -> bool {
    plain_bytes(vstd::utf8::encode_utf8(text))
}

fn white(c: u8) -> (r: bool)
    ensures
        r == is_white(c),
{
    c == 32 || c == 9 || c == 13 || c == 10
}

fn name_start(c: u8) -> (r: bool)
    ensures
        r == is_name_start(c),
{
    (65 <= c && c <= 90) || (97 <= c && c <= 122) || c == 95
}

fn name_char(c: u8) -> (r: bool)
    ensures
        r == is_name_char(c),
{
    name_start(c) || (48 <= c && c <= 57)
}

/// Whether the template is plain.
pub fn is_plain_template(template: &str) -> (r: bool)
    ensures
        r == plain_template(template@),
{
    let bytes = template.as_bytes();
    let n = bytes.len();
    let mut i: usize = 0;
    let mut mode = Scan::Text;
    while i < n
        invariant
            n == bytes@.len(),
            i <= n,
            bytes@ == vstd::utf8::encode_utf8(template@),
            plain_from(bytes@, i as int, mode) == plain_bytes(bytes@),
        decreases n - i,
    {
        let c = bytes[i];
        let closes = c == 125 && i + 1 < n && bytes[i + 1] == 125;
        match mode {
            Scan::Text => {
                if c == 123 && i + 1 < n && (bytes[i + 1] == 123 || bytes[i + 1] == 37
                    || bytes[i + 1] == 35) {
                    if bytes[i + 1] != 123 {
                        return false;
                    }
                    i = i + 2;
                    mode = Scan::Open;
                } else {
                    i = i + 1;
                }
            },
            Scan::Open => {
                if white(c) {
                    i = i + 1;
                } else if name_start(c) {
                    i = i + 1;
                    mode = Scan::Name;
                } else {
                    return false;
                }
            },
            Scan::Name => {
                if name_char(c) {
                    i = i + 1;
                } else if c == 46 {
                    i = i + 1;
                    mode = Scan::Dot;
                } else if white(c) {
                    i = i + 1;
                    mode = Scan::Close;
                } else if closes {
                    i = i + 2;
                    mode = Scan::Text;
                } else {
                    return false;
                }
            },
            Scan::Dot => {
                if name_char(c) {
                    i = i + 1;
                    mode = Scan::Name;
                } else {
                    return false;
                }
            },
            Scan::Close => {
                if white(c) {
                    i = i + 1;
                } else if closes {
                    i = i + 2;
                    mode = Scan::Text;
                } else {
                    return false;
                }
            },
        }
    }
    mode == Scan::Text
}

} // verus!
