use vstd::prelude::*;
use crate::errors::ImgapiError;

verus! {

/// Whether a character is a hexadecimal digit, either case.
pub open spec fn is_hex_digit(c: char) -> bool {
    ('0' <= c && c <= '9') || ('a' <= c && c <= 'f') || ('A' <= c && c <= 'F')
}

/// Whether a character is a lowercase hexadecimal digit.
pub open spec fn is_lower_hex_digit(c: char) -> bool {
    ('0' <= c && c <= '9') || ('a' <= c && c <= 'f')
}

/// The hyphenated identifier form: five hex groups of 8, 4, 4, 4 and 12
/// digits, separated by hyphens.
pub open spec fn hyphenated_ok(s: Seq<char>) -> bool {
    &&& s.len() == 36
    &&& s[8] == '-'
    &&& s[13] == '-'
    &&& s[18] == '-'
    &&& s[23] == '-'
    &&& forall|i: int|
        0 <= i < 36 && i != 8 && i != 13 && i != 18 && i != 23 ==> is_hex_digit(#[trigger] s[i])
}

/// The simple identifier form: 32 hex digits with no separators.
pub open spec fn simple_ok(s: Seq<char>) -> bool {
    s.len() == 32 && forall|i: int| 0 <= i < 32 ==> is_hex_digit(#[trigger] s[i])
}

/// The braced form: a hyphenated identifier inside `{` and `}`.
pub open spec fn braced_ok(s: Seq<char>) -> bool {
    s.len() == 38 && s[0] == '{' && s[37] == '}' && hyphenated_ok(s.subrange(1, 37))
}

/// A case-insensitive `urn:uuid:` prefix.
pub open spec fn urn_prefix_ok(s: Seq<char>) -> bool {
    &&& (s[0] == 'u' || s[0] == 'U')
    &&& (s[1] == 'r' || s[1] == 'R')
    &&& (s[2] == 'n' || s[2] == 'N')
    &&& s[3] == ':'
    &&& (s[4] == 'u' || s[4] == 'U')
    &&& (s[5] == 'u' || s[5] == 'U')
    &&& (s[6] == 'i' || s[6] == 'I')
    &&& (s[7] == 'd' || s[7] == 'D')
    &&& s[8] == ':'
}

/// The URN form: the prefix `urn:uuid:` (any case) before a hyphenated
/// identifier.
pub open spec fn urn_ok(s: Seq<char>) -> bool {
    s.len() == 45 && urn_prefix_ok(s) && hyphenated_ok(s.subrange(9, 45))
}

/// The accepted textual forms of a unique image identifier.
pub open spec fn uuid_grammar(s: Seq<char>) -> bool {
    simple_ok(s) || hyphenated_ok(s) || braced_ok(s) || urn_ok(s)
}

/// An uppercase hex digit lowered; every other character kept.
pub open spec fn hex_lower(c: char) -> char {
    if c == 'A' {
        'a'
    } else if c == 'B' {
        'b'
    } else if c == 'C' {
        'c'
    } else if c == 'D' {
        'd'
    } else if c == 'E' {
        'e'
    } else if c == 'F' {
        'f'
    } else {
        c
    }
}

/// The 32 hex digits of a 36-character hyphenated identifier, in order.
pub open spec fn strip_hyphens(s: Seq<char>) -> Seq<char> {
    s.subrange(0, 8) + s.subrange(9, 13) + s.subrange(14, 18) + s.subrange(19, 23) + s.subrange(
        24,
        36,
    )
}

/// The 32 hex digits of any accepted identifier form, in order.
pub open spec fn uuid_hex32(s: Seq<char>) -> Seq<char> {
    if simple_ok(s) {
        s
    } else if hyphenated_ok(s) {
        strip_hyphens(s)
    } else if braced_ok(s) {
        strip_hyphens(s.subrange(1, 37))
    } else {
        strip_hyphens(s.subrange(9, 45))
    }
}

/// 32 hex digits laid out in the hyphenated groups of 8, 4, 4, 4 and 12.
pub open spec fn rehyphenate(h: Seq<char>) -> Seq<char> {
    h.subrange(0, 8) + seq!['-'] + h.subrange(8, 12) + seq!['-'] + h.subrange(12, 16) + seq!['-']
        + h.subrange(16, 20) + seq!['-'] + h.subrange(20, 32)
}

/// The canonical form of an accepted identifier: its hex digits lowercased
/// and laid out hyphenated.
pub open spec fn uuid_normal(s: Seq<char>) -> Seq<char> {
    rehyphenate(uuid_hex32(s).map(|i: int, c: char| hex_lower(c)))
}

/// Whether the text is a canonical identifier: hyphenated, all hex digits
/// lowercase.
pub open spec fn is_uuid_text(t: Seq<char>) -> bool {
    &&& hyphenated_ok(t)
    &&& forall|i: int|
        0 <= i < 36 && i != 8 && i != 13 && i != 18 && i != 23 ==> is_lower_hex_digit(
            #[trigger] t[i],
        )
}

/// A validated unique image identifier, held in its canonical textual form:
/// lowercase and hyphenated.
#[derive(Debug, Clone)]
pub struct ImageId {
    text: String,
}

impl View for ImageId {
    type V = Seq<char>;

    closed spec fn view(&self) -> Seq<char> {
        self.text@
    }
}

/// Relies on `uuid::Uuid::parse_str` for the accepted forms (simple,
/// hyphenated, braced, URN, hex digits of either case) and on `Uuid`'s
/// display form (lowercase hyphenated) for the canonical text.
#[verifier::external_body]
fn uuid_normalize(s: &str) -> (r: Option<String>)
    ensures
        (r is Some) == uuid_grammar(s@),
        r matches Some(t) ==> t@ == uuid_normal(s@) && is_uuid_text(t@),
{
    match uuid::Uuid::parse_str(s) {
        Ok(u) => Some(format!("{}", u)),
        Err(_) => None,
    }
}

impl ImageId {
    /// A well-formed identifier holds its canonical text.
    pub open spec fn wf(&self) -> bool {
        is_uuid_text(self@)
    }

    /// Reads an identifier in any accepted form and keeps its canonical
    /// (lowercase hyphenated) text. Rejects anything else before any network
    /// activity.
    pub fn parse(s: &str) -> (r: Result<ImageId, ImgapiError>)
        ensures
            (r is Ok) == uuid_grammar(s@),
            r matches Ok(id) ==> id@ == uuid_normal(s@) && id.wf(),
            r matches Err(e) ==> e is ValidationError,
    {
        match uuid_normalize(s) {
            Some(t) => Ok(ImageId { text: t }),
            None => Err(
                ImgapiError::ValidationError(String::from_str("not a valid image identifier")),
            ),
        }
    }

    /// The canonical text of the identifier.
    pub fn as_str(&self) -> (r: &str)
        ensures
            r@ == self@,
    {
        self.text.as_str()
    }

    /// An owned copy of the canonical text.
    pub fn to_text(&self) -> (r: String)
        ensures
            r@ == self@,
    {
        self.text.clone()
    }
}

} // verus!
