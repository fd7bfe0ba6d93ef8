use vstd::prelude::*;
use vstd::string::*;

verus! {

/// Length of an identifier minted for a paste that was given no name.
pub const TOKEN_LEN: usize = 8;

/// Length of the hyphenated text form of a UUID.
pub const UUID_TEXT_LEN: usize = 36;

/// Whether a character has Unicode's White_Space property: the ASCII tab,
/// line feed, vertical tab, form feed, carriage return and space, NEXT LINE,
/// NO-BREAK SPACE, OGHAM SPACE MARK, the spaces U+2000 to U+200A, the line
/// and paragraph separators, NARROW NO-BREAK SPACE, MEDIUM MATHEMATICAL SPACE
/// and IDEOGRAPHIC SPACE.
pub open spec fn white_space(c: char) -> bool {
    ||| ('\u{9}' <= c && c <= '\u{d}')
    ||| c == ' '
    ||| c == '\u{85}'
    ||| c == '\u{a0}'
    ||| c == '\u{1680}'
    ||| ('\u{2000}' <= c && c <= '\u{200a}')
    ||| c == '\u{2028}'
    ||| c == '\u{2029}'
    ||| c == '\u{202f}'
    ||| c == '\u{205f}'
    ||| c == '\u{3000}'
}

/// A name is blank when nothing is left of it once surrounding white space
/// is trimmed, that is, when every character of it is white space.
pub open spec fn blank(s: Seq<char>) -> bool {
    forall|i: int| 0 <= i < s.len() ==> white_space(#[trigger] s[i])
}

/// A lowercase hexadecimal digit.
pub open spec fn lower_hex_digit(c: char) -> bool {
    ('0' <= c && c <= '9') || ('a' <= c && c <= 'f')
}

/// The hyphenated lowercase text of a UUID: 36 characters, with '-' at
/// positions 8, 13, 18 and 23 and a lowercase hex digit everywhere else.
pub open spec fn uuid_text(s: Seq<char>) -> bool {
    &&& s.len() == UUID_TEXT_LEN
    &&& forall|i: int|
        0 <= i < 36 ==> if i == 8 || i == 13 || i == 18 || i == 23 {
            #[trigger] s[i] == '-'
        } else {
            lower_hex_digit(s[i])
        }
}

/// A minted token: eight lowercase hex digits.
pub open spec fn token_text(s: Seq<char>) -> bool {
    &&& s.len() == 8
    &&& forall|i: int| 0 <= i < s.len() ==> lower_hex_digit(#[trigger] s[i])
}

/// Whether `id` is an identifier that a paste asked to be named `filename`
/// may receive: the name itself when it is not blank, else a minted token.
pub open spec fn allocated(filename: Option<String>, id: Seq<char>) -> bool {
    match filename {
        Some(name) if !blank(name@) => id == name@,
        _ => token_text(id),
    }
}

#[verifier::external_type_specification]
#[verifier::external_body]
pub struct ExUuid(uuid::Uuid);

/// Relies on uuid::Uuid::new_v4: a random version-4 UUID. Nothing is promised
/// of its value.
pub assume_specification[ uuid::Uuid::new_v4 ]() -> uuid::Uuid;

/// Relies on uuid's `Display` for `Uuid` (through `ToString`): it writes
/// `Hyphenated::encode_lower`, the 8-4-4-4-12 groups of lowercase hex digits
/// joined by '-'.
#[verifier::external_body]
fn uuid_to_text(u: &uuid::Uuid) -> (r: String)
    ensures
        uuid_text(r@),
{
    u.to_string()
}

/// Relies on char::is_whitespace, documented as Unicode's White_Space
/// property.
#[verifier::external_body]
fn is_white_space(c: char) -> (r: bool)
    ensures
        r == white_space(c),
{
    c.is_whitespace()
}

/// Whether a requested name is blank: empty, or white space only.
pub fn is_blank(name: &str) -> (r: bool)
    ensures
        r == blank(name@),
{
    let ghost mut seen: Seq<char> = Seq::empty();
    for c in it: name.chars()
        invariant
            it.seq() == name@,
            seen == it.seq().take(it.index() as int),
            blank(seen),
    {
        if !is_white_space(c) {
            assert(name@[seen.len() as int] == c);
            return false;
        }
        proof {
            seen = seen.push(c);
        }
    }
    assert(seen =~= name@);
    true
}

/// The first eight characters of the hyphenated text of a UUID.
pub fn short_token(uuid_str: &str) -> (r: String)
    requires
        uuid_text(uuid_str@),
    ensures
        r@ == uuid_str@.subrange(0, 8),
        token_text(r@),
{
    let head = uuid_str.substring_char(0, TOKEN_LEN);
    let r = String::from_str(head);
    assert forall|i: int| 0 <= i < r@.len() implies lower_hex_digit(#[trigger] r@[i]) by {
        assert(r@[i] == uuid_str@[i]);
    }
    r
}

/// Mints a fresh token from a random UUID.
pub fn fresh_token() -> (r: String)
    ensures
        token_text(r@),
{
    let u = uuid::Uuid::new_v4();
    let text = uuid_to_text(&u);
    short_token(text.as_str())
}

/// Allocates the identifier of a new paste: the requested name when it is not
/// blank, used as given; otherwise a fresh eight-digit token.
pub fn allocate_id(filename: Option<String>) -> (r: String)
    ensures
        allocated(filename, r@),
{
    match filename {
        Some(name) => {
            if !is_blank(name.as_str()) {
                name
            } else {
                fresh_token()
            }
        },
        None => fresh_token(),
    }
}

} // verus!
