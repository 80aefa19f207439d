//! Session identifiers: 128-bit values written as lower-case hexadecimal
//! digits in five groups joined by dashes.

use vstd::prelude::*;
use vstd::utf8::{encode_utf8, is_char_boundary};
use crate::text::chars_of;

verus! {

/// How many bytes of an identifier a tab title shows.
pub const SHORT_ID_LEN: usize = 8;

/// Whether `c` is a digit or one of the letters `a` to `f`.
pub open spec fn is_hex_digit(c: char) -> bool {
    ('0' <= c && c <= '9') || ('a' <= c && c <= 'f')
}

/// Whether `s` has the written form of an identifier: 36 characters, a
/// dash at the positions 8, 13, 18 and 23, and a lower-case hexadecimal
/// digit everywhere else.
pub open spec fn is_session_id(s: Seq<char>) -> bool {
    &&& s.len() == 36
    &&& forall|i: int|
        0 <= i < 36 ==> if i == 8 || i == 13 || i == 18 || i == 23 {
            #[trigger] s[i] == '-'
        } else {
            is_hex_digit(s[i])
        }
}

/// `Uuid::new_v4` of the `uuid` crate, then its `to_string`: a random
/// identifier in hyphenated lower-case form. Which identifier comes out is
/// left open; the contract states the form that every outcome has.
#[verifier::external_body]
pub(crate) fn random_session_id() -> (id: String)
    ensures
        is_session_id(id@),
{
    uuid::Uuid::new_v4().to_string()
}

/// The identifier for a new session: the one asked for, or else a fresh
/// random one.
pub fn session_id_or_new(requested: Option<String>) -> (id: String)
    ensures
        match requested {
            Some(wanted) => id == wanted,
            None => is_session_id(id@),
        },
{
    match requested {
        Some(wanted) => wanted,
        None => random_session_id(),
    }
}

/// Tells whether `s` has the written form of an identifier.
pub fn is_valid_session_id(s: &str) -> (b: bool)
    ensures
        b == is_session_id(s@),
{
    let chars = chars_of(s);
    if chars.len() != 36 {
        return false;
    }
    let mut i: usize = 0;
    while i < 36
        invariant
            i <= 36,
            chars@.len() == 36,
            chars@ == s@,
            forall|j: int|
                0 <= j < i ==> if j == 8 || j == 13 || j == 18 || j == 23 {
                    #[trigger] chars@[j] == '-'
                } else {
                    is_hex_digit(chars@[j])
                },
        decreases 36 - i,
    {
        let c = chars[i];
        let ok = if i == 8 || i == 13 || i == 18 || i == 23 {
            c == '-'
        } else {
            ('0' <= c && c <= '9') || ('a' <= c && c <= 'f')
        };
        if !ok {
            assert(!is_session_id(s@)) by {
                if is_session_id(s@) {
                    assert(if i == 8 || i == 13 || i == 18 || i == 23 {
                        s@[i as int] == '-'
                    } else {
                        is_hex_digit(s@[i as int])
                    });
                }
            }
            return false;
        }
        i += 1;
    }
    true
}

/// Whether `short` is what the first `SHORT_ID_LEN` bytes of `id` spell.
pub open spec fn is_short_form(id: Seq<char>, short: Seq<char>) -> bool {
    encode_utf8(short) == encode_utf8(id).subrange(0, SHORT_ID_LEN as int)
}

/// Whether `id` can be cut after `SHORT_ID_LEN` bytes: it is that long and
/// no character straddles the cut.
pub open spec fn has_short_form(id: Seq<char>) -> bool {
    is_char_boundary(encode_utf8(id), SHORT_ID_LEN as int)
}

/// The first `SHORT_ID_LEN` bytes of an identifier.
pub fn short_id(id: &str) -> (short: &str)
    requires
        has_short_form(id@),
    ensures
        is_short_form(id@, short@),
{
    id.split_at(SHORT_ID_LEN).0
}

/// Tells whether an identifier can be cut to its short form.
pub fn can_shorten(id: &str) -> (b: bool)
    ensures
        b == has_short_form(id@),
{
    id.is_char_boundary(SHORT_ID_LEN)
}

} // verus!
