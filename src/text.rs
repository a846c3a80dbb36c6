//! Text helpers: the ASCII lowercase model, the lowercasing call into the
//! standard library, and a byte-level comparison against a canonical name.
use vstd::prelude::*;
use vstd::utf8::{
    decode_utf8,
    encode_utf8,
    encode_utf8_decode_utf8,
    is_ascii_chars,
    is_ascii_chars_encode_utf8,
};

verus! {

/// The lowercase form of one character, for the ASCII letters `A` to `Z`;
/// every other character is left as it is.
pub open spec fn lower_ascii_char(c: char) -> char {
    if 'A' <= c && c <= 'Z' {
        ((c as u32) + 32) as char
    } else {
        c
    }
}

/// The ASCII lowercase form of a text, character by character.
pub open spec fn lower_ascii(s: Seq<char>) -> Seq<char> {
    s.map_values(|c: char| lower_ascii_char(c))
}

/// What `str::to_lowercase` returns for a text (full Unicode lowercasing).
pub uninterp spec fn lower_of(s: Seq<char>) -> Seq<char>;

/// The lowercase form of a text as `str::to_lowercase` gives it: exact on
/// ASCII text, and named by `lower_of` on any other.
pub open spec fn lowercase(s: Seq<char>) -> Seq<char> {
    if is_ascii_chars(s) {
        lower_ascii(s)
    } else {
        lower_of(s)
    }
}

/// Relies on `str::to_lowercase`: the result depends on the text alone, and on
/// ASCII text it maps `A`..`Z` to `a`..`z` and leaves every other character.
#[verifier::external_body]
pub(crate) fn to_lowercase(s: &str) -> (r: String)
    ensures
        r@ == lower_of(s@),
        is_ascii_chars(s@) ==> r@ == lower_ascii(s@),
{
    s.to_lowercase()
}

/// The ASCII lowercase form of one byte.
pub open spec fn lower_ascii_byte(b: u8) -> u8 {
    if 65 <= b && b <= 90 {
        (b + 32) as u8
    } else {
        b
    }
}

fn lower_byte(b: u8) -> (r: u8)
    ensures
        r == lower_ascii_byte(b),
{
    if 65 <= b && b <= 90 {
        b + 32
    } else {
        b
    }
}

proof fn lemma_lower_ascii_is_ascii(s: Seq<char>)
    requires
        is_ascii_chars(s),
    ensures
        is_ascii_chars(lower_ascii(s)),
        lower_ascii(s).len() == s.len(),
        forall|i: int|
            0 <= i < s.len() ==> #[trigger] lower_ascii(s)[i] as u8 == lower_ascii_byte(
                s[i] as u8,
            ),
{
    assert forall|i: int| 0 <= i < s.len() implies '\0' <= #[trigger] lower_ascii(s)[i] <= '\u{7f}'
        && lower_ascii(s)[i] as u8 == lower_ascii_byte(s[i] as u8) by {
        let c = s[i];
        assert(c as u32 <= 127);
    }
}

/// Whether `text` is exactly the ASCII lowercase form of `name`.
pub fn equals_lowered(text: &str, name: &str) -> (r: bool)
    requires
        is_ascii_chars(name@),
    ensures
        r == (text@ == lower_ascii(name@)),
{
    let a = text.as_bytes();
    let b = name.as_bytes();
    let ghost target = lower_ascii(name@);
    proof {
        lemma_lower_ascii_is_ascii(name@);
        is_ascii_chars_encode_utf8(name@);
        is_ascii_chars_encode_utf8(target);
        encode_utf8_decode_utf8(text@);
        encode_utf8_decode_utf8(target);
        assert(text@ == target ==> a@ == encode_utf8(target));
    }
    if a.len() != b.len() {
        return false;
    }
    let mut i: usize = 0;
    while i < a.len()
        invariant
            target == lower_ascii(name@),
            a@ == encode_utf8(text@),
            b@ == encode_utf8(name@),
            a@.len() == b@.len(),
            b@.len() == name@.len(),
            encode_utf8(target).len() == target.len(),
            target.len() == name@.len(),
            0 <= i <= a@.len(),
            forall|j: int| 0 <= j < i ==> a@[j] == encode_utf8(target)[j],
            text@ == target ==> a@ == encode_utf8(target),
            forall|j: int|
                0 <= j < name@.len() ==> #[trigger] encode_utf8(target)[j] == lower_ascii_byte(
                    b@[j],
                ),
        decreases a@.len() - i,
    {
        if a[i] != lower_byte(b[i]) {
            proof {
                assert(encode_utf8(target)[i as int] == lower_ascii_byte(b@[i as int]));
            }
            return false;
        }
        i += 1;
    }
    proof {
        assert(a@ =~= encode_utf8(target));
    }
    true
}

} // verus!
