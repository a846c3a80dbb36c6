//! Laws relating rendering and parsing of header names.
use vstd::prelude::*;
use vstd::utf8::is_ascii_chars;
use crate::header::{lemma_known_names_ascii, lemma_lowered_names_distinct, WarcHeader};
use crate::text::{lower_ascii, lower_ascii_char, lowercase};

verus! {

/// Two results that parsing may give for the same lowercased text are the
/// same fixed name, or both `Unknown` holding the same text.
pub proof fn lemma_parse_unique(lower: Seq<char>, a: WarcHeader, b: WarcHeader)
    requires
        a.parsed_from(lower),
        b.parsed_from(lower),
    ensures
        a.is_known() ==> a == b,
        a is Unknown ==> b is Unknown && a->0@ == b->0@,
{
    if a.is_named_by(lower) && b.is_named_by(lower) {
        lemma_lowered_names_distinct(a, b);
    }
}

/// Parsing the canonical text of a fixed name gives that name back.
pub proof fn lemma_parse_of_render(h: WarcHeader, r: WarcHeader)
    requires
        h.is_known(),
        r.parsed_from(lowercase(h.canonical_name())),
    ensures
        r == h,
{
    lemma_known_names_ascii(h);
    lemma_parse_unique(lowercase(h.canonical_name()), r, h);
}

/// Parsing the canonical text of a fixed name with any of its ASCII letters
/// in either case gives that name.
pub proof fn lemma_parse_any_casing(h: WarcHeader, text: Seq<char>, r: WarcHeader)
    requires
        h.is_known(),
        lower_ascii(text) == lower_ascii(h.canonical_name()),
        r.parsed_from(lowercase(text)),
    ensures
        r == h,
{
    lemma_known_names_ascii(h);
    let name = h.canonical_name();
    assert(text.len() == name.len()) by {
        assert(lower_ascii(text).len() == lower_ascii(name).len());
    }
    assert forall|i: int| 0 <= i < text.len() implies '\0' <= #[trigger] text[i] <= '\u{7f}' by {
        assert(lower_ascii(text)[i] == lower_ascii(name)[i]);
        assert(lower_ascii_char(text[i]) == lower_ascii_char(name[i]));
    }
    assert(is_ascii_chars(text));
    lemma_parse_unique(lowercase(text), r, h);
}

/// Text whose lowercase form is no fixed name parses to `Unknown` holding
/// that lowercase form, which is also what it renders to.
pub proof fn lemma_parse_unknown(text: Seq<char>, r: WarcHeader)
    requires
        forall|h: WarcHeader| !#[trigger] h.is_named_by(lowercase(text)),
        r.parsed_from(lowercase(text)),
    ensures
        r is Unknown,
        r->0@ == lowercase(text),
        r.canonical_name() == lowercase(text),
{
}

/// Distinct fixed names render to distinct texts.
pub proof fn lemma_render_injective(a: WarcHeader, b: WarcHeader)
    requires
        a.is_known(),
        b.is_known(),
        a != b,
    ensures
        a.canonical_name() != b.canonical_name(),
{
    if a.canonical_name() == b.canonical_name() {
        lemma_lowered_names_distinct(a, b);
    }
}

/// Parsing what a parse result renders to gives that result again. This is
/// shown for ASCII text, and for any text that parses to a fixed name.
pub proof fn lemma_parse_idempotent(text: Seq<char>, first: WarcHeader, second: WarcHeader)
    requires
        is_ascii_chars(text) || first.is_known(),
        first.parsed_from(lowercase(text)),
        second.parsed_from(lowercase(first.canonical_name())),
    ensures
        first.is_known() ==> second == first,
        first is Unknown ==> second is Unknown && second->0@ == first->0@,
{
    if first.is_known() {
        lemma_parse_of_render(first, second);
    } else {
        let lower = lowercase(text);
        assert(is_ascii_chars(lower)) by {
            assert forall|i: int| 0 <= i < lower.len() implies '\0' <= #[trigger] lower[i]
                <= '\u{7f}' by {
                assert(text[i] as u32 <= 127);
            }
        }
        assert(lowercase(lower) =~= lower);
        lemma_parse_unique(lower, first, second);
    }
}

} // verus!
