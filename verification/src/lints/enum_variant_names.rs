use vstd::prelude::*;
use vstd::utf8::{decode_utf8, encode_utf8, valid_utf8};
use crate::context::{Lint, LintRule};
use crate::fixes::{byte_boundary, bytes_of, lemma_boundary_valid, string_from_utf8};
use crate::text;

verus! {

/// Detects enumeration variants that are prefixed or suffixed by the same characters.
pub struct EnumVariantNames;

impl Lint for EnumVariantNames {
    open spec fn rule(&self) -> LintRule {
        LintRule::EnumVariantNames
    }

    fn lint_rule(&self) -> (r: LintRule) {
        LintRule::EnumVariantNames
    }
}


/// Whether a character has the Unicode `Uppercase` property.
pub uninterp spec fn is_uppercase_char(c: char) -> bool;

/// Whether a character has the Unicode `Lowercase` property.
pub uninterp spec fn is_lowercase_char(c: char) -> bool;

/// `char::is_uppercase`: whether the character has the Unicode `Uppercase`
/// property; among ASCII characters, exactly the letters `A` to `Z`.
#[verifier::external_body]
fn char_is_uppercase(c: char) -> (r: bool)
    ensures
        r == is_uppercase_char(c),
        (c as u32) < 128 ==> (r <==> ('A' <= c && c <= 'Z')),
{
    c.is_uppercase()
}

/// `char::is_lowercase`: whether the character has the Unicode `Lowercase`
/// property; among ASCII characters, exactly the letters `a` to `z`.
#[verifier::external_body]
fn char_is_lowercase(c: char) -> (r: bool)
    ensures
        r == is_lowercase_char(c),
        (c as u32) < 128 ==> (r <==> ('a' <= c && c <= 'z')),
{
    c.is_lowercase()
}

/// The words of a name, scanned from its second character on: a word ends
/// before an uppercase character that follows a lowercase one, and at an
/// underscore, which belongs to no word; `parts` and `start` are what the
/// scan of the characters before `i` gathered. The cuts are character
/// positions.
pub open spec fn word_split_from(cs: Seq<char>, i: int, start: int, parts: Seq<Seq<char>>) -> Seq<Seq<char>>
    decreases cs.len() - i,
{
    if i >= cs.len() || i < 1 {
        if start < cs.len() { parts.push(cs.subrange(start, cs.len() as int)) } else { parts }
    } else if is_uppercase_char(cs[i]) && is_lowercase_char(cs[i - 1]) {
        word_split_from(cs, i + 1, i, parts.push(cs.subrange(start, i)))
    } else if cs[i] == '_' {
        word_split_from(cs, i + 1, i + 1, parts.push(cs.subrange(start, i)))
    } else {
        word_split_from(cs, i + 1, start, parts)
    }
}

/// The bytes `s..e` can be cut out of `b`: in order, within `b`, and both
/// at the start of a character or at the end.
pub open spec fn byte_cut_ok(b: Seq<u8>, s: int, e: int) -> bool {
    0 <= s <= e <= b.len() && byte_boundary(b, s) && byte_boundary(b, e)
}

/// The words of a name as the scan of `word_split_from` finds them, where
/// each word is cut out of the name's UTF-8 bytes `b` at the scan's
/// character positions taken as byte positions; the last word is kept when
/// its start is before the end of the bytes.
pub open spec fn word_split_bytes_from(cs: Seq<char>, b: Seq<u8>, i: int, start: int, parts: Seq<Seq<char>>) -> Seq<Seq<char>>
    decreases cs.len() - i,
{
    if i >= cs.len() || i < 1 {
        if start < b.len() { parts.push(decode_utf8(b.subrange(start, b.len() as int))) } else { parts }
    } else if is_uppercase_char(cs[i]) && is_lowercase_char(cs[i - 1]) {
        word_split_bytes_from(cs, b, i + 1, i, parts.push(decode_utf8(b.subrange(start, i))))
    } else if cs[i] == '_' {
        word_split_bytes_from(cs, b, i + 1, i + 1, parts.push(decode_utf8(b.subrange(start, i))))
    } else {
        word_split_bytes_from(cs, b, i + 1, start, parts)
    }
}

/// Whether one of the cuts of `word_split_bytes_from` falls inside a
/// character (or past the end): there the split cannot be made.
pub open spec fn word_split_panics_from(cs: Seq<char>, b: Seq<u8>, i: int, start: int) -> bool
    decreases cs.len() - i,
{
    if i >= cs.len() || i < 1 {
        start < b.len() && !byte_cut_ok(b, start, b.len() as int)
    } else if is_uppercase_char(cs[i]) && is_lowercase_char(cs[i - 1]) {
        !byte_cut_ok(b, start, i) || word_split_panics_from(cs, b, i + 1, i)
    } else if cs[i] == '_' {
        !byte_cut_ok(b, start, i) || word_split_panics_from(cs, b, i + 1, i + 1)
    } else {
        word_split_panics_from(cs, b, i + 1, start)
    }
}

/// The words of a name (see `word_split_bytes_from`).
pub open spec fn word_split_spec(name: Seq<char>) -> Seq<Seq<char>> {
    word_split_bytes_from(name, encode_utf8(name), 1, 0, seq![])
}

/// The name cannot be split: a cut falls inside a character.
pub open spec fn word_split_panics(name: Seq<char>) -> bool {
    word_split_panics_from(name, encode_utf8(name), 1, 0)
}

proof fn lemma_cut_valid(b: Seq<u8>, s: int, e: int)
    requires
        valid_utf8(b),
        byte_cut_ok(b, s, e),
    ensures
        valid_utf8(b.subrange(s, e)),
{
    lemma_boundary_valid(b, e);
    vstd::utf8::valid_utf8_split(b, e);
    let t = b.subrange(0, e);
    assert(byte_boundary(t, s)) by {
        if 0 < s < e {
            assert(t[s] == b[s]);
        }
    }
    lemma_boundary_valid(t, s);
    vstd::utf8::valid_utf8_split(t, s);
    assert(t.subrange(s, t.len() as int) =~= b.subrange(s, e));
}

/// The characters that bytes `s..e` of `b` encode.
fn cut_string(b: &Vec<u8>, s: usize, e: usize) -> (r: String)
    requires
        valid_utf8(b@),
        byte_cut_ok(b@, s as int, e as int),
    ensures
        r@ == decode_utf8(b@.subrange(s as int, e as int)),
{
    let mut piece: Vec<u8> = Vec::new();
    let mut k: usize = s;
    while k < e
        invariant
            s <= k <= e,
            e <= b@.len(),
            piece@ == b@.subrange(s as int, k as int),
        decreases e - k,
    {
        piece.push(b[k]);
        assert(b@.subrange(s as int, k + 1) =~= b@.subrange(s as int, k as int).push(b@[k as int]));
        k = k + 1;
    }
    proof {
        lemma_cut_valid(b@, s as int, e as int);
    }
    match string_from_utf8(piece) {
        Some(x) => x,
        None => String::new(),
    }
}

/// Splits a name into its words: at a lowercase-to-uppercase change and at
/// underscores. The scan counts characters, and each word is cut out of the
/// name's bytes at those counts (see `word_split_bytes_from`); on an ASCII
/// name, which every Cairo identifier is, that is a cut by characters (see
/// `lemma_word_split_ascii`).
pub fn word_split(name: &str) -> (r: Vec<String>)
    requires
        !word_split_panics(name@),
    ensures
        text::string_views(r@) == word_split_spec(name@),
{
    let chars = text::chars_of(name);
    let bytes = bytes_of(name);
    proof {
        vstd::utf8::encode_utf8_valid_utf8(name@);
    }
    let mut parts: Vec<String> = Vec::new();
    let mut start: usize = 0;
    let mut i: usize = 1;
    if chars.len() == 0 {
        assert(encode_utf8(name@) =~= Seq::<u8>::empty());
        assert(text::string_views(parts@) =~= word_split_spec(name@));
        return parts;
    }
    assert(text::string_views(parts@) =~= Seq::<Seq<char>>::empty());
    while i < chars.len()
        invariant
            chars@ == name@,
            bytes@ == encode_utf8(name@),
            valid_utf8(bytes@),
            1 <= i <= chars@.len(),
            start <= i,
            word_split_spec(name@) == word_split_bytes_from(chars@, bytes@, i as int, start as int, text::string_views(parts@)),
            !word_split_panics_from(chars@, bytes@, i as int, start as int),
        decreases chars@.len() - i,
    {
        let prev = chars[i - 1];
        let curr = chars[i];
        let ghost before = text::string_views(parts@);
        if char_is_uppercase(curr) && char_is_lowercase(prev) {
            let ps = cut_string(&bytes, start, i);
            parts.push(ps);
            assert(text::string_views(parts@) =~= before.push(decode_utf8(bytes@.subrange(start as int, i as int))));
            start = i;
        } else if curr == '_' {
            let ps = cut_string(&bytes, start, i);
            parts.push(ps);
            assert(text::string_views(parts@) =~= before.push(decode_utf8(bytes@.subrange(start as int, i as int))));
            start = i + 1;
        }
        i = i + 1;
    }
    let ghost before = text::string_views(parts@);
    if start < bytes.len() {
        let ps = cut_string(&bytes, start, bytes.len());
        parts.push(ps);
        assert(text::string_views(parts@) =~= before.push(decode_utf8(bytes@.subrange(start as int, bytes@.len() as int))));
    }
    parts
}

/// Every character of the text is ASCII.
pub open spec fn is_ascii_text(cs: Seq<char>) -> bool {
    forall|k: int| 0 <= k < cs.len() ==> (#[trigger] cs[k] as u32) < 128
}

proof fn lemma_ascii_encoding(cs: Seq<char>)
    requires
        is_ascii_text(cs),
    ensures
        encode_utf8(cs).len() == cs.len(),
        forall|k: int| 0 <= k < cs.len() ==> #[trigger] encode_utf8(cs)[k]
            == vstd::utf8::leading_byte_width_1(cs[k] as u32),
        forall|k: int| 0 <= k < cs.len() ==> #[trigger] encode_utf8(cs)[k] < 0x80,
    decreases cs.len(),
{
    if cs.len() > 0 {
        let rest = cs.drop_first();
        assert forall|k: int| 0 <= k < rest.len() implies (#[trigger] rest[k] as u32) < 128 by {
            assert(rest[k] == cs[k + 1]);
        }
        lemma_ascii_encoding(rest);
        let v = cs[0] as u32;
        assert(vstd::utf8::has_width_1_encoding(v));
        let e = encode_utf8(cs);
        assert(e == seq![vstd::utf8::leading_byte_width_1(v)] + encode_utf8(rest));
        assert forall|k: int| 0 <= k < cs.len() implies #[trigger] e[k] == vstd::utf8::leading_byte_width_1(cs[k] as u32)
            && e[k] < 0x80 by {
            let w = cs[k] as u32;
            assert(((w & 0x7F) as u8) < 0x80) by (bit_vector);
            if k > 0 {
                assert(e[k] == encode_utf8(rest)[k - 1]);
                assert(rest[k - 1] == cs[k]);
            }
        }
    }
}

proof fn lemma_ascii_cut(cs: Seq<char>, s: int, e: int)
    requires
        is_ascii_text(cs),
        0 <= s <= e <= cs.len(),
    ensures
        byte_cut_ok(encode_utf8(cs), s, e),
        decode_utf8(encode_utf8(cs).subrange(s, e)) == cs.subrange(s, e),
{
    let x = cs.subrange(s, e);
    assert forall|k: int| 0 <= k < x.len() implies (#[trigger] x[k] as u32) < 128 by {
        assert(x[k] == cs[s + k]);
    }
    lemma_ascii_encoding(cs);
    lemma_ascii_encoding(x);
    let b = encode_utf8(cs);
    assert forall|k: int| 0 <= k < x.len() implies #[trigger] b.subrange(s, e)[k] == encode_utf8(x)[k] by {
        assert(x[k] == cs[s + k]);
    }
    assert(b.subrange(s, e) =~= encode_utf8(x));
    vstd::utf8::encode_utf8_decode_utf8(x);
    if 0 < s < b.len() {
        assert(b[s] < 0x80);
    }
    if 0 < e < b.len() {
        assert(b[e] < 0x80);
    }
}

proof fn lemma_word_split_ascii_from(cs: Seq<char>, i: int, start: int, parts: Seq<Seq<char>>)
    requires
        is_ascii_text(cs),
        1 <= i,
        0 <= start <= i,
        start <= cs.len(),
    ensures
        !word_split_panics_from(cs, encode_utf8(cs), i, start),
        word_split_bytes_from(cs, encode_utf8(cs), i, start, parts) == word_split_from(cs, i, start, parts),
    decreases cs.len() - i,
{
    let b = encode_utf8(cs);
    lemma_ascii_encoding(cs);
    if i >= cs.len() {
        if start < b.len() {
            lemma_ascii_cut(cs, start, cs.len() as int);
        }
    } else if is_uppercase_char(cs[i]) && is_lowercase_char(cs[i - 1]) {
        lemma_ascii_cut(cs, start, i);
        lemma_word_split_ascii_from(cs, i + 1, i, parts.push(cs.subrange(start, i)));
    } else if cs[i] == '_' {
        lemma_ascii_cut(cs, start, i);
        lemma_word_split_ascii_from(cs, i + 1, i + 1, parts.push(cs.subrange(start, i)));
    } else {
        lemma_word_split_ascii_from(cs, i + 1, start, parts);
    }
}

/// On an ASCII name every cut falls between characters, and the words are
/// those of the scan cut by character positions.
pub proof fn lemma_word_split_ascii(name: Seq<char>)
    requires
        is_ascii_text(name),
    ensures
        !word_split_panics(name),
        word_split_spec(name) == word_split_from(name, 1, 0, seq![]),
{
    lemma_word_split_ascii_from(name, 1, 0, seq![]);
}

/// The case of a character: whether it is uppercase and whether it is
/// lowercase (the Unicode `Uppercase` and `Lowercase` properties); on ASCII
/// exactly the letters `A` to `Z`, and `a` to `z`.
pub fn letter_case(c: char) -> (r: (bool, bool))
    ensures
        r.0 == is_uppercase_char(c),
        r.1 == is_lowercase_char(c),
        (c as u32) < 128 ==> (r.0 <==> ('A' <= c && c <= 'Z')),
        (c as u32) < 128 ==> (r.1 <==> ('a' <= c && c <= 'z')),
{
    (char_is_uppercase(c), char_is_lowercase(c))
}

/// The longest common prefix of two word lists.
pub open spec fn common_prefix(a: Seq<Seq<char>>, b: Seq<Seq<char>>) -> Seq<Seq<char>>
    decreases a.len(),
{
    if a.len() == 0 || b.len() == 0 || a[0] != b[0] {
        seq![]
    } else {
        seq![a[0]] + common_prefix(a.drop_first(), b.drop_first())
    }
}

/// The words common to the starts (first) and to the ends (second, last
/// word first) of the first `n` names.
pub open spec fn affixes_upto(names: Seq<Seq<char>>, n: nat) -> (Seq<Seq<char>>, Seq<Seq<char>>)
    decreases n,
{
    if n <= 1 {
        let w = word_split_spec(names[0]);
        (w, w.reverse())
    } else {
        let (p, s) = affixes_upto(names, (n - 1) as nat);
        let w = word_split_spec(names[n - 1]);
        (common_prefix(p, w), common_prefix(s, w.reverse()))
    }
}

/// The words that all variant names start with and end with (the latter
/// listed from the last word); none for fewer than two names or where a
/// name after the first is a single word.
pub open spec fn prefix_and_suffix_spec(names: Seq<Seq<char>>) -> (Seq<Seq<char>>, Seq<Seq<char>>) {
    if names.len() <= 1 {
        (seq![], seq![])
    } else if exists|i: int| 1 <= i < names.len() && #[trigger] word_split_spec(names[i]).len() == 1 {
        (seq![], seq![])
    } else {
        affixes_upto(names, names.len())
    }
}

fn common_prefix_exec(a: &Vec<String>, b: &Vec<String>) -> (r: Vec<String>)
    ensures
        text::string_views(r@) == common_prefix(text::string_views(a@), text::string_views(b@)),
{
    let ghost av = text::string_views(a@);
    let ghost bv = text::string_views(b@);
    let mut out: Vec<String> = Vec::new();
    let mut k: usize = 0;
    assert(av.skip(0) =~= av && bv.skip(0) =~= bv);
    while k < a.len() && k < b.len() && text::str_eq(a[k].as_str(), b[k].as_str())
        invariant
            av == text::string_views(a@),
            bv == text::string_views(b@),
            k <= a@.len(),
            k <= b@.len(),
            text::string_views(out@) + common_prefix(av.skip(k as int), bv.skip(k as int)) == common_prefix(av, bv),
        decreases a@.len() - k,
    {
        assert(av.skip(k as int)[0] == a@[k as int]@);
        assert(bv.skip(k as int)[0] == b@[k as int]@);
        assert(av.skip(k as int).drop_first() =~= av.skip(k + 1));
        assert(bv.skip(k as int).drop_first() =~= bv.skip(k + 1));
        let ghost before = text::string_views(out@);
        let c = crate::lints::manual::helpers::copy_string(&a[k]);
        out.push(c);
        assert(text::string_views(out@) =~= before.push(a@[k as int]@));
        k = k + 1;
    }
    proof {
        if k < a@.len() && k < b@.len() {
            assert(av.skip(k as int)[0] == a@[k as int]@);
            assert(bv.skip(k as int)[0] == b@[k as int]@);
        }
        assert(text::string_views(out@) + seq![] =~= text::string_views(out@));
    }
    out
}

fn reversed(v: &Vec<String>) -> (r: Vec<String>)
    ensures
        text::string_views(r@) == text::string_views(v@).reverse(),
{
    let mut out: Vec<String> = Vec::new();
    let mut k: usize = v.len();
    while k > 0
        invariant
            k <= v@.len(),
            text::string_views(out@) =~= text::string_views(v@).skip(k as int).reverse(),
        decreases k,
    {
        k = k - 1;
        let ghost before = text::string_views(out@);
        let c = crate::lints::manual::helpers::copy_string(&v[k]);
        out.push(c);
        assert(text::string_views(out@) =~= before.push(v@[k as int]@));
        assert(text::string_views(v@).skip(k as int).reverse() =~= text::string_views(v@).skip(k + 1).reverse().push(v@[k as int]@));
    }
    assert(text::string_views(v@).skip(0) =~= text::string_views(v@));
    out
}

/// Splitting the names, in order, meets a name that cannot be split (see
/// `word_split_panics`) before a later name with a single word ends the
/// scan.
pub open spec fn affix_scan_panics(names: Seq<Seq<char>>) -> bool {
    &&& names.len() > 1
    &&& {
        ||| word_split_panics(names[0])
        ||| exists|j: int| 1 <= j < names.len() && #[trigger] word_split_panics(names[j])
            && forall|k: int| 1 <= k < j ==> word_split_spec(names[k]).len() != 1
    }
}

/// The words common to the starts and to the ends of all variant names
/// (see `prefix_and_suffix_spec`).
pub fn get_prefix_and_suffix(variant_names: &Vec<String>) -> (r: (Vec<String>, Vec<String>))
    requires
        !affix_scan_panics(text::string_views(variant_names@)),
    ensures
        (text::string_views(r.0@), text::string_views(r.1@))
            == prefix_and_suffix_spec(text::string_views(variant_names@)),
{
    let ghost names = text::string_views(variant_names@);
    if variant_names.len() <= 1 {
        return (Vec::new(), Vec::new());
    }
    let mut prefix = word_split(variant_names[0].as_str());
    let mut suffix = reversed(&prefix);
    let mut k: usize = 1;
    assert(affixes_upto(names, 1) == (text::string_views(prefix@), text::string_views(suffix@)));
    while k < variant_names.len()
        invariant
            names == text::string_views(variant_names@),
            names.len() >= 2,
            !affix_scan_panics(names),
            1 <= k <= names.len(),
            forall|i: int| 1 <= i < k ==> #[trigger] word_split_spec(names[i]).len() != 1,
            affixes_upto(names, k as nat) == (text::string_views(prefix@), text::string_views(suffix@)),
        decreases names.len() - k,
    {
        proof {
            if word_split_panics(names[k as int]) {
                assert(1 <= k < names.len() && word_split_panics(names[k as int])
                    && forall|j: int| 1 <= j < k ==> word_split_spec(names[j]).len() != 1);
            }
        }
        let split = word_split(variant_names[k].as_str());
        assert(names[k as int] == variant_names@[k as int]@);
        if split.len() == 1 {
            assert(word_split_spec(names[k as int]).len() == 1);
            return (Vec::new(), Vec::new());
        }
        let rs = reversed(&split);
        prefix = common_prefix_exec(&prefix, &split);
        suffix = common_prefix_exec(&suffix, &rs);
        k = k + 1;
    }
    (prefix, suffix)
}

/// Whether the variant names share a leading or a trailing word.
pub fn check_enum_variant_names(variant_names: &Vec<String>) -> (r: bool)
    requires
        !affix_scan_panics(text::string_views(variant_names@)),
    ensures
        r == (prefix_and_suffix_spec(text::string_views(variant_names@)).0.len() > 0
            || prefix_and_suffix_spec(text::string_views(variant_names@)).1.len() > 0),
{
    let (prefix, suffix) = get_prefix_and_suffix(variant_names);
    prefix.len() > 0 || suffix.len() > 0
}

/// `name` without the words: each removed from the front where the name
/// starts with it, in order.
pub open spec fn strip_prefixes(name: Seq<char>, ws: Seq<Seq<char>>) -> Seq<char>
    decreases ws.len(),
{
    if ws.len() == 0 {
        name
    } else {
        let n = strip_prefixes(name, ws.drop_last());
        if text::has_prefix(n, ws.last()) { n.skip(ws.last().len() as int) } else { n }
    }
}

/// `name` without the words: each removed from the end where the name
/// ends with it, in order.
pub open spec fn strip_suffixes(name: Seq<char>, ws: Seq<Seq<char>>) -> Seq<char>
    decreases ws.len(),
{
    if ws.len() == 0 {
        name
    } else {
        let n = strip_suffixes(name, ws.drop_last());
        if text::has_suffix(n, ws.last()) { n.take(n.len() - ws.last().len()) } else { n }
    }
}

/// The source of the enum with, for each variant in order, every
/// occurrence of its name replaced by the name stripped of the common
/// words.
pub open spec fn fix_enum_variant_names_upto(source: Seq<char>, names: Seq<Seq<char>>, n: nat) -> Seq<char>
    decreases n,
{
    if n == 0 {
        source
    } else {
        let prev = fix_enum_variant_names_upto(source, names, (n - 1) as nat);
        let (p, s) = prefix_and_suffix_spec(names);
        let v = names[n - 1];
        text::rust_replace(prev, v, strip_suffixes(strip_prefixes(v, p), s))
    }
}

fn strip_words(name: &[char], prefixes: &Vec<String>, suffixes: &Vec<String>) -> (r: Vec<char>)
    ensures
        r@ == strip_suffixes(strip_prefixes(name@, text::string_views(prefixes@)), text::string_views(suffixes@)),
{
    let ghost pv = text::string_views(prefixes@);
    let ghost sv = text::string_views(suffixes@);
    let mut fixed = text::subrange_chars(name, 0, name.len());
    assert(fixed@ =~= name@);
    let mut k: usize = 0;
    assert(pv.take(0) =~= Seq::<Seq<char>>::empty());
    while k < prefixes.len()
        invariant
            pv == text::string_views(prefixes@),
            k <= prefixes@.len(),
            fixed@ == strip_prefixes(name@, pv.take(k as int)),
        decreases prefixes@.len() - k,
    {
        assert(pv.take(k + 1).drop_last() =~= pv.take(k as int));
        assert(pv.take(k + 1).last() == prefixes@[k as int]@);
        let p = text::chars_of(prefixes[k].as_str());
        let n = fixed.len();
        assert(fixed@.skip(0) =~= fixed@);
        if p.len() <= n && text::matches_at(fixed.as_slice(), 0, p.as_slice()) {
            fixed = text::subrange_chars(fixed.as_slice(), p.len(), n);
            assert(fixed@ =~= strip_prefixes(name@, pv.take(k as int)).skip(p@.len() as int));
        }
        k = k + 1;
    }
    assert(pv.take(k as int) =~= pv);
    let ghost mid = fixed@;
    let mut j: usize = 0;
    assert(sv.take(0) =~= Seq::<Seq<char>>::empty());
    while j < suffixes.len()
        invariant
            sv == text::string_views(suffixes@),
            j <= suffixes@.len(),
            fixed@ == strip_suffixes(mid, sv.take(j as int)),
        decreases suffixes@.len() - j,
    {
        assert(sv.take(j + 1).drop_last() =~= sv.take(j as int));
        assert(sv.take(j + 1).last() == suffixes@[j as int]@);
        let s = text::chars_of(suffixes[j].as_str());
        let n = fixed.len();
        proof {
            if s@.len() <= n {
                let t = fixed@.skip(n - s@.len());
                assert(t.take(s@.len() as int) =~= t);
            }
        }
        if s.len() <= n && text::matches_at(fixed.as_slice(), n - s.len(), s.as_slice()) {
            fixed = text::subrange_chars(fixed.as_slice(), 0, n - s.len());
            assert(fixed@ =~= strip_suffixes(mid, sv.take(j as int)).take(n - s@.len()));
        }
        j = j + 1;
    }
    assert(sv.take(j as int) =~= sv);
    fixed
}

/// The fix: the enum's source with every variant name stripped of the
/// words common to all of them (see `fix_enum_variant_names_upto`).
pub fn fix_enum_variant_names(source: &str, variant_names: &Vec<String>) -> (r: String)
    requires
        !affix_scan_panics(text::string_views(variant_names@)),
    ensures
        r@ == fix_enum_variant_names_upto(source@, text::string_views(variant_names@), variant_names@.len() as nat),
{
    let ghost names = text::string_views(variant_names@);
    let (prefixes, suffixes) = get_prefix_and_suffix(variant_names);
    let mut fixed = text::chars_of(source);
    let mut k: usize = 0;
    while k < variant_names.len()
        invariant
            names == text::string_views(variant_names@),
            (text::string_views(prefixes@), text::string_views(suffixes@)) == prefix_and_suffix_spec(names),
            k <= names.len(),
            fixed@ == fix_enum_variant_names_upto(source@, names, k as nat),
        decreases names.len() - k,
    {
        let v = text::chars_of(variant_names[k].as_str());
        assert(v@ == names[k as int]);
        let stripped = strip_words(v.as_slice(), &prefixes, &suffixes);
        fixed = text::rust_replace_chars(fixed.as_slice(), v.as_slice(), stripped.as_slice());
        k = k + 1;
    }
    text::string_of(fixed.as_slice())
}


/// The words of `p` start the word list `s`.
pub open spec fn is_word_prefix(p: Seq<Seq<char>>, s: Seq<Seq<char>>) -> bool {
    p.len() <= s.len() && s.take(p.len() as int) == p
}

proof fn lemma_common_prefix_is_prefix(a: Seq<Seq<char>>, b: Seq<Seq<char>>)
    ensures
        is_word_prefix(common_prefix(a, b), a),
        is_word_prefix(common_prefix(a, b), b),
    decreases a.len(),
{
    if a.len() == 0 || b.len() == 0 || a[0] != b[0] {
        assert(a.take(0) =~= Seq::<Seq<char>>::empty());
        assert(b.take(0) =~= Seq::<Seq<char>>::empty());
    } else {
        lemma_common_prefix_is_prefix(a.drop_first(), b.drop_first());
        let c = common_prefix(a.drop_first(), b.drop_first());
        assert(a.take(c.len() as int + 1) =~= seq![a[0]] + a.drop_first().take(c.len() as int));
        assert(b.take(c.len() as int + 1) =~= seq![b[0]] + b.drop_first().take(c.len() as int));
    }
}

proof fn lemma_word_prefix_transitive(p: Seq<Seq<char>>, q: Seq<Seq<char>>, s: Seq<Seq<char>>)
    requires
        is_word_prefix(p, q),
        is_word_prefix(q, s),
    ensures
        is_word_prefix(p, s),
{
    assert(s.take(p.len() as int) =~= s.take(q.len() as int).take(p.len() as int));
}

proof fn lemma_affixes_upto_common(names: Seq<Seq<char>>, n: nat, i: int)
    requires
        1 <= n <= names.len(),
        0 <= i < n,
    ensures
        is_word_prefix(affixes_upto(names, n).0, word_split_spec(names[i])),
        is_word_prefix(affixes_upto(names, n).1, word_split_spec(names[i]).reverse()),
    decreases n,
{
    if n == 1 {
        let w = word_split_spec(names[0]);
        assert(w.take(w.len() as int) =~= w);
        assert(w.reverse().take(w.len() as int) =~= w.reverse());
    } else {
        let (p, s) = affixes_upto(names, (n - 1) as nat);
        let w = word_split_spec(names[n - 1]);
        lemma_common_prefix_is_prefix(p, w);
        lemma_common_prefix_is_prefix(s, w.reverse());
        if i < n - 1 {
            lemma_affixes_upto_common(names, (n - 1) as nat, i);
            lemma_word_prefix_transitive(common_prefix(p, w), p, word_split_spec(names[i]));
            lemma_word_prefix_transitive(common_prefix(s, w.reverse()), s, word_split_spec(names[i]).reverse());
        }
    }
}

/// The words that the lint finds common to the starts of the variant names
/// start every one of them, and those it finds common to their ends end
/// every one of them.
pub proof fn lemma_prefix_and_suffix_are_common(names: Seq<Seq<char>>, i: int)
    requires
        0 <= i < names.len(),
    ensures
        is_word_prefix(prefix_and_suffix_spec(names).0, word_split_spec(names[i])),
        is_word_prefix(prefix_and_suffix_spec(names).1, word_split_spec(names[i]).reverse()),
{
    let w = word_split_spec(names[i]);
    assert(w.take(0) =~= Seq::<Seq<char>>::empty());
    assert(w.reverse().take(0) =~= Seq::<Seq<char>>::empty());
    if names.len() > 1 && !(exists|j: int| 1 <= j < names.len() && #[trigger] word_split_spec(names[j]).len() == 1) {
        lemma_affixes_upto_common(names, names.len(), i);
    }
}

proof fn lemma_common_prefix_greatest(q: Seq<Seq<char>>, a: Seq<Seq<char>>, b: Seq<Seq<char>>)
    requires
        is_word_prefix(q, a),
        is_word_prefix(q, b),
    ensures
        is_word_prefix(q, common_prefix(a, b)),
    decreases a.len(),
{
    let c = common_prefix(a, b);
    if q.len() == 0 {
        assert(c.take(0) =~= q);
    } else {
        assert(a.take(q.len() as int)[0] == a[0]);
        assert(b.take(q.len() as int)[0] == b[0]);
        let q1 = q.drop_first();
        assert(a.drop_first().take(q1.len() as int) =~= q1);
        assert(b.drop_first().take(q1.len() as int) =~= q1);
        lemma_common_prefix_greatest(q1, a.drop_first(), b.drop_first());
        let c1 = common_prefix(a.drop_first(), b.drop_first());
        assert(c == seq![a[0]] + c1);
        assert(c.take(q.len() as int) =~= seq![a[0]] + c1.take(q1.len() as int));
        assert(q =~= seq![q[0]] + q1);
    }
}

proof fn lemma_affixes_upto_greatest(names: Seq<Seq<char>>, n: nat, q: Seq<Seq<char>>, qs: Seq<Seq<char>>)
    requires
        1 <= n <= names.len(),
        forall|i: int| 0 <= i < n ==> is_word_prefix(q, #[trigger] word_split_spec(names[i])),
        forall|i: int| 0 <= i < n ==> is_word_prefix(qs, #[trigger] word_split_spec(names[i]).reverse()),
    ensures
        is_word_prefix(q, affixes_upto(names, n).0),
        is_word_prefix(qs, affixes_upto(names, n).1),
    decreases n,
{
    let w = word_split_spec(names[n - 1]);
    assert(is_word_prefix(q, w));
    assert(is_word_prefix(qs, w.reverse()));
    if n > 1 {
        lemma_affixes_upto_greatest(names, (n - 1) as nat, q, qs);
        let (p, s) = affixes_upto(names, (n - 1) as nat);
        lemma_common_prefix_greatest(q, p, w);
        lemma_common_prefix_greatest(qs, s, w.reverse());
    } else {
        assert(word_split_spec(names[0]) == w);
    }
}

proof fn lemma_word_prefix_antisymmetric(a: Seq<Seq<char>>, b: Seq<Seq<char>>)
    requires
        is_word_prefix(a, b),
        is_word_prefix(b, a),
    ensures
        a == b,
{
    assert(b.take(b.len() as int) =~= b);
}

/// The words common to the starts and to the ends of the variant names do
/// not depend on the order of the names, where every name has at least two
/// words.
pub proof fn lemma_prefix_and_suffix_order_free(names: Seq<Seq<char>>, perm: Seq<Seq<char>>)
    requires
        names.len() >= 2,
        perm.to_multiset() == names.to_multiset(),
        forall|i: int| 0 <= i < names.len() ==> #[trigger] word_split_spec(names[i]).len() >= 2,
    ensures
        prefix_and_suffix_spec(perm) == prefix_and_suffix_spec(names),
{
    names.to_multiset_ensures();
    perm.to_multiset_ensures();
    assert forall|i: int| 0 <= i < perm.len() implies exists|j: int| 0 <= j < names.len() && names[j] == #[trigger] perm[i] by {
        assert(perm.contains(perm[i]));
        assert(names.to_multiset().count(perm[i]) > 0);
        assert(names.contains(perm[i]));
    }
    assert forall|j: int| 0 <= j < names.len() implies exists|i: int| 0 <= i < perm.len() && perm[i] == #[trigger] names[j] by {
        assert(names.contains(names[j]));
        assert(perm.to_multiset().count(names[j]) > 0);
        assert(perm.contains(names[j]));
    }
    assert forall|i: int| 0 <= i < perm.len() implies #[trigger] word_split_spec(perm[i]).len() >= 2 by {
        let j = choose|j: int| 0 <= j < names.len() && names[j] == perm[i];
        assert(word_split_spec(names[j]).len() >= 2);
    }
    let n = names.len();
    let (p, s) = affixes_upto(names, n);
    let (pp, ps) = affixes_upto(perm, n);
    assert forall|j: int| 0 <= j < n implies is_word_prefix(pp, #[trigger] word_split_spec(names[j])) by {
        let i = choose|i: int| 0 <= i < perm.len() && perm[i] == names[j];
        lemma_affixes_upto_common(perm, n, i);
    }
    assert forall|j: int| 0 <= j < n implies is_word_prefix(ps, #[trigger] word_split_spec(names[j]).reverse()) by {
        let i = choose|i: int| 0 <= i < perm.len() && perm[i] == names[j];
        lemma_affixes_upto_common(perm, n, i);
    }
    lemma_affixes_upto_greatest(names, n, pp, ps);
    assert forall|i: int| 0 <= i < n implies is_word_prefix(p, #[trigger] word_split_spec(perm[i])) by {
        let j = choose|j: int| 0 <= j < names.len() && names[j] == perm[i];
        lemma_affixes_upto_common(names, n, j);
    }
    assert forall|i: int| 0 <= i < n implies is_word_prefix(s, #[trigger] word_split_spec(perm[i]).reverse()) by {
        let j = choose|j: int| 0 <= j < names.len() && names[j] == perm[i];
        lemma_affixes_upto_common(names, n, j);
    }
    lemma_affixes_upto_greatest(perm, n, p, s);
    lemma_word_prefix_antisymmetric(p, pp);
    lemma_word_prefix_antisymmetric(s, ps);
}

/// The words written one after the other.
pub open spec fn words_text(ws: Seq<Seq<char>>) -> Seq<char>
    decreases ws.len(),
{
    if ws.len() == 0 {
        seq![]
    } else {
        words_text(ws.drop_last()) + ws.last()
    }
}

/// The words written one after the other from the last to the first: how
/// the common suffix words, listed from the last word of a name, stand at
/// its end.
pub open spec fn words_text_reversed(ws: Seq<Seq<char>>) -> Seq<char>
    decreases ws.len(),
{
    if ws.len() == 0 {
        seq![]
    } else {
        ws.last() + words_text_reversed(ws.drop_last())
    }
}

proof fn lemma_strip_written_prefixes(ws: Seq<Seq<char>>, rest: Seq<char>)
    ensures
        strip_prefixes(words_text(ws) + rest, ws) == rest,
    decreases ws.len(),
{
    if ws.len() > 0 {
        let q = ws.drop_last();
        let w = ws.last();
        assert(words_text(ws) + rest =~= words_text(q) + (w + rest));
        lemma_strip_written_prefixes(q, w + rest);
        assert((w + rest).take(w.len() as int) =~= w);
        assert((w + rest).skip(w.len() as int) =~= rest);
    } else {
        assert(words_text(ws) + rest =~= rest);
    }
}

proof fn lemma_strip_written_suffixes(ws: Seq<Seq<char>>, x: Seq<char>)
    ensures
        strip_suffixes(x + words_text_reversed(ws), ws) == x,
    decreases ws.len(),
{
    if ws.len() > 0 {
        let q = ws.drop_last();
        let w = ws.last();
        assert(x + words_text_reversed(ws) =~= (x + w) + words_text_reversed(q));
        lemma_strip_written_suffixes(q, x + w);
        let n = x + w;
        assert(n.skip(n.len() - w.len()) =~= w);
        assert(n.take(n.len() - w.len()) =~= x);
    } else {
        assert(x + words_text_reversed(ws) =~= x);
    }
}

/// The fix removes the common words from each variant name: where a name
/// is written as the common prefix words, then `mid`, then the common
/// suffix words, every occurrence of the name in the text fixed so far is
/// replaced by `mid` alone, both the prefix and the suffix words gone.
pub proof fn lemma_fix_strips_common_words(source: Seq<char>, names: Seq<Seq<char>>, k: int, mid: Seq<char>)
    requires
        0 <= k < names.len(),
        names[k] == words_text(prefix_and_suffix_spec(names).0) + mid
            + words_text_reversed(prefix_and_suffix_spec(names).1),
    ensures
        fix_enum_variant_names_upto(source, names, (k + 1) as nat)
            == text::rust_replace(fix_enum_variant_names_upto(source, names, k as nat), names[k], mid),
{
    let (p, s) = prefix_and_suffix_spec(names);
    assert(names[k] =~= words_text(p) + (mid + words_text_reversed(s)));
    lemma_strip_written_prefixes(p, mid + words_text_reversed(s));
    lemma_strip_written_suffixes(s, mid);
}
} // verus!
