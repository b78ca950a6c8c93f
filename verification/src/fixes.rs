//! Fixes proposed for diagnostics, and their application to a file.
use vstd::prelude::*;
use vstd::utf8::{encode_utf8, decode_utf8, valid_utf8, is_continuation_byte, is_char_boundary};
use itertools::Itertools;

verus! {

/// A replacement of the bytes `span_start..span_end` of a file by `code`.
#[derive(Debug, Clone)]
pub struct Suggestion {
    pub span_start: usize,
    pub span_end: usize,
    pub code: String,
}

/// The fix of one diagnostic: a description and the replacements it makes.
#[derive(Debug, Clone)]
pub struct DiagnosticFixSuggestion {
    pub description: String,
    pub suggestions: Vec<Suggestion>,
}

/// Whether byte position `i` of `b` starts a character or is the end:
/// what `str::is_char_boundary` tests.
pub open spec fn byte_boundary(b: Seq<u8>, i: int) -> bool {
    ||| i == 0
    ||| i == b.len()
    ||| (0 < i < b.len() && !is_continuation_byte(b[i]))
}

/// The bytes of `b` with `start..end` replaced by `code`, or `None` when
/// the range is reversed, out of the text or not on character boundaries.
pub open spec fn replace_bytes(b: Seq<u8>, start: int, end: int, code: Seq<u8>) -> Option<Seq<u8>> {
    if start <= end <= b.len() && byte_boundary(b, start) && byte_boundary(b, end) {
        Some(b.take(start) + code + b.skip(end))
    } else {
        None
    }
}

/// The bytes after applying the suggestions one after the other, or
/// `None` when one of them cannot be applied.
pub open spec fn apply_suggestions_bytes(b: Seq<u8>, sugs: Seq<Suggestion>) -> Option<Seq<u8>>
    decreases sugs.len(),
{
    if sugs.len() == 0 {
        Some(b)
    } else {
        match replace_bytes(b, sugs[0].span_start as int, sugs[0].span_end as int, encode_utf8(sugs[0].code@)) {
            Some(nb) => apply_suggestions_bytes(nb, sugs.drop_first()),
            None => None,
        }
    }
}

/// All suggestions of the fixes, fix after fix.
pub open spec fn all_suggestions(fixes: Seq<DiagnosticFixSuggestion>) -> Seq<Suggestion>
    decreases fixes.len(),
{
    if fixes.len() == 0 {
        seq![]
    } else {
        all_suggestions(fixes.drop_last()) + fixes.last().suggestions@
    }
}

/// The suggestions whose span starts at `k`, in their order.
pub open spec fn starting_at(v: Seq<Suggestion>, k: usize) -> Seq<Suggestion> {
    v.filter(|s: Suggestion| s.span_start == k)
}

/// Spans start in decreasing order.
pub open spec fn sorted_by_start_desc(v: Seq<Suggestion>) -> bool {
    forall|i: int, j: int| 0 <= i < j < v.len() ==> v[i].span_start >= v[j].span_start
}

/// `Itertools::sorted_by_key` with the key `Reverse(span_start)`: a stable
/// sort, so spans come in decreasing order of start and the suggestions
/// that share a start keep their relative order.
#[verifier::external_body]
fn sort_by_start_desc(v: Vec<Suggestion>) -> (r: Vec<Suggestion>)
    ensures
        sorted_by_start_desc(r@),
        forall|k: usize| #[trigger] starting_at(r@, k) == starting_at(v@, k),
{
    v.into_iter().sorted_by_key(|s| std::cmp::Reverse(s.span_start)).collect()
}

/// The bytes of a string slice.
pub(crate) fn bytes_of(s: &str) -> (r: Vec<u8>)
    ensures
        r@ == encode_utf8(s@),
{
    let b = s.as_bytes();
    let mut r: Vec<u8> = Vec::new();
    let mut i: usize = 0;
    while i < b.len()
        invariant
            b@ == encode_utf8(s@),
            i <= b@.len(),
            r@ == b@.take(i as int),
        decreases b@.len() - i,
    {
        r.push(b[i]);
        assert(b@.take(i + 1) =~= b@.take(i as int).push(b@[i as int]));
        i = i + 1;
    }
    assert(b@.take(b@.len() as int) =~= b@);
    r
}

/// `String::from_utf8`: a string exactly when the bytes are valid UTF-8,
/// holding the characters they encode.
#[verifier::external_body]
pub(crate) fn string_from_utf8(b: Vec<u8>) -> (r: Option<String>)
    ensures
        r is Some <==> valid_utf8(b@),
        r matches Some(s) ==> s@ == decode_utf8(b@),
{
    String::from_utf8(b).ok()
}

/// Whether byte position `i` of `b` starts a character or is the end.
fn is_boundary(b: &Vec<u8>, i: usize) -> (r: bool)
    ensures
        r == byte_boundary(b@, i as int),
{
    if i == 0 {
        true
    } else if i == b.len() {
        true
    } else if i < b.len() {
        !(0x80 <= b[i] && b[i] <= 0xbf)
    } else {
        false
    }
}

pub(crate) proof fn lemma_boundary_valid(b: Seq<u8>, i: int)
    requires
        valid_utf8(b),
        byte_boundary(b, i),
        0 <= i <= b.len(),
    ensures
        is_char_boundary(b, i),
{
    vstd::utf8::is_char_boundary_start_end_of_seq(b);
    if 0 < i < b.len() {
        vstd::utf8::is_char_boundary_iff_not_is_continuation_byte(b, i);
    }
}

/// Replaces bytes `start..end` of `b` by `code`, keeping the bytes valid
/// UTF-8.
fn splice(b: &Vec<u8>, start: usize, end: usize, code: &Vec<u8>) -> (r: Vec<u8>)
    requires
        start <= end <= b@.len(),
        byte_boundary(b@, start as int),
        byte_boundary(b@, end as int),
        valid_utf8(b@),
        valid_utf8(code@),
    ensures
        r@ == b@.take(start as int) + code@ + b@.skip(end as int),
        valid_utf8(r@),
{
    let mut r: Vec<u8> = Vec::new();
    let mut i: usize = 0;
    while i < start
        invariant
            start <= b@.len(),
            i <= start,
            r@ == b@.take(i as int),
        decreases start - i,
    {
        r.push(b[i]);
        assert(b@.take(i + 1) =~= b@.take(i as int).push(b@[i as int]));
        i = i + 1;
    }
    let mut k: usize = 0;
    while k < code.len()
        invariant
            k <= code@.len(),
            r@ == b@.take(start as int) + code@.take(k as int),
        decreases code@.len() - k,
    {
        r.push(code[k]);
        assert(code@.take(k + 1) =~= code@.take(k as int).push(code@[k as int]));
        k = k + 1;
    }
    assert(code@.take(code@.len() as int) =~= code@);
    let mut j: usize = end;
    while j < b.len()
        invariant
            end <= j <= b@.len(),
            r@ == b@.take(start as int) + code@ + b@.subrange(end as int, j as int),
        decreases b@.len() - j,
    {
        r.push(b[j]);
        assert(b@.subrange(end as int, j + 1) =~= b@.subrange(end as int, j as int).push(b@[j as int]));
        j = j + 1;
    }
    assert(b@.subrange(end as int, b@.len() as int) =~= b@.skip(end as int));
    proof {
        lemma_boundary_valid(b@, start as int);
        lemma_boundary_valid(b@, end as int);
        vstd::utf8::valid_utf8_split(b@, start as int);
        vstd::utf8::valid_utf8_split(b@, end as int);
        assert(b@.subrange(0, start as int) =~= b@.take(start as int));
        vstd::utf8::valid_utf8_concat(b@.take(start as int), code@);
        vstd::utf8::valid_utf8_concat(b@.take(start as int) + code@, b@.skip(end as int));
    }
    r
}

/// Why a fix cannot be applied.
#[derive(Debug, Clone, Copy, PartialEq, Eq, Structural)]
pub enum FixError {
    /// A replaced range is reversed, goes past the end of the text, or does
    /// not start and end on character boundaries.
    InvalidSpan,
}

/// Applies the suggestions one after the other to the text.
pub fn apply_suggestions(content: &str, suggestions: &Vec<Suggestion>) -> (r: Result<String, FixError>)
    ensures
        match apply_suggestions_bytes(encode_utf8(content@), suggestions@) {
            Some(b) => r matches Ok(s) && encode_utf8(s@) == b,
            None => r == Err::<String, FixError>(FixError::InvalidSpan),
        },
{
    let mut b = bytes_of(content);
    proof {
        vstd::utf8::encode_utf8_valid_utf8(content@);
    }
    let mut i: usize = 0;
    let ghost sugs = suggestions@;
    assert(sugs.skip(0) =~= sugs);
    while i < suggestions.len()
        invariant
            sugs == suggestions@,
            i <= sugs.len(),
            valid_utf8(b@),
            apply_suggestions_bytes(encode_utf8(content@), sugs) == apply_suggestions_bytes(b@, sugs.skip(i as int)),
        decreases sugs.len() - i,
    {
        let s = &suggestions[i];
        let ghost rest = sugs.skip(i as int);
        assert(rest[0] == *s);
        assert(rest.drop_first() =~= sugs.skip(i + 1));
        if !(s.span_start <= s.span_end && s.span_end <= b.len() && is_boundary(&b, s.span_start)
            && is_boundary(&b, s.span_end)) {
            return Err(FixError::InvalidSpan);
        }
        let code = bytes_of(s.code.as_str());
        proof {
            vstd::utf8::encode_utf8_valid_utf8(s.code@);
        }
        b = splice(&b, s.span_start, s.span_end, &code);
        i = i + 1;
    }
    assert(sugs.skip(i as int).len() == 0);
    proof {
        vstd::utf8::decode_utf8_encode_utf8(b@);
    }
    match string_from_utf8(b) {
        Some(s) => Ok(s),
        None => Err(FixError::InvalidSpan),
    }
}

/// All suggestions of the fixes, fix after fix.
pub fn flatten_suggestions(fixes: &Vec<DiagnosticFixSuggestion>) -> (r: Vec<Suggestion>)
    ensures
        r@ == all_suggestions(fixes@),
{
    let mut r: Vec<Suggestion> = Vec::new();
    let mut i: usize = 0;
    assert(fixes@.take(0) =~= Seq::<DiagnosticFixSuggestion>::empty());
    while i < fixes.len()
        invariant
            i <= fixes@.len(),
            r@ == all_suggestions(fixes@.take(i as int)),
        decreases fixes@.len() - i,
    {
        let sugs = &fixes[i].suggestions;
        let mut k: usize = 0;
        let ghost r0 = r@;
        while k < sugs.len()
            invariant
                k <= sugs@.len(),
                r@ == r0 + sugs@.take(k as int),
            decreases sugs@.len() - k,
        {
            let s = &sugs[k];
            let c = Suggestion { span_start: s.span_start, span_end: s.span_end, code: s.code.clone() };
            r.push(c);
            assert(sugs@.take(k + 1) =~= sugs@.take(k as int).push(sugs@[k as int]));
            k = k + 1;
        }
        assert(sugs@.take(sugs@.len() as int) =~= sugs@);
        assert(fixes@.take(i + 1).drop_last() =~= fixes@.take(i as int));
        i = i + 1;
    }
    assert(fixes@.take(fixes@.len() as int) =~= fixes@);
    r
}

/// The text of a file after applying fixes: all their suggestions, sorted
/// by decreasing start of span (suggestions sharing a start keep their
/// order), are applied one after the other, so that a replacement does not
/// move the spans of those that come before it in the file.
pub fn apply_fixes_to_content(content: &str, fixes: &Vec<DiagnosticFixSuggestion>) -> (r: Result<String, FixError>)
    ensures
        exists|sorted: Seq<Suggestion>| {
            &&& sorted_by_start_desc(sorted)
            &&& forall|k: usize| #[trigger] starting_at(sorted, k) == starting_at(all_suggestions(fixes@), k)
            &&& match apply_suggestions_bytes(encode_utf8(content@), sorted) {
                Some(b) => r matches Ok(s) && encode_utf8(s@) == b,
                None => r == Err::<String, FixError>(FixError::InvalidSpan),
            }
        },
{
    let all = flatten_suggestions(fixes);
    let sorted = sort_by_start_desc(all);
    let r = apply_suggestions(content, &sorted);
    assert(forall|k: usize| #[trigger] starting_at(sorted@, k) == starting_at(all_suggestions(fixes@), k));
    r
}


/// The settings of the Cairo formatter, as plain values; each breaking
/// behaviour is `true` for one element per line.
#[derive(Debug, Clone, Copy, PartialEq, Eq, Structural)]
pub struct FormatSettings {
    pub tab_size: usize,
    pub max_line_length: usize,
    pub sort_module_level_items: bool,
    pub tuple_line_by_line: bool,
    pub fixed_array_line_by_line: bool,
    pub macro_call_line_by_line: bool,
    pub merge_use_items: bool,
    pub allow_duplicate_uses: bool,
}

/// What the Cairo formatter makes of a text with the given settings.
pub uninterp spec fn formatted_cairo(
    content: Seq<char>,
    tab_size: usize,
    max_line_length: usize,
    sort_module_level_items: bool,
    tuple_line_by_line: bool,
    fixed_array_line_by_line: bool,
    macro_call_line_by_line: bool,
    merge_use_items: bool,
    allow_duplicate_uses: bool,
) -> Seq<char>;

/// The text formatted with the settings.
pub open spec fn formatted_with(content: Seq<char>, f: FormatSettings) -> Seq<char> {
    formatted_cairo(content, f.tab_size, f.max_line_length, f.sort_module_level_items, f.tuple_line_by_line,
        f.fixed_array_line_by_line, f.macro_call_line_by_line, f.merge_use_items, f.allow_duplicate_uses)
}

/// Formats a text as a Cairo file: `cairo_lang_formatter::get_formatted_file`
/// on the text parsed as a virtual file, with the settings. What it gives
/// is named `formatted_cairo`: it depends on the text and the settings
/// alone; nothing more of it is stated here.
#[verifier::external_body]
pub fn format_fixed_file(settings: &FormatSettings, content: &str) -> (r: String)
    ensures
        r@ == formatted_cairo(content@, settings.tab_size, settings.max_line_length,
            settings.sort_module_level_items, settings.tuple_line_by_line, settings.fixed_array_line_by_line,
            settings.macro_call_line_by_line, settings.merge_use_items, settings.allow_duplicate_uses),
{
    let config = cairo_lang_formatter::FormatterConfig::new(
        settings.tab_size, settings.max_line_length, settings.sort_module_level_items,
        cairo_lang_formatter::BreakingBehaviorConfig {
            tuple: settings.tuple_line_by_line.into(), fixed_array: settings.fixed_array_line_by_line.into(),
            macro_call: settings.macro_call_line_by_line.into(),
        }, settings.merge_use_items, settings.allow_duplicate_uses);
    let db = cairo_lang_parser::utils::SimpleParserDatabase::default();
    let (root, _) = db.parse_virtual_with_diagnostics(content);
    cairo_lang_formatter::get_formatted_file(&db, &root, config)
}

/// The new content of a file: the fixes applied (see
/// `apply_fixes_to_content`), then the result formatted.
pub fn fix_file_content(content: &str, fixes: &Vec<DiagnosticFixSuggestion>, settings: &FormatSettings) -> (r: Result<String, FixError>)
    ensures
        exists|sorted: Seq<Suggestion>| {
            &&& sorted_by_start_desc(sorted)
            &&& forall|k: usize| #[trigger] starting_at(sorted, k) == starting_at(all_suggestions(fixes@), k)
            &&& match apply_suggestions_bytes(encode_utf8(content@), sorted) {
                Some(b) => r matches Ok(s) && s@ == formatted_with(decode_utf8(b), *settings),
                None => r == Err::<String, FixError>(FixError::InvalidSpan),
            }
        },
{
    let all = flatten_suggestions(fixes);
    let sorted = sort_by_start_desc(all);
    let applied = apply_suggestions(content, &sorted);
    assert(forall|k: usize| #[trigger] starting_at(sorted@, k) == starting_at(all_suggestions(fixes@), k));
    match applied {
        Ok(s) => {
            proof {
                vstd::utf8::encode_utf8_decode_utf8(s@);
            }
            Ok(format_fixed_file(settings, s.as_str()))
        },
        Err(e) => Err(e),
    }
}
} // verus!
