//! Character-sequence operations used by the fixes, with their meaning
//! stated over `Seq<char>`.
use vstd::prelude::*;

verus! {

/// The characters with the Unicode `White_Space` property.
pub open spec fn is_ws(c: char) -> bool {
    let u = c as u32;
    ||| 0x09 <= u <= 0x0D
    ||| u == 0x20
    ||| u == 0x85
    ||| u == 0xA0
    ||| u == 0x1680
    ||| 0x2000 <= u <= 0x200A
    ||| u == 0x2028
    ||| u == 0x2029
    ||| u == 0x202F
    ||| u == 0x205F
    ||| u == 0x3000
}

/// Whether the character has the Unicode `White_Space` property (what
/// `char::is_whitespace` tests), by its code point.
pub fn char_is_whitespace(c: char) -> (r: bool)
    ensures
        r == is_ws(c),
{
    let u = c as u32;
    (0x09 <= u && u <= 0x0D) || u == 0x20 || u == 0x85 || u == 0xA0 || u == 0x1680
        || (0x2000 <= u && u <= 0x200A) || u == 0x2028 || u == 0x2029 || u == 0x202F || u == 0x205F
        || u == 0x3000
}

/// The characters of a string slice, in order.
pub fn chars_of(s: &str) -> (r: Vec<char>)
    ensures
        r@ == s@,
{
    broadcast use vstd::string::axiom_spec_iter;
    let mut r: Vec<char> = Vec::new();
    for c in it: s.chars()
        invariant
            it.seq() == s@,
            r@ == it.seq().take(it.index() as int),
    {
        r.push(c);
    }
    assert(r@ =~= s@);
    r
}

/// A string made of the given characters, in order.
#[verifier::external_body]
pub fn string_of(v: &[char]) -> (r: String)
    ensures
        r@ == v@,
{
    v.iter().collect()
}

/// `==` on string slices: equal exactly when they hold the same characters.
pub fn str_eq(a: &str, b: &str) -> (r: bool)
    ensures
        r == (a@ == b@),
{
    let ca = chars_of(a);
    let cb = chars_of(b);
    if ca.len() != cb.len() {
        return false;
    }
    let mut k: usize = 0;
    while k < ca.len()
        invariant
            ca@ == a@,
            cb@ == b@,
            ca@.len() == cb@.len(),
            k <= ca@.len(),
            forall|i: int| 0 <= i < k ==> ca@[i] == cb@[i],
        decreases ca@.len() - k,
    {
        if ca[k] != cb[k] {
            return false;
        }
        k = k + 1;
    }
    assert(ca@ =~= cb@);
    true
}

/// `s` without its leading whitespace.
pub open spec fn trim_start(s: Seq<char>) -> Seq<char>
    decreases s.len(),
{
    if s.len() > 0 && is_ws(s[0]) {
        trim_start(s.drop_first())
    } else {
        s
    }
}

/// `s` without its trailing whitespace.
pub open spec fn trim_end(s: Seq<char>) -> Seq<char>
    decreases s.len(),
{
    if s.len() > 0 && is_ws(s.last()) {
        trim_end(s.drop_last())
    } else {
        s
    }
}

/// `s` without leading and trailing whitespace.
pub open spec fn trim(s: Seq<char>) -> Seq<char> {
    trim_end(trim_start(s))
}

/// Trimming never lengthens a sequence.
pub proof fn lemma_trim_len(s: Seq<char>)
    ensures
        trim_start(s).len() <= s.len(),
        trim_end(s).len() <= s.len(),
        trim(s).len() <= s.len(),
    decreases s.len(),
{
    if s.len() > 0 && is_ws(s[0]) {
        lemma_trim_len(s.drop_first());
    }
    if s.len() > 0 && is_ws(s.last()) {
        lemma_trim_len(s.drop_last());
    }
    lemma_trim_end_len(trim_start(s));
}

proof fn lemma_trim_end_len(s: Seq<char>)
    ensures
        trim_end(s).len() <= s.len(),
    decreases s.len(),
{
    if s.len() > 0 && is_ws(s.last()) {
        lemma_trim_end_len(s.drop_last());
    }
}

/// Where `find` finds `p`, it lies within `s`.
pub proof fn lemma_find_bounds(s: Seq<char>, p: Seq<char>)
    ensures
        find(s, p) matches Some(i) ==> 0 <= i && i + p.len() <= s.len(),
    decreases s.len(),
{
    if s.len() >= p.len() && !has_prefix(s, p) && s.len() > 0 {
        lemma_find_bounds(s.drop_first(), p);
    }
}

/// The leading whitespace of `s`.
pub open spec fn leading_ws(s: Seq<char>) -> Seq<char>
    decreases s.len(),
{
    if s.len() > 0 && is_ws(s[0]) {
        seq![s[0]] + leading_ws(s.drop_first())
    } else {
        seq![]
    }
}

/// The trailing whitespace of `s`.
pub open spec fn trailing_ws(s: Seq<char>) -> Seq<char>
    decreases s.len(),
{
    if s.len() > 0 && is_ws(s.last()) {
        trailing_ws(s.drop_last()).push(s.last())
    } else {
        seq![]
    }
}

/// Number of whitespace characters at the start of `s`.
pub fn leading_ws_len(s: &[char]) -> (n: usize)
    ensures
        n == leading_ws(s@).len(),
        n <= s@.len(),
        s@.skip(n as int) == trim_start(s@),
        s@.take(n as int) == leading_ws(s@),
{
    let mut i: usize = 0;
    assert(s@.skip(0) =~= s@);
    assert(s@.take(0) + leading_ws(s@) =~= leading_ws(s@));
    while i < s.len() && char_is_whitespace(s[i])
        invariant
            i <= s@.len(),
            forall|k: int| 0 <= k < i ==> is_ws(#[trigger] s@[k]),
            leading_ws(s@) == s@.take(i as int) + leading_ws(s@.skip(i as int)),
            trim_start(s@) == trim_start(s@.skip(i as int)),
        decreases s@.len() - i,
    {
        assert(s@.skip(i as int).drop_first() =~= s@.skip(i + 1));
        assert(s@.take(i as int) + seq![s@[i as int]] =~= s@.take(i + 1));
        assert(s@.skip(i as int)[0] == s@[i as int]);
        i = i + 1;
    }
    if i < s.len() {
        assert(s@.skip(i as int)[0] == s@[i as int]);
    } else {
        assert(s@.skip(i as int) =~= Seq::<char>::empty());
    }
    assert(s@.take(i as int) + seq![] =~= s@.take(i as int));
    i
}

/// Whether `s` starts with `p`.
pub open spec fn has_prefix(s: Seq<char>, p: Seq<char>) -> bool {
    p.len() <= s.len() && s.take(p.len() as int) == p
}

/// Whether `s` ends with `p`.
pub open spec fn has_suffix(s: Seq<char>, p: Seq<char>) -> bool {
    p.len() <= s.len() && s.skip(s.len() - p.len()) == p
}

/// Index of the first occurrence of `p` in `s`, if any.
pub open spec fn find(s: Seq<char>, p: Seq<char>) -> Option<int>
    decreases s.len(),
{
    if s.len() < p.len() {
        None
    } else if has_prefix(s, p) {
        Some(0)
    } else if s.len() == 0 {
        None
    } else {
        match find(s.drop_first(), p) {
            Some(i) => Some(i + 1),
            None => None,
        }
    }
}

/// Whether `p` occurs in `s`.
pub open spec fn contains(s: Seq<char>, p: Seq<char>) -> bool {
    find(s, p) is Some
}

/// `s` with every non-overlapping occurrence of `from`, taken from left to
/// right, replaced by `to`.
pub open spec fn replace(s: Seq<char>, from: Seq<char>, to: Seq<char>) -> Seq<char>
    decreases s.len(),
{
    if from.len() == 0 || s.len() < from.len() {
        s
    } else if has_prefix(s, from) {
        to + replace(s.skip(from.len() as int), from, to)
    } else {
        seq![s[0]] + replace(s.drop_first(), from, to)
    }
}

/// `s` cut at every non-overlapping occurrence of `sep`, taken from left
/// to right; there is always at least one piece.
pub open spec fn split(s: Seq<char>, sep: Seq<char>) -> Seq<Seq<char>>
    decreases s.len(),
{
    if sep.len() == 0 || s.len() < sep.len() {
        seq![s]
    } else if has_prefix(s, sep) {
        seq![Seq::<char>::empty()] + split(s.skip(sep.len() as int), sep)
    } else {
        let rest = split(s.drop_first(), sep);
        rest.update(0, seq![s[0]] + rest[0])
    }
}

/// The pieces joined with `sep` between consecutive ones.
pub open spec fn join(parts: Seq<Seq<char>>, sep: Seq<char>) -> Seq<char>
    decreases parts.len(),
{
    if parts.len() == 0 {
        seq![]
    } else if parts.len() == 1 {
        parts[0]
    } else {
        join(parts.drop_last(), sep) + sep + parts.last()
    }
}

/// `s` repeated `n` times.
pub open spec fn repeat(s: Seq<char>, n: nat) -> Seq<char>
    decreases n,
{
    if n == 0 {
        seq![]
    } else {
        repeat(s, (n - 1) as nat) + s
    }
}

/// The views of a sequence of character vectors.
pub open spec fn views(v: Seq<Vec<char>>) -> Seq<Seq<char>> {
    Seq::new(v.len(), |i: int| v[i]@)
}

pub proof fn lemma_split_nonempty(s: Seq<char>, sep: Seq<char>)
    ensures
        split(s, sep).len() >= 1,
    decreases s.len(),
{
    if sep.len() == 0 || s.len() < sep.len() {
    } else if has_prefix(s, sep) {
        lemma_split_nonempty(s.skip(sep.len() as int), sep);
    } else {
        lemma_split_nonempty(s.drop_first(), sep);
    }
}

/// Whether `p` occurs in `s` at position `i`.
pub fn matches_at(s: &[char], i: usize, p: &[char]) -> (r: bool)
    requires
        i <= s@.len(),
    ensures
        r == has_prefix(s@.skip(i as int), p@),
{
    let n = s.len();
    if p.len() > n - i {
        return false;
    }
    let mut k: usize = 0;
    while k < p.len()
        invariant
            n == s@.len(),
            i + p@.len() <= n,
            k <= p@.len(),
            forall|j: int| 0 <= j < k ==> s@[i + j] == p@[j],
        decreases p@.len() - k,
    {
        if s[i + k] != p[k] {
            assert(s@.skip(i as int).take(p@.len() as int)[k as int] == s@[i + k]);
            return false;
        }
        k = k + 1;
    }
    assert(s@.skip(i as int).take(p@.len() as int) =~= p@);
    true
}

/// Index of the first occurrence of `p` in `s`.
pub fn find_chars(s: &[char], p: &[char]) -> (r: Option<usize>)
    ensures
        match find(s@, p@) {
            Some(i) => r == Some(i as usize),
            None => r is None,
        },
{
    if p.len() == 0 {
        assert(s@.take(0) =~= p@);
        return Some(0);
    }
    let mut i: usize = 0;
    assert(s@.skip(0) =~= s@);
    while i <= s.len()
        invariant
            i <= s@.len() + 1,
            i <= s@.len() ==> find(s@, p@) == (match find(s@.skip(i as int), p@) {
                Some(j) => Some(j + i),
                None => None::<int>,
            }),
            i > s@.len() ==> find(s@, p@) is None,
            p@.len() > 0,
        decreases s@.len() + 1 - i,
    {
        let t = Ghost(s@.skip(i as int));
        if p.len() > s.len() - i {
            return None;
        }
        assert(t@.take(0) =~= Seq::<char>::empty());
        if matches_at(s, i, p) {
            return Some(i);
        }
        assert(t@.len() > 0);
        assert(t@.drop_first() =~= s@.skip(i + 1));
        i = i + 1;
    }
    None
}

/// Whether `p` occurs in `s`.
pub fn contains_chars(s: &[char], p: &[char]) -> (r: bool)
    ensures
        r == contains(s@, p@),
{
    find_chars(s, p).is_some()
}

/// Appends the elements of `src` to `dst`.
pub fn push_all(dst: &mut Vec<char>, src: &[char])
    ensures
        final(dst)@ == old(dst)@ + src@,
{
    let mut k: usize = 0;
    while k < src.len()
        invariant
            k <= src@.len(),
            dst@ == old(dst)@ + src@.take(k as int),
        decreases src@.len() - k,
    {
        dst.push(src[k]);
        assert(src@.take(k + 1) =~= src@.take(k as int).push(src@[k as int]));
        k = k + 1;
    }
    assert(src@.take(src@.len() as int) =~= src@);
}

/// The characters of an optional string.
pub open spec fn opt_view(o: Option<String>) -> Option<Seq<char>> {
    match o {
        Some(s) => Some(s@),
        None => None,
    }
}

/// The character sequences of a sequence of strings.
pub open spec fn string_views(v: Seq<String>) -> Seq<Seq<char>> {
    Seq::new(v.len(), |i: int| v[i]@)
}

/// Appends the characters of `s` to `dst`.
pub fn push_str(dst: &mut Vec<char>, s: &str)
    ensures
        final(dst)@ == old(dst)@ + s@,
{
    let c = chars_of(s);
    push_all(dst, c.as_slice());
}

/// Appends the characters of `s`, without surrounding whitespace, to `dst`.
pub fn push_trimmed(dst: &mut Vec<char>, s: &str)
    ensures
        final(dst)@ == old(dst)@ + trim(s@),
{
    let c = chars_of(s);
    let t = trim_chars(c.as_slice());
    push_all(dst, t.as_slice());
}

/// Replaces every non-overlapping occurrence of `from` by `to`.
pub fn replace_chars(s: &[char], from: &[char], to: &[char]) -> (r: Vec<char>)
    ensures
        r@ == replace(s@, from@, to@),
{
    if from.len() == 0 {
        let mut r = Vec::new();
        push_all(&mut r, s);
        return r;
    }
    let mut r: Vec<char> = Vec::new();
    let mut i: usize = 0;
    assert(s@.skip(0) =~= s@);
    while i < s.len() && from.len() <= s.len() - i
        invariant
            from@.len() > 0,
            i <= s@.len(),
            r@ + replace(s@.skip(i as int), from@, to@) == replace(s@, from@, to@),
        decreases s@.len() - i,
    {
        let t = Ghost(s@.skip(i as int));
        if matches_at(s, i, from) {
            let ghost r0 = r@;
            push_all(&mut r, to);
            assert(t@.skip(from@.len() as int) =~= s@.skip(i + from@.len()));
            let ghost rest = replace(s@.skip(i + from@.len()), from@, to@);
            assert(r@ + rest =~= r0 + (to@ + rest));
            i = i + from.len();
        } else {
            let ghost r0 = r@;
            r.push(s[i]);
            assert(t@.drop_first() =~= s@.skip(i + 1));
            assert(t@[0] == s@[i as int]);
            let ghost rest = replace(s@.skip(i + 1), from@, to@);
            assert(r@ + rest =~= r0 + (seq![s@[i as int]] + rest));
            i = i + 1;
        }
    }
    let tail = Ghost(s@.skip(i as int));
    assert(replace(tail@, from@, to@) == tail@);
    let mut k = i;
    while k < s.len()
        invariant
            i <= k <= s@.len(),
            r@ + s@.subrange(k as int, s@.len() as int) == replace(s@, from@, to@),
        decreases s@.len() - k,
    {
        assert(s@.subrange(k as int, s@.len() as int) =~= seq![s@[k as int]] + s@.subrange(k + 1, s@.len() as int));
        r.push(s[k]);
        k = k + 1;
    }
    assert(s@.subrange(k as int, s@.len() as int) =~= Seq::<char>::empty());
    assert(r@ + Seq::<char>::empty() =~= r@);
    r
}

/// Number of whitespace characters at the end of `s`.
pub fn trailing_ws_len(s: &[char]) -> (m: usize)
    ensures
        m <= s@.len(),
        s@.take(s@.len() - m) == trim_end(s@),
        s@.skip(s@.len() - m) == trailing_ws(s@),
{
    let n = s.len();
    let mut e: usize = n;
    assert(s@.take(n as int) =~= s@);
    assert(s@.take(n as int) + trailing_ws(s@).skip(0) =~= s@.take(n as int) + trailing_ws(s@));
    assert(s@.skip(n as int) =~= Seq::<char>::empty());
    while e > 0 && char_is_whitespace(s[e - 1])
        invariant
            n == s@.len(),
            e <= n,
            trim_end(s@) == trim_end(s@.take(e as int)),
            trailing_ws(s@) == trailing_ws(s@.take(e as int)) + s@.skip(e as int),
        decreases e,
    {
        let ghost t = s@.take(e as int);
        assert(t.drop_last() =~= s@.take(e - 1));
        assert(t.last() == s@[e - 1]);
        assert(s@.skip(e - 1) =~= seq![s@[e - 1]] + s@.skip(e as int));
        assert(trailing_ws(t) == trailing_ws(t.drop_last()).push(t.last()));
        assert(trailing_ws(s@.take(e - 1)).push(s@[e - 1]) + s@.skip(e as int) =~= trailing_ws(s@.take(e - 1)) + s@.skip(e - 1));
        e = e - 1;
    }
    if e > 0 {
        assert(s@.take(e as int).last() == s@[e - 1]);
    } else {
        assert(s@.take(0) =~= Seq::<char>::empty());
    }
    assert(trailing_ws(s@.take(e as int)) =~= Seq::<char>::empty());
    assert(Seq::<char>::empty() + s@.skip(e as int) =~= s@.skip(e as int));
    n - e
}

/// The characters of `s` from position `a` to position `b`.
pub fn subrange_chars(s: &[char], a: usize, b: usize) -> (r: Vec<char>)
    requires
        a <= b <= s@.len(),
    ensures
        r@ == s@.subrange(a as int, b as int),
{
    let mut r: Vec<char> = Vec::new();
    let mut k = a;
    while k < b
        invariant
            a <= k <= b <= s@.len(),
            r@ == s@.subrange(a as int, k as int),
        decreases b - k,
    {
        r.push(s[k]);
        assert(s@.subrange(a as int, k + 1) =~= s@.subrange(a as int, k as int).push(s@[k as int]));
        k = k + 1;
    }
    r
}

/// `s` without leading whitespace.
pub fn trim_start_chars(s: &[char]) -> (r: Vec<char>)
    ensures
        r@ == trim_start(s@),
{
    let n = leading_ws_len(s);
    assert(s@.subrange(n as int, s@.len() as int) =~= s@.skip(n as int));
    subrange_chars(s, n, s.len())
}

/// `s` without trailing whitespace.
pub fn trim_end_chars(s: &[char]) -> (r: Vec<char>)
    ensures
        r@ == trim_end(s@),
{
    let m = trailing_ws_len(s);
    assert(s@.subrange(0, s@.len() - m) =~= s@.take(s@.len() - m));
    subrange_chars(s, 0, s.len() - m)
}

/// `s` without leading and trailing whitespace.
pub fn trim_chars(s: &[char]) -> (r: Vec<char>)
    ensures
        r@ == trim(s@),
{
    let t = trim_start_chars(s);
    trim_end_chars(t.as_slice())
}

/// Splits `s` at every non-overlapping occurrence of `sep`.
pub fn split_chars(s: &[char], sep: &[char]) -> (r: Vec<Vec<char>>)
    requires
        sep@.len() > 0,
    ensures
        views(r@) == split(s@, sep@),
{
    let mut pieces: Vec<Vec<char>> = Vec::new();
    let mut cur: Vec<char> = Vec::new();
    let mut i: usize = 0;
    assert(s@.skip(0) =~= s@);
    proof { lemma_split_nonempty(s@, sep@); }
    assert(split(s@, sep@) =~= views(pieces@) + split(s@.skip(0), sep@).update(0, cur@ + split(s@.skip(0), sep@)[0]));
    while i < s.len() && sep.len() <= s.len() - i
        invariant
            sep@.len() > 0,
            i <= s@.len(),
            split(s@, sep@) == views(pieces@) + split(s@.skip(i as int), sep@).update(
                0,
                cur@ + split(s@.skip(i as int), sep@)[0],
            ),
        decreases s@.len() - i,
    {
        let ghost t = s@.skip(i as int);
        proof { lemma_split_nonempty(t, sep@); }
        if matches_at(s, i, sep) {
            let ghost rest = split(s@.skip(i + sep@.len()), sep@);
            assert(t.skip(sep@.len() as int) =~= s@.skip(i + sep@.len()));
            proof { lemma_split_nonempty(s@.skip(i + sep@.len()), sep@); }
            let ghost old_pieces = views(pieces@);
            let ghost old_cur = cur@;
            pieces.push(cur);
            cur = Vec::new();
            assert(views(pieces@) =~= old_pieces.push(old_cur));
            assert(split(t, sep@) == seq![Seq::<char>::empty()] + rest);
            assert(rest.update(0, cur@ + rest[0]) =~= rest);
            assert(split(t, sep@).update(0, old_cur + split(t, sep@)[0]) =~= seq![old_cur] + rest);
            assert(old_pieces + (seq![old_cur] + rest) =~= views(pieces@) + rest);
            i = i + sep.len();
        } else {
            let ghost rest = split(t.drop_first(), sep@);
            assert(t.drop_first() =~= s@.skip(i + 1));
            assert(t[0] == s@[i as int]);
            proof { lemma_split_nonempty(t.drop_first(), sep@); }
            let ghost old_cur = cur@;
            cur.push(s[i]);
            assert(split(t, sep@) == rest.update(0, seq![t[0]] + rest[0]));
            assert(split(t, sep@)[0] == seq![t[0]] + rest[0]);
            assert(old_cur + (seq![t[0]] + rest[0]) =~= cur@ + rest[0]);
            assert(split(t, sep@).update(0, old_cur + split(t, sep@)[0]) =~= rest.update(0, cur@ + rest[0]));
            i = i + 1;
        }
    }
    let ghost t = s@.skip(i as int);
    assert(split(t, sep@) == seq![t]);
    let n = s.len();
    let rest = subrange_chars(s, i, n);
    assert(rest@ =~= t);
    let ghost old_pieces = views(pieces@);
    push_all(&mut cur, rest.as_slice());
    pieces.push(cur);
    assert(seq![t].update(0, cur@.subrange(0, cur@.len() - t.len()) + t) =~= seq![cur@]) by {
        assert(cur@.subrange(0, cur@.len() - t.len()) + t =~= cur@);
    };
    assert(views(pieces@) =~= old_pieces.push(cur@));
    pieces
}

/// Joins the pieces with `sep` between consecutive ones.
pub fn join_chars(parts: &[Vec<char>], sep: &[char]) -> (r: Vec<char>)
    ensures
        r@ == join(views(parts@), sep@),
{
    let mut r: Vec<char> = Vec::new();
    let mut k: usize = 0;
    assert(views(parts@).take(0) =~= Seq::<Seq<char>>::empty());
    while k < parts.len()
        invariant
            k <= parts@.len(),
            r@ == join(views(parts@).take(k as int), sep@),
        decreases parts@.len() - k,
    {
        let ghost prev = views(parts@).take(k as int);
        let ghost next = views(parts@).take(k + 1);
        assert(next.drop_last() =~= prev);
        assert(next.last() == parts@[k as int]@);
        if k > 0 {
            push_all(&mut r, sep);
        } else {
            assert(r@ =~= Seq::<char>::empty());
        }
        push_all(&mut r, parts[k].as_slice());
        if k == 0 {
            assert(r@ =~= parts@[0]@);
        }
        k = k + 1;
    }
    assert(views(parts@).take(parts@.len() as int) =~= views(parts@));
    r
}

/// `s` repeated `n` times.
pub fn repeat_chars(s: &[char], n: usize) -> (r: Vec<char>)
    ensures
        r@ == repeat(s@, n as nat),
{
    let mut r: Vec<char> = Vec::new();
    let mut k: usize = 0;
    while k < n
        invariant
            k <= n,
            r@ == repeat(s@, k as nat),
        decreases n - k,
    {
        push_all(&mut r, s);
        k = k + 1;
    }
    r
}


/// `s` without one trailing carriage return.
pub open spec fn strip_cr(s: Seq<char>) -> Seq<char> {
    if s.len() > 0 && s.last() == '\r' { s.drop_last() } else { s }
}

/// `str::lines`: the pieces between line feeds, a carriage return just
/// before a line feed dropped, and no empty piece after a final line feed.
pub open spec fn lines(s: Seq<char>) -> Seq<Seq<char>> {
    let p = split(s, seq!['\n']);
    let init = Seq::new((p.len() - 1) as nat, |i: int| strip_cr(p[i]));
    if p.last().len() == 0 { init } else { init.push(p.last()) }
}

/// The lines of `s` (see `lines`).
pub fn lines_chars(s: &[char]) -> (r: Vec<Vec<char>>)
    ensures
        views(r@) == lines(s@),
{
    let nl = vec!['\n'];
    assert(nl@ == seq!['\n']);
    let p = split_chars(s, nl.as_slice());
    proof { lemma_split_nonempty(s@, seq!['\n']); }
    let ghost ps = views(p@);
    let n = p.len();
    let mut out: Vec<Vec<char>> = Vec::new();
    let mut k: usize = 0;
    while k < n - 1
        invariant
            ps == views(p@),
            ps == split(s@, seq!['\n']),
            n == p@.len(),
            n >= 1,
            k <= n - 1,
            views(out@) =~= Seq::new(k as nat, |i: int| strip_cr(ps[i])),
        decreases n - 1 - k,
    {
        let piece = &p[k];
        assert(piece@ == ps[k as int]);
        let m = piece.len();
        let stripped = if m > 0 && piece[m - 1] == '\r' {
            subrange_chars(piece.as_slice(), 0, m - 1)
        } else {
            subrange_chars(piece.as_slice(), 0, m)
        };
        assert(stripped@ =~= strip_cr(ps[k as int]));
        let ghost before = views(out@);
        let ghost sv = stripped@;
        out.push(stripped);
        assert(views(out@) =~= before.push(sv));
        k = k + 1;
    }
    let last = &p[n - 1];
    assert(last@ == ps.last());
    if last.len() != 0 {
        let copy = subrange_chars(last.as_slice(), 0, last.len());
        assert(copy@ =~= last@);
        let ghost before = views(out@);
        out.push(copy);
        assert(views(out@) =~= before.push(last@));
    }
    out
}


/// `to` before every character of `s` and at its end: `str::replace` with
/// an empty pattern.
pub open spec fn replace_empty(s: Seq<char>, to: Seq<char>) -> Seq<char>
    decreases s.len(),
{
    if s.len() == 0 {
        to
    } else {
        to + seq![s[0]] + replace_empty(s.drop_first(), to)
    }
}

/// `str::replace`: every non-overlapping occurrence of `from`, from left to
/// right, replaced by `to`; an empty `from` matches at every position.
pub open spec fn rust_replace(s: Seq<char>, from: Seq<char>, to: Seq<char>) -> Seq<char> {
    if from.len() == 0 { replace_empty(s, to) } else { replace(s, from, to) }
}

/// `s` with `from` replaced by `to` (see `rust_replace`).
pub fn rust_replace_chars(s: &[char], from: &[char], to: &[char]) -> (r: Vec<char>)
    ensures
        r@ == rust_replace(s@, from@, to@),
{
    if from.len() > 0 {
        return replace_chars(s, from, to);
    }
    let mut out: Vec<char> = Vec::new();
    let mut k: usize = 0;
    assert(s@.skip(0) =~= s@);
    while k < s.len()
        invariant
            k <= s@.len(),
            from@.len() == 0,
            out@ + replace_empty(s@.skip(k as int), to@) == replace_empty(s@, to@),
        decreases s@.len() - k,
    {
        assert(s@.skip(k as int).drop_first() =~= s@.skip(k + 1));
        assert(s@.skip(k as int)[0] == s@[k as int]);
        push_all(&mut out, to);
        out.push(s[k]);
        assert(out@ + replace_empty(s@.skip(k + 1), to@) =~= replace_empty(s@, to@));
        k = k + 1;
    }
    assert(s@.skip(k as int) =~= Seq::<char>::empty());
    push_all(&mut out, to);
    out
}

} // verus!
