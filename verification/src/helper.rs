//! Rewriting of conditions and code snippets shared by the fixes.
use vstd::prelude::*;
use crate::corelib::{ItemKind, LookupItem, MemberKind, ModuleEntry, ModuleTree, NamedId};
use crate::semantic::{CallArg, Expr};
use crate::text;

verus! {

/// `condition` with its first kind of comparison operator inverted, in the
/// order `>=`, `<=`, `>`, `<`, `==`, `!=`, every occurrence of that operator
/// being replaced; a condition without any of them is negated as `!(..)`.
pub open spec fn invert_simple_condition_spec(c: Seq<char>) -> Seq<char> {
    if text::contains(c, seq!['>', '=']) {
        text::replace(c, seq!['>', '='], seq!['<'])
    } else if text::contains(c, seq!['<', '=']) {
        text::replace(c, seq!['<', '='], seq!['>'])
    } else if text::contains(c, seq!['>']) {
        text::replace(c, seq!['>'], seq!['<', '='])
    } else if text::contains(c, seq!['<']) {
        text::replace(c, seq!['<'], seq!['>', '='])
    } else if text::contains(c, seq!['=', '=']) {
        text::replace(c, seq!['=', '='], seq!['!', '='])
    } else if text::contains(c, seq!['!', '=']) {
        text::replace(c, seq!['!', '='], seq!['=', '='])
    } else {
        seq!['!', '('] + c + seq![')']
    }
}

/// Every part of `parts`, trimmed and then inverted.
pub open spec fn invert_parts(parts: Seq<Seq<char>>) -> Seq<Seq<char>> {
    Seq::new(parts.len(), |i: int| invert_simple_condition_spec(text::trim(parts[i])))
}

/// A condition made of `&&` (or else `||`) parts, inverted by De Morgan's
/// law: each trimmed part is inverted and the connective is swapped. A
/// condition that mixes `&&` and `||` is negated whole as `!(..)`, since
/// splitting it at one connective would change its meaning.
pub open spec fn invert_condition_spec(c: Seq<char>) -> Seq<char> {
    if text::contains(c, seq!['&', '&']) && text::contains(c, seq!['|', '|']) {
        seq!['!', '('] + c + seq![')']
    } else if text::contains(c, seq!['&', '&']) {
        text::join(invert_parts(text::split(c, seq!['&', '&'])), seq![' ', '|', '|', ' '])
    } else if text::contains(c, seq!['|', '|']) {
        text::join(invert_parts(text::split(c, seq!['|', '|'])), seq![' ', '&', '&', ' '])
    } else {
        invert_simple_condition_spec(c)
    }
}

pub(crate) fn invert_simple_chars(c: &[char]) -> (r: Vec<char>)
    ensures
        r@ == invert_simple_condition_spec(c@),
{
    let ge = vec!['>', '='];
    let le = vec!['<', '='];
    let gt = vec!['>'];
    let lt = vec!['<'];
    let eq = vec!['=', '='];
    let ne = vec!['!', '='];
    assert(ge@ == seq!['>', '=']);
    assert(le@ == seq!['<', '=']);
    assert(gt@ == seq!['>']);
    assert(lt@ == seq!['<']);
    assert(eq@ == seq!['=', '=']);
    assert(ne@ == seq!['!', '=']);
    if text::contains_chars(c, ge.as_slice()) {
        text::replace_chars(c, ge.as_slice(), lt.as_slice())
    } else if text::contains_chars(c, le.as_slice()) {
        text::replace_chars(c, le.as_slice(), gt.as_slice())
    } else if text::contains_chars(c, gt.as_slice()) {
        text::replace_chars(c, gt.as_slice(), le.as_slice())
    } else if text::contains_chars(c, lt.as_slice()) {
        text::replace_chars(c, lt.as_slice(), ge.as_slice())
    } else if text::contains_chars(c, eq.as_slice()) {
        text::replace_chars(c, eq.as_slice(), ne.as_slice())
    } else if text::contains_chars(c, ne.as_slice()) {
        text::replace_chars(c, ne.as_slice(), eq.as_slice())
    } else {
        let mut r = vec!['!', '('];
        text::push_all(&mut r, c);
        r.push(')');
        assert(r@ =~= seq!['!', '('] + c@ + seq![')']);
        r
    }
}

/// Inverts a simple condition: `>=` becomes `<`, `<=` becomes `>`, `>`
/// becomes `<=`, `<` becomes `>=`, `==` becomes `!=` and `!=` becomes `==`
/// (the first of these operators that occurs is the one replaced,
/// everywhere); a condition with none of them is wrapped as `!(condition)`.
pub fn invert_simple_condition(condition: &str) -> (r: String)
    ensures
        r@ == invert_simple_condition_spec(condition@),
{
    let c = text::chars_of(condition);
    let r = invert_simple_chars(c.as_slice());
    text::string_of(r.as_slice())
}

fn invert_each(parts: &Vec<Vec<char>>) -> (r: Vec<Vec<char>>)
    ensures
        text::views(r@) == invert_parts(text::views(parts@)),
{
    let mut r: Vec<Vec<char>> = Vec::new();
    let mut k: usize = 0;
    while k < parts.len()
        invariant
            k <= parts@.len(),
            text::views(r@) == invert_parts(text::views(parts@)).take(k as int),
        decreases parts@.len() - k,
    {
        let t = text::trim_chars(parts[k].as_slice());
        let inv = invert_simple_chars(t.as_slice());
        let ghost old_r = text::views(r@);
        r.push(inv);
        assert(text::views(r@) =~= old_r.push(inv@));
        assert(invert_parts(text::views(parts@)).take(k + 1) =~= invert_parts(text::views(parts@)).take(
            k as int,
        ).push(inv@));
        k = k + 1;
    }
    assert(invert_parts(text::views(parts@)).take(parts@.len() as int) =~= invert_parts(text::views(parts@)));
    r
}

/// Inverts a logical condition: when it holds both `&&` and `||`, it is
/// negated whole as `!(condition)`; when it holds `&&` only, every
/// `&&`-separated part is trimmed and inverted and the parts are joined with
/// ` || `; when it holds `||` only, the same with the connectives swapped;
/// else the condition is inverted as a simple one.
pub fn invert_condition(condition: &str) -> (r: String)
    ensures
        r@ == invert_condition_spec(condition@),
{
    let c = text::chars_of(condition);
    let and = vec!['&', '&'];
    let or = vec!['|', '|'];
    assert(and@ == seq!['&', '&']);
    assert(or@ == seq!['|', '|']);
    let has_and = text::contains_chars(c.as_slice(), and.as_slice());
    let has_or = text::contains_chars(c.as_slice(), or.as_slice());
    let r = if has_and && has_or {
        let mut w = vec!['!', '('];
        text::push_all(&mut w, c.as_slice());
        w.push(')');
        assert(w@ =~= seq!['!', '('] + c@ + seq![')']);
        w
    } else if has_and {
        let parts = text::split_chars(c.as_slice(), and.as_slice());
        let inv = invert_each(&parts);
        let sep = vec![' ', '|', '|', ' '];
        assert(sep@ == seq![' ', '|', '|', ' ']);
        text::join_chars(inv.as_slice(), sep.as_slice())
    } else if has_or {
        let parts = text::split_chars(c.as_slice(), or.as_slice());
        let inv = invert_each(&parts);
        let sep = vec![' ', '&', '&', ' '];
        assert(sep@ == seq![' ', '&', '&', ' ']);
        text::join_chars(inv.as_slice(), sep.as_slice())
    } else {
        invert_simple_chars(c.as_slice())
    };
    text::string_of(r.as_slice())
}

/// Four spaces: one level of indentation.
pub open spec fn indent_unit() -> Seq<char> {
    seq![' ', ' ', ' ', ' ']
}

/// The level of the line `t` (already trimmed) when the running level is
/// `level`: one less when it starts with a closing brace.
pub open spec fn line_level(t: Seq<char>, level: nat) -> nat {
    if t.len() > 0 && t[0] == '}' && level > 0 {
        (level - 1) as nat
    } else {
        level
    }
}

/// The running level after the line `t`: one more when it ends with an
/// opening brace.
pub open spec fn next_level(t: Seq<char>, level: nat) -> nat {
    if t.len() > 0 && t.last() == '{' {
        line_level(t, level) + 1
    } else {
        line_level(t, level)
    }
}

/// The lines re-indented: each is trimmed and, unless empty, prefixed by
/// four spaces per level; lines stay separated by one newline.
pub open spec fn indent_lines(lines: Seq<Seq<char>>, level: nat) -> Seq<char>
    decreases lines.len(),
{
    if lines.len() == 0 {
        seq![]
    } else {
        let t = text::trim(lines[0]);
        let pre = if t.len() > 0 {
            text::repeat(indent_unit(), line_level(t, level))
        } else {
            seq![]
        };
        let nl = if lines.len() > 1 {
            seq!['\n']
        } else {
            seq![]
        };
        pre + t + nl + indent_lines(lines.drop_first(), next_level(t, level))
    }
}

/// Re-indentation of a snippet starting at `initial` levels.
pub open spec fn indent_snippet_spec(input: Seq<char>, initial: nat) -> Seq<char> {
    indent_lines(text::split(input, seq!['\n']), initial)
}

/// The level stays within `usize` along the lines: each line ending with
/// `{` can raise it by one.
pub open spec fn indent_levels_fit(lines: Seq<Seq<char>>, level: nat) -> bool
    decreases lines.len(),
{
    if lines.len() == 0 {
        true
    } else {
        let n = next_level(text::trim(lines[0]), level);
        n <= usize::MAX && indent_levels_fit(lines.drop_first(), n)
    }
}

/// The level cannot pass `usize::MAX` when there are fewer lines left than
/// levels to spare.
pub proof fn lemma_indent_levels_fit(lines: Seq<Seq<char>>, level: nat)
    requires
        level + lines.len() <= usize::MAX,
    ensures
        indent_levels_fit(lines, level),
    decreases lines.len(),
{
    if lines.len() > 0 {
        lemma_indent_levels_fit(lines.drop_first(), next_level(text::trim(lines[0]), level));
    }
}

/// A snippet whose level can be kept: what `indent_snippet` needs.
pub open spec fn indent_snippet_fits(input: Seq<char>, initial: nat) -> bool {
    indent_levels_fit(text::split(input, seq!['\n']), initial)
}

/// A snippet shorter than the room left above the starting level fits.
pub proof fn lemma_indent_snippet_fits(input: Seq<char>, initial: nat)
    requires
        initial + input.len() < usize::MAX,
    ensures
        indent_snippet_fits(input, initial),
{
    lemma_split_len_bound(input, seq!['\n']);
    lemma_indent_levels_fit(text::split(input, seq!['\n']), initial);
}

/// Re-indents a code snippet: every line is trimmed; a line starting with
/// `}` lowers the level by one (not below zero) before it is written, a
/// line ending with `{` raises it by one after; a non-empty line is
/// prefixed by four spaces per level, starting at `initial_indentation`.
pub fn indent_snippet(input: &str, initial_indentation: usize) -> (r: String)
    requires
        indent_snippet_fits(input@, initial_indentation as nat),
    ensures
        r@ == indent_snippet_spec(input@, initial_indentation as nat),
{
    let c = text::chars_of(input);
    let nl = vec!['\n'];
    assert(nl@ == seq!['\n']);
    let lines = text::split_chars(c.as_slice(), nl.as_slice());
    let unit = vec![' ', ' ', ' ', ' '];
    assert(unit@ == indent_unit());
    let mut out: Vec<char> = Vec::new();
    let mut level: usize = initial_indentation;
    let mut k: usize = 0;
    let ghost ls = text::views(lines@);
    assert(ls.skip(0) =~= ls);
    while k < lines.len()
        invariant
            ls == text::views(lines@),
            k <= ls.len(),
            indent_levels_fit(ls.skip(k as int), level as nat),
            unit@ == indent_unit(),
            out@ + indent_lines(ls.skip(k as int), level as nat) == indent_lines(ls, initial_indentation as nat),
        decreases ls.len() - k,
    {
        let ghost rest = ls.skip(k as int);
        assert(rest[0] == lines@[k as int]@);
        assert(rest.drop_first() =~= ls.skip(k + 1));
        let t = text::trim_chars(lines[k].as_slice());
        let n = t.len();
        let ghost lvl0 = level;
        if n > 0 && t[0] == '}' && level > 0 {
            level = level - 1;
        }
        assert(level == line_level(t@, lvl0 as nat));
        let ghost o0 = out@;
        if n > 0 {
            let pre = text::repeat_chars(unit.as_slice(), level);
            text::push_all(&mut out, pre.as_slice());
        }
        text::push_all(&mut out, t.as_slice());
        if k + 1 < lines.len() {
            out.push('\n');
        }
        if n > 0 && t[n - 1] == '{' {
            level = level + 1;
        }
        assert(level == next_level(t@, lvl0 as nat));
        assert(out@ + indent_lines(ls.skip(k + 1), level as nat) =~= o0 + indent_lines(rest, lvl0 as nat));
        k = k + 1;
    }
    assert(ls.skip(k as int) =~= Seq::<Seq<char>>::empty());
    assert(out@ + Seq::<char>::empty() =~= out@);
    text::string_of(out.as_slice())
}

/// Splitting at a single character yields at most one piece more than the
/// text has characters.
pub proof fn lemma_split_len_bound(s: Seq<char>, sep: Seq<char>)
    requires
        sep.len() == 1,
    ensures
        text::split(s, sep).len() <= s.len() + 1,
    decreases s.len(),
{
    if s.len() < sep.len() {
    } else if text::has_prefix(s, sep) {
        lemma_split_len_bound(s.skip(sep.len() as int), sep);
        assert(text::split(s, sep) == seq![Seq::<char>::empty()] + text::split(s.skip(sep.len() as int), sep));
    } else {
        lemma_split_len_bound(s.drop_first(), sep);
        text::lemma_split_nonempty(s.drop_first(), sep);
        let rest = text::split(s.drop_first(), sep);
        assert(text::split(s, sep) == rest.update(0, seq![s[0]] + rest[0]));
    }
}


/// Full path of the corelib's `panic`.
pub const PANIC_PATH: &'static str = "core::panics::panic";
/// Full path of the corelib's `panic_with_byte_array`.
pub const PANIC_WITH_BYTE_ARRAY_PATH: &'static str = "core::panics::panic_with_byte_array";
/// Name of the variable that the expansion of `assert!` binds first.
pub const ASSERT_FORMATTER_NAME: &'static str = "__formatter_for_assert_macro__";
/// Short name of the type of that variable.
pub const ASSERT_PATH: &'static str = "core::fmt::Formatter";

/// The argument is the literal `0`.
pub open spec fn is_zero_spec(arg: CallArg) -> bool {
    arg matches CallArg::Value(Expr::Literal { value: Some(v), .. }) && v == 0
}

/// The argument is the literal `1`.
pub open spec fn is_one_spec(arg: CallArg) -> bool {
    arg matches CallArg::Value(Expr::Literal { value: Some(v), .. }) && v == 1
}

/// Whether a call argument is the literal zero.
pub fn is_zero(arg: &CallArg) -> (r: bool)
    ensures
        r == is_zero_spec(*arg),
{
    match arg {
        CallArg::Value(Expr::Literal { value: Some(v), .. }) => *v == 0,
        _ => false,
    }
}

/// Whether a call argument is the literal one.
pub fn is_one(arg: &CallArg) -> (r: bool)
    ensures
        r == is_one_spec(*arg),
{
    match arg {
        CallArg::Value(Expr::Literal { value: Some(v), .. }) => *v == 1,
        _ => false,
    }
}

/// The expression is a call of `panic` or `panic_with_byte_array`.
pub open spec fn is_inline_panic_spec(e: Expr) -> bool {
    e matches Expr::FunctionCall(fc)
        && (fc.full_path@ == PANIC_PATH@ || fc.full_path@ == PANIC_WITH_BYTE_ARRAY_PATH@)
}

/// The expression is a block whose tail calls `panic_with_byte_array`.
pub open spec fn is_panic_block_spec(e: Expr) -> bool {
    match e {
        Expr::Block(b) => match b.tail {
            Some(t) => (*t) matches Expr::FunctionCall(fc) && fc.full_path@ == PANIC_WITH_BYTE_ARRAY_PATH@,
            None => false,
        },
        _ => false,
    }
}

/// The expression panics: a direct call of a panic function, or a block
/// ending in one (what `panic!` expands to).
pub open spec fn is_panic_expr_spec(e: Expr) -> bool {
    is_inline_panic_spec(e) || is_panic_block_spec(e)
}

fn check_if_inline_panic(e: &Expr) -> (r: bool)
    ensures
        r == is_inline_panic_spec(*e),
{
    match e {
        Expr::FunctionCall(fc) => text::str_eq(fc.full_path.as_str(), PANIC_PATH)
            || text::str_eq(fc.full_path.as_str(), PANIC_WITH_BYTE_ARRAY_PATH),
        _ => false,
    }
}

fn check_if_panic_block(e: &Expr) -> (r: bool)
    ensures
        r == is_panic_block_spec(*e),
{
    match e {
        Expr::Block(b) => match &b.tail {
            Some(t) => match &**t {
                Expr::FunctionCall(fc) => text::str_eq(fc.full_path.as_str(), PANIC_WITH_BYTE_ARRAY_PATH),
                _ => false,
            },
            None => false,
        },
        _ => false,
    }
}

/// Whether the expression panics (see `is_panic_expr_spec`).
pub fn is_panic_expr(e: &Expr) -> (r: bool)
    ensures
        r == is_panic_expr_spec(*e),
{
    check_if_inline_panic(e) || check_if_panic_block(e)
}

/// Whether the member list holds a member of the given identifier.
pub open spec fn members_hold(v: Option<Vec<NamedId>>, id: u64) -> bool {
    match v {
        Some(ms) => exists|i: int| 0 <= i < ms@.len() && (#[trigger] ms@[i]).id == id,
        None => false,
    }
}

/// The entry is the searched item, holds it as a member, or (for a
/// submodule) holds it at any depth; a submodule is not itself compared.
pub open spec fn entry_holds(e: ModuleEntry, item: LookupItem) -> bool
    decreases e,
{
    match e {
        ModuleEntry::Submodule { module, .. } => module_holds(module, item),
        ModuleEntry::Impl { id, functions, types, constants, .. } => {
            ||| item == (LookupItem::ModuleItem { kind: ItemKind::Impl, id })
            ||| (item matches LookupItem::ImplItem { kind, id: x } && match kind {
                MemberKind::Function => members_hold(functions, x),
                MemberKind::Type => members_hold(types, x),
                MemberKind::Constant => members_hold(constants, x),
            })
        },
        ModuleEntry::Trait { id, functions, types, constants, .. } => {
            ||| item == (LookupItem::ModuleItem { kind: ItemKind::Trait, id })
            ||| (item matches LookupItem::TraitItem { kind, id: x } && match kind {
                MemberKind::Function => members_hold(functions, x),
                MemberKind::Type => members_hold(types, x),
                MemberKind::Constant => members_hold(constants, x),
            })
        },
        ModuleEntry::Other { kind, id, .. } => item == (LookupItem::ModuleItem { kind, id }),
    }
}

/// One of the entries holds the item.
pub open spec fn entries_hold(items: Seq<ModuleEntry>, item: LookupItem) -> bool
    decreases items,
{
    if items.len() == 0 {
        false
    } else {
        entry_holds(items[0], item) || entries_hold(items.drop_first(), item)
    }
}

/// The module, or one of its submodules at any depth, holds the item.
pub open spec fn module_holds(m: ModuleTree, item: LookupItem) -> bool
    decreases m,
{
    match m.items {
        Some(items) => entries_hold(items@, item),
        None => false,
    }
}

fn members_contain(v: &Option<Vec<NamedId>>, x: u64) -> (r: bool)
    ensures
        r == members_hold(*v, x),
{
    match v {
        Some(ms) => {
            let mut k: usize = 0;
            while k < ms.len()
                invariant
                    *v == Some(*ms),
                    k <= ms@.len(),
                    forall|j: int| 0 <= j < k ==> ms@[j].id != x,
                decreases ms@.len() - k,
            {
                if ms[k].id == x {
                    assert(v->0@[k as int].id == x);
                    assert(members_hold(*v, x));
                    return true;
                }
                k = k + 1;
            }
            false
        },
        None => false,
    }
}

fn member_list_holds(
    kind: MemberKind,
    x: u64,
    functions: &Option<Vec<NamedId>>,
    types: &Option<Vec<NamedId>>,
    constants: &Option<Vec<NamedId>>,
) -> (r: bool)
    ensures
        r == match kind {
            MemberKind::Function => members_hold(*functions, x),
            MemberKind::Type => members_hold(*types, x),
            MemberKind::Constant => members_hold(*constants, x),
        },
{
    match kind {
        MemberKind::Function => members_contain(functions, x),
        MemberKind::Type => members_contain(types, x),
        MemberKind::Constant => members_contain(constants, x),
    }
}

fn entry_is_ancestor(e: &ModuleEntry, item: LookupItem) -> (r: bool)
    ensures
        r == entry_holds(*e, item),
    decreases e,
{
    match e {
        ModuleEntry::Submodule { module, .. } => is_item_ancestor_of_module(item, module),
        ModuleEntry::Impl { id, functions, types, constants, .. } => {
            if item == (LookupItem::ModuleItem { kind: ItemKind::Impl, id: *id }) {
                return true;
            }
            match item {
                LookupItem::ImplItem { kind, id: x } => member_list_holds(kind, x, functions, types, constants),
                _ => false,
            }
        },
        ModuleEntry::Trait { id, functions, types, constants, .. } => {
            if item == (LookupItem::ModuleItem { kind: ItemKind::Trait, id: *id }) {
                return true;
            }
            match item {
                LookupItem::TraitItem { kind, id: x } => member_list_holds(kind, x, functions, types, constants),
                _ => false,
            }
        },
        ModuleEntry::Other { kind, id, .. } => item == (LookupItem::ModuleItem { kind: *kind, id: *id }),
    }
}

/// Whether `module` holds `searched_item`: as one of its items, as a
/// function, type or constant of one of its impls or traits, or the same
/// within any of its submodules.
pub fn is_item_ancestor_of_module(searched_item: LookupItem, module: &ModuleTree) -> (r: bool)
    ensures
        r == module_holds(*module, searched_item),
    decreases module,
{
    let items = match &module.items {
        Some(items) => items,
        None => return false,
    };
    let mut k: usize = 0;
    assert(items@.skip(0) =~= items@);
    while k < items.len()
        invariant
            module.items == Some(*items),
            k <= items@.len(),
            entries_hold(items@, searched_item) == entries_hold(items@.skip(k as int), searched_item),
        decreases items@.len() - k,
    {
        proof {
            assert(decreases_to!(*module => module.items));
            assert(decreases_to!(module.items => module.items->0));
            assert(decreases_to!(*items => items@));
            assert(decreases_to!(items@ => items@[k as int]));
            assert(items@.skip(k as int).drop_first() =~= items@.skip(k + 1));
            assert(items@.skip(k as int)[0] == items@[k as int]);
        }
        if entry_is_ancestor(&items[k], searched_item) {
            return true;
        }
        k = k + 1;
    }
    false
}


/// A statement in the source: its text and what the loop fix reads of it.
#[derive(Debug)]
pub struct StatementSyntaxNode {
    pub text: String,
    pub kind: StatementSyntaxKind,
}

/// The kinds of statements the loop fix tells apart.
#[derive(Debug)]
pub enum StatementSyntaxKind {
    Break,
    /// An expression statement that is an `if`.
    If(Box<IfSyntax>),
    Other,
}

/// A block in the source: its statements.
#[derive(Debug)]
pub struct BlockSyntax {
    pub statements: Vec<StatementSyntaxNode>,
}

/// An `if` in the source: the text of its conditions (with and without
/// trivia), its block and its `else` clause.
#[derive(Debug)]
pub struct IfSyntax {
    pub conditions: String,
    pub conditions_without_trivia: String,
    pub if_block: BlockSyntax,
    pub else_clause: Option<Box<ElseBlockSyntax>>,
}

/// An `else` clause: a block, or an `else if`.
#[derive(Debug)]
pub enum ElseBlockSyntax {
    Block(BlockSyntax),
    If(IfSyntax),
}

/// Each line, trimmed, as `{indent}    {line}\n`.
pub open spec fn indented_lines(ls: Seq<Seq<char>>, indent: Seq<char>) -> Seq<char>
    decreases ls.len(),
{
    if ls.len() == 0 {
        seq![]
    } else {
        indented_lines(ls.drop_last(), indent) + indent + "    "@ + text::trim(ls.last()) + "\n"@
    }
}

/// The statements other than `break`, each split at line feeds after
/// trimming, one more level in than `indent`.
pub open spec fn block_without_breaks(stmts: Seq<StatementSyntaxNode>, indent: Seq<char>) -> Seq<char>
    decreases stmts.len(),
{
    if stmts.len() == 0 {
        seq![]
    } else {
        let rest = block_without_breaks(stmts.drop_last(), indent);
        if stmts.last().kind is Break {
            rest
        } else {
            rest + indented_lines(text::split(text::trim(stmts.last().text@), "\n"@), indent)
        }
    }
}

fn push_indented_lines(out: &mut Vec<char>, t: &str, indent: &[char])
    ensures
        final(out)@ == old(out)@ + indented_lines(text::split(text::trim(t@), "\n"@), indent@),
{
    let c = text::chars_of(t);
    let tc = text::trim_chars(c.as_slice());
    let nl = text::chars_of("\n");
    proof { reveal_strlit("\n"); }
    let ls = text::split_chars(tc.as_slice(), nl.as_slice());
    let ghost lv = text::views(ls@);
    let ghost base = out@;
    let mut k: usize = 0;
    while k < ls.len()
        invariant
            lv == text::views(ls@),
            k <= ls@.len(),
            out@ == base + indented_lines(lv.take(k as int), indent@),
        decreases ls@.len() - k,
    {
        assert(lv.take(k + 1).drop_last() =~= lv.take(k as int));
        assert(lv.take(k + 1).last() == ls@[k as int]@);
        text::push_all(out, indent);
        text::push_str(out, "    ");
        let lt = text::trim_chars(ls[k].as_slice());
        text::push_all(out, lt.as_slice());
        text::push_str(out, "\n");
        assert(out@ =~= base + indented_lines(lv.take(k + 1), indent@));
        k = k + 1;
    }
    assert(lv.take(ls@.len() as int) =~= lv);
}

/// The statements of a block without its `break`s, one level in from
/// `indent` (see `block_without_breaks`).
pub fn remove_break_from_block(block: &BlockSyntax, indent: &[char]) -> (r: Vec<char>)
    ensures
        r@ == block_without_breaks(block.statements@, indent@),
{
    let mut out: Vec<char> = Vec::new();
    let mut k: usize = 0;
    while k < block.statements.len()
        invariant
            k <= block.statements@.len(),
            out@ == block_without_breaks(block.statements@.take(k as int), indent@),
        decreases block.statements@.len() - k,
    {
        let ghost st = block.statements@;
        assert(st.take(k + 1).drop_last() =~= st.take(k as int));
        assert(st.take(k + 1).last() == st[k as int]);
        let s = &block.statements[k];
        if !matches!(s.kind, StatementSyntaxKind::Break) {
            push_indented_lines(&mut out, s.text.as_str(), indent);
        }
        k = k + 1;
    }
    assert(block.statements@.take(k as int) =~= block.statements@);
    out
}

/// An `else` clause without its `break`s: a block's statements, or an
/// `else if` with its condition and its statements.
pub open spec fn else_without_breaks(e: ElseBlockSyntax, indent: Seq<char>) -> Seq<char> {
    match e {
        ElseBlockSyntax::Block(b) => block_without_breaks(b.statements@, indent),
        ElseBlockSyntax::If(i) => indent + "else if "@ + i.conditions@ + " {\n"@
            + block_without_breaks(i.if_block.statements@, indent) + indent + "}\n"@,
    }
}

/// The `else` clause without its `break`s (see `else_without_breaks`).
pub fn remove_break_from_else_clause(e: &ElseBlockSyntax, indent: &[char]) -> (r: Vec<char>)
    ensures
        r@ == else_without_breaks(*e, indent@),
{
    match e {
        ElseBlockSyntax::Block(b) => remove_break_from_block(b, indent),
        ElseBlockSyntax::If(i) => {
            let mut out: Vec<char> = Vec::new();
            text::push_all(&mut out, indent);
            text::push_str(&mut out, "else if ");
            text::push_str(&mut out, i.conditions.as_str());
            text::push_str(&mut out, " {\n");
            let body = remove_break_from_block(&i.if_block, indent);
            text::push_all(&mut out, body.as_slice());
            text::push_all(&mut out, indent);
            text::push_str(&mut out, "}\n");
            out
        },
    }
}


/// The characters that comparison operators are made of.
pub open spec fn is_op_char(c: char) -> bool {
    c == '<' || c == '>' || c == '=' || c == '!'
}

/// The text holds no character of a comparison operator.
pub open spec fn no_op_chars(s: Seq<char>) -> bool {
    forall|i: int| 0 <= i < s.len() ==> !is_op_char(#[trigger] s[i])
}

/// The six comparison operators.
pub open spec fn is_comparison_op(op: Seq<char>) -> bool {
    ||| op == seq!['>', '=']
    ||| op == seq!['<', '=']
    ||| op == seq!['>']
    ||| op == seq!['<']
    ||| op == seq!['=', '=']
    ||| op == seq!['!', '=']
}

/// The operator of the opposite comparison.
pub open spec fn opposite_op(op: Seq<char>) -> Seq<char> {
    if op == seq!['>', '='] {
        seq!['<']
    } else if op == seq!['<', '='] {
        seq!['>']
    } else if op == seq!['>'] {
        seq!['<', '=']
    } else if op == seq!['<'] {
        seq!['>', '=']
    } else if op == seq!['=', '='] {
        seq!['!', '=']
    } else {
        seq!['=', '=']
    }
}

proof fn lemma_find_short(t: Seq<char>, p: Seq<char>)
    requires
        t.len() < p.len(),
    ensures
        !text::contains(t, p),
{
}

proof fn lemma_contains_cons(x: char, t: Seq<char>, p: Seq<char>)
    requires
        p.len() > 0,
    ensures
        text::contains(seq![x] + t, p) == (text::has_prefix(seq![x] + t, p) || text::contains(t, p)),
{
    let s = seq![x] + t;
    assert(s.drop_first() =~= t);
    if s.len() < p.len() {
        lemma_find_short(t, p);
    }
}

proof fn lemma_contains_skip(s: Seq<char>, t: Seq<char>, p: Seq<char>)
    requires
        p.len() > 0,
        forall|i: int| 0 <= i < s.len() ==> #[trigger] s[i] != p[0],
    ensures
        text::contains(s + t, p) == text::contains(t, p),
    decreases s.len(),
{
    if s.len() > 0 {
        assert(s + t =~= seq![s[0]] + (s.drop_first() + t));
        lemma_contains_cons(s[0], s.drop_first() + t, p);
        assert(!text::has_prefix(seq![s[0]] + (s.drop_first() + t), p)) by {
            if p.len() <= s.len() + t.len() {
                assert((seq![s[0]] + (s.drop_first() + t)).take(p.len() as int)[0] == s[0]);
            }
        }
        lemma_contains_skip(s.drop_first(), t, p);
    } else {
        assert(s + t =~= t);
    }
}

proof fn lemma_contains_none(t: Seq<char>, p: Seq<char>)
    requires
        p.len() > 0,
        forall|i: int| 0 <= i < t.len() ==> #[trigger] t[i] != p[0],
    ensures
        !text::contains(t, p),
{
    lemma_contains_skip(t, Seq::empty(), p);
    assert(t + Seq::<char>::empty() =~= t);
    lemma_find_short(Seq::empty(), p);
}

proof fn lemma_replace_skip(s: Seq<char>, t: Seq<char>, from: Seq<char>, to: Seq<char>)
    requires
        from.len() > 0,
        forall|i: int| 0 <= i < s.len() ==> #[trigger] s[i] != from[0],
    ensures
        text::replace(s + t, from, to) == s + text::replace(t, from, to),
    decreases s.len(),
{
    if s.len() > 0 {
        let st = s + t;
        assert(st.drop_first() =~= s.drop_first() + t);
        if st.len() >= from.len() {
            assert(!text::has_prefix(st, from)) by {
                assert(st.take(from.len() as int)[0] == s[0]);
            }
        }
        lemma_replace_skip(s.drop_first(), t, from, to);
        assert(s =~= seq![s[0]] + s.drop_first());
        assert(s + text::replace(t, from, to) =~= seq![s[0]] + (s.drop_first() + text::replace(t, from, to)));
    } else {
        assert(s + t =~= t);
        assert(s + text::replace(t, from, to) =~= text::replace(t, from, to));
    }
}

proof fn lemma_replace_none(t: Seq<char>, from: Seq<char>, to: Seq<char>)
    requires
        from.len() > 0,
        forall|i: int| 0 <= i < t.len() ==> #[trigger] t[i] != from[0],
    ensures
        text::replace(t, from, to) == t,
{
    lemma_replace_skip(t, Seq::empty(), from, to);
    assert(t + Seq::<char>::empty() =~= t);
}

proof fn lemma_replace_op(l: Seq<char>, op: Seq<char>, r: Seq<char>, to: Seq<char>)
    requires
        is_comparison_op(op),
        no_op_chars(l),
        no_op_chars(r),
    ensures
        text::replace(l + op + r, op, to) == l + to + r,
{
    assert(l + op + r =~= l + (op + r));
    lemma_replace_skip(l, op + r, op, to);
    assert(text::has_prefix(op + r, op)) by {
        assert((op + r).take(op.len() as int) =~= op);
    }
    assert((op + r).skip(op.len() as int) =~= r);
    lemma_replace_none(r, op, to);
    assert(l + (to + r) =~= l + to + r);
}

/// Whether `seq![x] + t` starts with `p`, for `p` of one or two
/// characters.
proof fn lemma_has_prefix_small(x: char, t: Seq<char>, p: Seq<char>)
    requires
        1 <= p.len() <= 2,
    ensures
        p.len() == 1 ==> (text::has_prefix(seq![x] + t, p) == (p[0] == x)),
        p.len() == 2 ==> (text::has_prefix(seq![x] + t, p) == (t.len() >= 1 && p[0] == x && p[1] == t[0])),
{
    let s = seq![x] + t;
    if p.len() == 1 {
        if p[0] == x {
            assert(s.take(1) =~= p);
        }
        if text::has_prefix(s, p) {
            assert(s.take(1)[0] == x);
        }
    } else {
        if t.len() >= 1 && p[0] == x && p[1] == t[0] {
            assert(s.take(2) =~= p);
        }
        if text::has_prefix(s, p) {
            assert(s.take(2)[0] == x);
            assert(s.take(2)[1] == t[0]);
        }
    }
}

/// Whether `op + r` holds `p`, for an operator `op` and a text `r` without
/// operator characters.
proof fn lemma_contains_op_rest(op: Seq<char>, r: Seq<char>, p: Seq<char>)
    requires
        is_comparison_op(op),
        is_comparison_op(p),
        no_op_chars(r),
    ensures
        text::contains(op + r, p) == (op == p
            || (op == seq!['>', '='] && p == seq!['>'])
            || (op == seq!['<', '='] && p == seq!['<'])),
{
    lemma_contains_none(r, p);
    assert(r.len() >= 1 ==> !is_op_char(r[0]));
    assert(p.len() == 2 ==> is_op_char(p[1]));
    if op.len() == 1 {
        assert(op + r =~= seq![op[0]] + r);
        lemma_contains_cons(op[0], r, p);
        lemma_has_prefix_small(op[0], r, p);
        if p.len() == 1 && p[0] == op[0] {
            assert(p =~= op);
        }
    } else {
        assert(op + r =~= seq![op[0]] + (seq![op[1]] + r));
        lemma_contains_cons(op[0], seq![op[1]] + r, p);
        lemma_contains_cons(op[1], r, p);
        lemma_has_prefix_small(op[0], seq![op[1]] + r, p);
        lemma_has_prefix_small(op[1], r, p);
        assert((seq![op[1]] + r)[0] == op[1]);
        if p.len() == 2 && p[0] == op[0] && p[1] == op[1] {
            assert(p =~= op);
        }
        if p == op {
            assert(p[0] == op[0] && p[1] == op[1]);
        }
    }
}

proof fn lemma_contains_op(l: Seq<char>, op: Seq<char>, r: Seq<char>, p: Seq<char>)
    requires
        is_comparison_op(op),
        is_comparison_op(p),
        no_op_chars(l),
        no_op_chars(r),
    ensures
        text::contains(l + op + r, p) == (op == p
            || (op == seq!['>', '='] && p == seq!['>'])
            || (op == seq!['<', '='] && p == seq!['<'])),
{
    assert(l + op + r =~= l + (op + r));
    lemma_contains_skip(l, op + r, p);
    lemma_contains_op_rest(op, r, p);
}

/// Inverting a comparison `l op r`, whose operands hold no operator
/// character, gives `l op' r` with the opposite operator.
pub proof fn lemma_invert_comparison(l: Seq<char>, op: Seq<char>, r: Seq<char>)
    requires
        is_comparison_op(op),
        no_op_chars(l),
        no_op_chars(r),
    ensures
        invert_simple_condition_spec(l + op + r) == l + opposite_op(op) + r,
{
    let c = l + op + r;
    lemma_contains_op(l, op, r, seq!['>', '=']);
    lemma_contains_op(l, op, r, seq!['<', '=']);
    lemma_contains_op(l, op, r, seq!['>']);
    lemma_contains_op(l, op, r, seq!['<']);
    lemma_contains_op(l, op, r, seq!['=', '=']);
    lemma_contains_op(l, op, r, seq!['!', '=']);
    lemma_replace_op(l, op, r, opposite_op(op));
}

proof fn lemma_opposite_op_involutive(op: Seq<char>)
    requires
        is_comparison_op(op),
    ensures
        is_comparison_op(opposite_op(op)),
        opposite_op(opposite_op(op)) == op,
{
    let ge = seq!['>', '='];
    let le = seq!['<', '='];
    let gt = seq!['>'];
    let lt = seq!['<'];
    let eq = seq!['=', '='];
    let ne = seq!['!', '='];
    assert(ge[0] == '>' && le[0] == '<' && gt[0] == '>' && lt[0] == '<' && eq[0] == '=' && ne[0] == '!');
    assert(ge.len() == 2 && le.len() == 2 && gt.len() == 1 && lt.len() == 1 && eq.len() == 2 && ne.len() == 2);
    assert(ge != le && ge != gt && ge != lt && ge != eq && ge != ne);
    assert(le != gt && le != lt && le != eq && le != ne);
    assert(gt != lt && gt != eq && gt != ne);
    assert(lt != eq && lt != ne);
    assert(eq != ne);
}

/// Inverting a comparison twice gives it back: `a >= b` becomes `a < b`
/// and then `a >= b` again, and likewise for every comparison operator,
/// where the operands hold no operator character.
pub proof fn lemma_invert_comparison_twice(l: Seq<char>, op: Seq<char>, r: Seq<char>)
    requires
        is_comparison_op(op),
        no_op_chars(l),
        no_op_chars(r),
    ensures
        invert_simple_condition_spec(invert_simple_condition_spec(l + op + r)) == l + op + r,
{
    lemma_invert_comparison(l, op, r);
    lemma_opposite_op_involutive(op);
    lemma_invert_comparison(l, opposite_op(op), r);
}


/// The position of the first comparison-operator character of `c` at or
/// after `i`.
pub open spec fn first_op_from(c: Seq<char>, i: int) -> Option<int>
    decreases c.len() - i,
{
    if i < 0 || i >= c.len() {
        None
    } else if is_op_char(c[i]) {
        Some(i)
    } else {
        first_op_from(c, i + 1)
    }
}

/// How many times `ch` occurs in `s`.
pub open spec fn count_char(s: Seq<char>, ch: char) -> nat
    decreases s.len(),
{
    if s.len() == 0 {
        0
    } else {
        count_char(s.drop_last(), ch) + if s.last() == ch { 1nat } else { 0nat }
    }
}

/// A character that may stand in an operand of a simple comparison: no
/// comparison-operator character and no `&` or `|`.
pub open spec fn operand_char(c: char) -> bool {
    !is_op_char(c) && c != '&' && c != '|'
}

/// An operand of a simple comparison: made of operand characters, with as
/// many closing as opening parentheses and square brackets.
pub open spec fn plain_operand(s: Seq<char>) -> bool {
    &&& forall|i: int| 0 <= i < s.len() ==> operand_char(#[trigger] s[i])
    &&& count_char(s, '(') == count_char(s, ')')
    &&& count_char(s, '[') == count_char(s, ']')
}

/// The length of the operator that starts at position `p`: two characters
/// when an `=` follows, else one.
pub open spec fn op_len_at(c: Seq<char>, p: int) -> int {
    if p + 1 < c.len() && c[p + 1] == '=' { 2 } else { 1 }
}

/// A condition that is a single comparison `l op r` between two plain
/// operands, split at its first operator; `None` for anything else (a
/// condition with `&&` or `||`, several comparisons, a comparison inside a
/// call, a negation, and so on).
pub open spec fn comparison_parts(c: Seq<char>) -> Option<(Seq<char>, Seq<char>, Seq<char>)> {
    match first_op_from(c, 0) {
        None => None,
        Some(p) => {
            let n = op_len_at(c, p);
            let l = c.take(p);
            let op = c.subrange(p, p + n);
            let r = c.skip(p + n);
            if is_comparison_op(op) && plain_operand(l) && plain_operand(r) {
                Some((l, op, r))
            } else {
                None
            }
        },
    }
}

proof fn lemma_first_op_from_bounds(c: Seq<char>, i: int)
    requires
        0 <= i,
    ensures
        first_op_from(c, i) matches Some(p) ==> i <= p < c.len() && is_op_char(c[p])
            && forall|j: int| i <= j < p ==> !is_op_char(#[trigger] c[j]),
    decreases c.len() - i,
{
    if i < c.len() && !is_op_char(c[i]) {
        lemma_first_op_from_bounds(c, i + 1);
    }
}

/// A simple comparison is the concatenation of its parts, and inverting it
/// as a simple condition swaps its operator for the opposite one.
pub proof fn lemma_comparison_parts_invert(c: Seq<char>)
    requires
        comparison_parts(c) is Some,
    ensures
        ({
            let (l, op, r) = comparison_parts(c)->0;
            &&& c == l + op + r
            &&& is_comparison_op(op)
            &&& invert_simple_condition_spec(c) == l + opposite_op(op) + r
            &&& invert_simple_condition_spec(c).len() <= c.len() + 1
        }),
{
    lemma_first_op_from_bounds(c, 0);
    let p = first_op_from(c, 0)->0;
    let n = op_len_at(c, p);
    let (l, op, r) = comparison_parts(c)->0;
    assert(c =~= l + op + r);
    assert forall|i: int| 0 <= i < l.len() implies !is_op_char(#[trigger] l[i]) by {
        assert(operand_char(l[i]));
    }
    assert forall|i: int| 0 <= i < r.len() implies !is_op_char(#[trigger] r[i]) by {
        assert(operand_char(r[i]));
    }
    lemma_invert_comparison(l, op, r);
}

fn count_char_exec(s: &[char], ch: char) -> (r: usize)
    ensures
        r == count_char(s@, ch),
{
    let mut n: usize = 0;
    let mut k: usize = 0;
    while k < s.len()
        invariant
            k <= s@.len(),
            n == count_char(s@.take(k as int), ch),
            n <= k,
        decreases s@.len() - k,
    {
        assert(s@.take(k + 1).drop_last() =~= s@.take(k as int));
        if s[k] == ch {
            n = n + 1;
        }
        k = k + 1;
    }
    assert(s@.take(k as int) =~= s@);
    n
}

fn plain_operand_exec(s: &[char]) -> (r: bool)
    ensures
        r == plain_operand(s@),
{
    let mut k: usize = 0;
    while k < s.len()
        invariant
            k <= s@.len(),
            forall|i: int| 0 <= i < k ==> operand_char(#[trigger] s@[i]),
        decreases s@.len() - k,
    {
        let c = s[k];
        if c == '<' || c == '>' || c == '=' || c == '!' || c == '&' || c == '|' {
            assert(!operand_char(s@[k as int]));
            return false;
        }
        k = k + 1;
    }
    count_char_exec(s, '(') == count_char_exec(s, ')') && count_char_exec(s, '[') == count_char_exec(s, ']')
}

/// Whether the condition is a single comparison between plain operands
/// (see `comparison_parts`).
pub fn is_simple_comparison(c: &[char]) -> (r: bool)
    ensures
        r == comparison_parts(c@) is Some,
{
    let mut p: usize = 0;
    while p < c.len() && !(c[p] == '<' || c[p] == '>' || c[p] == '=' || c[p] == '!')
        invariant
            p <= c@.len(),
            first_op_from(c@, 0) == first_op_from(c@, p as int),
        decreases c@.len() - p,
    {
        p = p + 1;
    }
    if p >= c.len() {
        return false;
    }
    let n: usize = if p + 1 < c.len() && c[p + 1] == '=' { 2 } else { 1 };
    let l = text::subrange_chars(c, 0, p);
    let op = text::subrange_chars(c, p, p + n);
    let r = text::subrange_chars(c, p + n, c.len());
    assert(l@ =~= c@.take(p as int));
    assert(r@ =~= c@.skip(p + n));
    let is_op = if n == 2 {
        (op[0] == '>' || op[0] == '<' || op[0] == '=' || op[0] == '!') && op[1] == '='
    } else {
        op[0] == '>' || op[0] == '<'
    };
    proof {
        if n == 2 {
            if is_op {
                assert(op@ =~= seq![op@[0], '=']);
            }
            assert(is_comparison_op(op@) ==> is_op);
        } else {
            if is_op {
                assert(op@ =~= seq![op@[0]]);
            }
            assert(is_comparison_op(op@) ==> is_op);
        }
    }
    is_op && plain_operand_exec(l.as_slice()) && plain_operand_exec(r.as_slice())
}


/// The text holds no line feed.
pub open spec fn no_newline(s: Seq<char>) -> bool {
    forall|i: int| 0 <= i < s.len() ==> #[trigger] s[i] != '\n'
}

/// The lines of `indent_lines`, each with its indentation, without the line
/// feeds between them.
pub open spec fn indented_output_lines(lines: Seq<Seq<char>>, level: nat) -> Seq<Seq<char>>
    decreases lines.len(),
{
    if lines.len() == 0 {
        seq![]
    } else {
        let t = text::trim(lines[0]);
        let pre = if t.len() > 0 { text::repeat(indent_unit(), line_level(t, level)) } else { seq![] };
        seq![pre + t] + indented_output_lines(lines.drop_first(), next_level(t, level))
    }
}

/// How many of the lines start with `}` once trimmed.
pub open spec fn closing_lines(lines: Seq<Seq<char>>) -> nat
    decreases lines.len(),
{
    if lines.len() == 0 {
        0
    } else {
        let t = text::trim(lines[0]);
        (if t.len() > 0 && t[0] == '}' { 1nat } else { 0nat }) + closing_lines(lines.drop_first())
    }
}

/// Each non-empty line with one more level of indentation.
pub open spec fn shifted_lines(lines: Seq<Seq<char>>) -> Seq<Seq<char>> {
    Seq::new(lines.len(), |i: int| if lines[i].len() > 0 { indent_unit() + lines[i] } else { lines[i] })
}

proof fn lemma_split_no_newline_piece(x: Seq<char>, y: Seq<char>)
    requires
        no_newline(x),
    ensures
        text::split(x + seq!['\n'] + y, seq!['\n']) == seq![x] + text::split(y, seq!['\n']),
        text::split(x, seq!['\n']) == seq![x],
    decreases x.len(),
{
    let sep = seq!['\n'];
    let s = x + sep + y;
    if x.len() == 0 {
        assert(s.take(1) =~= sep);
        assert(s.skip(1) =~= y);
        assert(text::has_prefix(s, sep));
        assert(text::split(s, sep) == seq![Seq::<char>::empty()] + text::split(s.skip(1), sep));
        assert(x =~= Seq::<char>::empty());
    } else {
        assert(s[0] == x[0]);
        assert(!text::has_prefix(s, sep)) by {
            if text::has_prefix(s, sep) {
                assert(s.take(1)[0] == sep[0]);
            }
        }
        assert(!text::has_prefix(x, sep)) by {
            if text::has_prefix(x, sep) {
                assert(x.take(1)[0] == sep[0]);
            }
        }
        let x1 = x.drop_first();
        assert(s.drop_first() =~= x1 + sep + y);
        lemma_split_no_newline_piece(x1, y);
        assert(seq![s[0]] + x1 =~= x);
        assert(text::split(s, sep) =~= seq![x] + text::split(y, sep));
        if x.len() >= 1 {
            assert(x.drop_first() =~= x1);
            assert(seq![x[0]] + x1 =~= x);
            assert(text::split(x, sep) =~= seq![x]);
        }
    }
}

proof fn lemma_split_pieces_no_newline(s: Seq<char>)
    ensures
        forall|i: int| 0 <= i < text::split(s, seq!['\n']).len() ==> no_newline(#[trigger] text::split(s, seq!['\n'])[i]),
    decreases s.len(),
{
    let sep = seq!['\n'];
    if s.len() < 1 {
    } else if text::has_prefix(s, sep) {
        lemma_split_pieces_no_newline(s.skip(1));
        let r = text::split(s, sep);
        assert(r == seq![Seq::<char>::empty()] + text::split(s.skip(1), sep));
        assert forall|i: int| 0 <= i < r.len() implies no_newline(#[trigger] r[i]) by {
            if i > 0 {
                assert(r[i] == text::split(s.skip(1), sep)[i - 1]);
            }
        }
    } else {
        assert(s[0] != '\n') by {
            if s[0] == '\n' {
                assert(s.take(1) =~= sep);
            }
        }
        lemma_split_pieces_no_newline(s.drop_first());
        text::lemma_split_nonempty(s.drop_first(), sep);
        let rest = text::split(s.drop_first(), sep);
        let r = text::split(s, sep);
        assert forall|i: int| 0 <= i < r.len() implies no_newline(#[trigger] r[i]) by {
            if i == 0 {
                assert(no_newline(rest[0]));
                assert forall|j: int| 0 <= j < r[0].len() implies #[trigger] r[0][j] != '\n' by {
                    if j > 0 {
                        assert(r[0][j] == rest[0][j - 1]);
                    }
                }
            } else {
                assert(r[i] == rest[i]);
            }
        }
    }
}

proof fn lemma_trim_start_no_newline(s: Seq<char>)
    requires
        no_newline(s),
    ensures
        no_newline(text::trim_start(s)),
    decreases s.len(),
{
    if s.len() > 0 && text::is_ws(s[0]) {
        assert forall|i: int| 0 <= i < s.drop_first().len() implies #[trigger] s.drop_first()[i] != '\n' by {
            assert(s.drop_first()[i] == s[i + 1]);
        }
        lemma_trim_start_no_newline(s.drop_first());
    }
}

proof fn lemma_trim_end_no_newline(s: Seq<char>)
    requires
        no_newline(s),
    ensures
        no_newline(text::trim_end(s)),
    decreases s.len(),
{
    if s.len() > 0 && text::is_ws(s.last()) {
        assert forall|i: int| 0 <= i < s.drop_last().len() implies #[trigger] s.drop_last()[i] != '\n' by {
            assert(s.drop_last()[i] == s[i]);
        }
        lemma_trim_end_no_newline(s.drop_last());
    }
}

proof fn lemma_trim_end_keeps_first(s: Seq<char>)
    ensures
        text::trim_end(s).len() > 0 ==> text::trim_end(s)[0] == s[0],
        text::trim_end(s).len() > 0 ==> !text::is_ws(text::trim_end(s).last()),
    decreases s.len(),
{
    if s.len() > 0 && text::is_ws(s.last()) {
        lemma_trim_end_keeps_first(s.drop_last());
    }
}

proof fn lemma_trim_start_first(s: Seq<char>)
    ensures
        text::trim_start(s).len() > 0 ==> !text::is_ws(text::trim_start(s)[0]),
    decreases s.len(),
{
    if s.len() > 0 && text::is_ws(s[0]) {
        lemma_trim_start_first(s.drop_first());
    }
}

/// Trimming what is trimmed changes nothing.
proof fn lemma_trim_idempotent(s: Seq<char>)
    ensures
        text::trim(text::trim(s)) == text::trim(s),
{
    let a = text::trim_start(s);
    let t = text::trim_end(a);
    lemma_trim_start_first(s);
    lemma_trim_end_keeps_first(a);
    assert(text::trim_start(t) == t);
    assert(text::trim_end(t) == t);
}

/// Leading whitespace is dropped by `trim_start`.
proof fn lemma_trim_start_ws_prefix(w: Seq<char>, t: Seq<char>)
    requires
        forall|i: int| 0 <= i < w.len() ==> text::is_ws(#[trigger] w[i]),
    ensures
        text::trim_start(w + t) == text::trim_start(t),
    decreases w.len(),
{
    if w.len() > 0 {
        assert((w + t)[0] == w[0]);
        assert((w + t).drop_first() =~= w.drop_first() + t);
        assert forall|i: int| 0 <= i < w.drop_first().len() implies text::is_ws(#[trigger] w.drop_first()[i]) by {
            assert(w.drop_first()[i] == w[i + 1]);
        }
        lemma_trim_start_ws_prefix(w.drop_first(), t);
    } else {
        assert(w + t =~= t);
    }
}

proof fn lemma_repeat_spaces(k: nat)
    ensures
        forall|i: int| 0 <= i < text::repeat(indent_unit(), k).len() ==> #[trigger] text::repeat(indent_unit(), k)[i] == ' ',
        text::repeat(indent_unit(), k + 1) == indent_unit() + text::repeat(indent_unit(), k),
    decreases k,
{
    if k > 0 {
        lemma_repeat_spaces((k - 1) as nat);
        let r = text::repeat(indent_unit(), (k - 1) as nat);
        assert(text::repeat(indent_unit(), k + 1) =~= indent_unit() + text::repeat(indent_unit(), k));
        assert forall|i: int| 0 <= i < text::repeat(indent_unit(), k).len() implies #[trigger] text::repeat(indent_unit(), k)[i] == ' ' by {
            if i < r.len() {
                assert(text::repeat(indent_unit(), k)[i] == r[i]);
            }
        }
    } else {
        assert(text::repeat(indent_unit(), 1) =~= indent_unit() + text::repeat(indent_unit(), 0));
    }
}

/// A re-indented line read back gives the trimmed line it came from.
proof fn lemma_trim_indented(k: nat, t: Seq<char>)
    requires
        text::trim(t) == t,
    ensures
        text::trim(text::repeat(indent_unit(), k) + t) == t,
{
    lemma_repeat_spaces(k);
    lemma_trim_start_ws_prefix(text::repeat(indent_unit(), k), t);
}

proof fn lemma_split_indent_lines(ls: Seq<Seq<char>>, level: nat)
    requires
        ls.len() >= 1,
        forall|i: int| 0 <= i < ls.len() ==> no_newline(#[trigger] ls[i]),
    ensures
        text::split(indent_lines(ls, level), seq!['\n']) == indented_output_lines(ls, level),
        indented_output_lines(ls, level).len() == ls.len(),
        forall|i: int| 0 <= i < ls.len() ==> text::trim(#[trigger] indented_output_lines(ls, level)[i]) == text::trim(ls[i]),
    decreases ls.len(),
{
    let t = text::trim(ls[0]);
    let lv = line_level(t, level);
    let pre = if t.len() > 0 { text::repeat(indent_unit(), lv) } else { seq![] };
    assert(no_newline(ls[0]));
    lemma_trim_start_no_newline(ls[0]);
    lemma_trim_end_no_newline(text::trim_start(ls[0]));
    lemma_repeat_spaces(lv);
    assert(no_newline(pre + t)) by {
        assert forall|i: int| 0 <= i < (pre + t).len() implies #[trigger] (pre + t)[i] != '\n' by {
            if i < pre.len() {
                assert((pre + t)[i] == pre[i]);
            } else {
                assert((pre + t)[i] == t[i - pre.len()]);
            }
        }
    }
    lemma_trim_idempotent(ls[0]);
    if t.len() > 0 {
        lemma_trim_indented(lv, t);
    } else {
        assert(pre + t =~= t);
    }
    let rest = ls.drop_first();
    let nl = next_level(t, level);
    if ls.len() == 1 {
        lemma_split_no_newline_piece(pre + t, seq![]);
        assert(rest.len() == 0);
        assert(indent_lines(rest, nl) == Seq::<char>::empty());
        assert(indented_output_lines(rest, nl) == Seq::<Seq<char>>::empty());
        assert(indent_lines(ls, level) =~= pre + t);
        assert(indented_output_lines(ls, level) =~= seq![pre + t]);
    } else {
        assert forall|i: int| 0 <= i < rest.len() implies no_newline(#[trigger] rest[i]) by {
            assert(rest[i] == ls[i + 1]);
        }
        lemma_split_indent_lines(rest, nl);
        lemma_split_no_newline_piece(pre + t, indent_lines(rest, nl));
        assert(indent_lines(ls, level) =~= pre + t + seq!['\n'] + indent_lines(rest, nl));
        let out = indented_output_lines(ls, level);
        assert(out == seq![pre + t] + indented_output_lines(rest, nl));
        assert forall|i: int| 0 <= i < ls.len() implies text::trim(#[trigger] out[i]) == text::trim(ls[i]) by {
            if i > 0 {
                assert(out[i] == indented_output_lines(rest, nl)[i - 1]);
                assert(ls[i] == rest[i - 1]);
            }
        }
    }
}

proof fn lemma_indent_lines_by_trim(a: Seq<Seq<char>>, b: Seq<Seq<char>>, level: nat)
    requires
        a.len() == b.len(),
        forall|i: int| 0 <= i < a.len() ==> text::trim(#[trigger] a[i]) == text::trim(b[i]),
    ensures
        indent_lines(a, level) == indent_lines(b, level),
    decreases a.len(),
{
    if a.len() > 0 {
        assert(text::trim(a[0]) == text::trim(b[0]));
        assert forall|i: int| 0 <= i < a.drop_first().len() implies text::trim(#[trigger] a.drop_first()[i])
            == text::trim(b.drop_first()[i]) by {
            assert(a.drop_first()[i] == a[i + 1]);
            assert(b.drop_first()[i] == b[i + 1]);
        }
        lemma_indent_lines_by_trim(a.drop_first(), b.drop_first(), next_level(text::trim(a[0]), level));
    }
}

/// Re-indenting a re-indented snippet at the same level changes nothing.
pub proof fn lemma_indent_snippet_idempotent(input: Seq<char>, n: nat)
    ensures
        indent_snippet_spec(indent_snippet_spec(input, n), n) == indent_snippet_spec(input, n),
{
    let ls = text::split(input, seq!['\n']);
    text::lemma_split_nonempty(input, seq!['\n']);
    lemma_split_pieces_no_newline(input);
    lemma_split_indent_lines(ls, n);
    let out = indented_output_lines(ls, n);
    lemma_indent_lines_by_trim(out, ls, n);
}

proof fn lemma_output_lines_shift(ls: Seq<Seq<char>>, level: nat)
    requires
        level >= closing_lines(ls),
    ensures
        indented_output_lines(ls, level + 1) == shifted_lines(indented_output_lines(ls, level)),
    decreases ls.len(),
{
    if ls.len() > 0 {
        let t = text::trim(ls[0]);
        let lv = line_level(t, level);
        assert(line_level(t, level + 1) == lv + 1);
        assert(next_level(t, level + 1) == next_level(t, level) + 1);
        lemma_output_lines_shift(ls.drop_first(), next_level(t, level));
        lemma_repeat_spaces(lv);
        let out = indented_output_lines(ls, level);
        let out1 = indented_output_lines(ls, level + 1);
        let rest = indented_output_lines(ls.drop_first(), next_level(t, level));
        let rest1 = indented_output_lines(ls.drop_first(), next_level(t, level) + 1);
        assert(out1.len() == out.len());
        assert forall|i: int| 0 <= i < out.len() implies #[trigger] out1[i] == shifted_lines(out)[i] by {
            if i == 0 {
                if t.len() > 0 {
                    assert(text::repeat(indent_unit(), lv + 1) + t =~= indent_unit() + (text::repeat(indent_unit(), lv) + t));
                } else {
                    assert(out[0] =~= t);
                }
            } else {
                assert(out1[i] == rest1[i - 1]);
                assert(out[i] == rest[i - 1]);
            }
        }
        assert(out1 =~= shifted_lines(out));
    } else {
        assert(shifted_lines(seq![]) =~= Seq::<Seq<char>>::empty());
    }
}

/// Starting one level deeper, where the level never has to stop at zero
/// (at least as many starting levels as lines that start with `}`), every
/// non-empty line of the result gets four more spaces and the empty lines
/// stay empty.
pub proof fn lemma_indent_snippet_shift(input: Seq<char>, n: nat)
    requires
        n >= closing_lines(text::split(input, seq!['\n'])),
    ensures
        text::split(indent_snippet_spec(input, n + 1), seq!['\n'])
            == shifted_lines(text::split(indent_snippet_spec(input, n), seq!['\n'])),
{
    let ls = text::split(input, seq!['\n']);
    text::lemma_split_nonempty(input, seq!['\n']);
    lemma_split_pieces_no_newline(input);
    lemma_split_indent_lines(ls, n);
    lemma_split_indent_lines(ls, n + 1);
    lemma_output_lines_shift(ls, n);
}
} // verus!
