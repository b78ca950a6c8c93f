use vstd::prelude::*;
use crate::context::{Lint, LintRule};
use crate::queries;
use crate::helper;
use crate::semantic::{Block, Expr, ExprIf, Statement};
use crate::text;

verus! {

/// Checks for manual implementations of `assert` macro in `if` expressions.
pub struct ManualAssert;

impl Lint for ManualAssert {
    open spec fn rule(&self) -> LintRule {
        LintRule::ManualAssert
    }

    fn lint_rule(&self) -> (r: LintRule) {
        LintRule::ManualAssert
    }
}


/// The arguments of the macro that a block of the `if` starts with.
#[derive(Debug)]
pub enum BlockPanicArgs {
    /// A `panic!` call, with the source text of each token of its arguments.
    Panic(Vec<String>),
    /// A call of an inline macro other than `panic!`.
    OtherMacro,
    /// No statement, or a first statement that is not an inline macro call
    /// with arguments.
    Malformed,
}

/// The `else` clause of the `if`.
#[derive(Debug)]
pub enum AssertElse {
    NoElse,
    /// An `else` block: the text of its statements and what it starts with.
    Block { statements: String, panic_args: BlockPanicArgs },
    /// An `else if`: its source text.
    ElseIf { text: String },
}

/// The source of an `if` that a manual assert was reported on.
#[derive(Debug)]
pub struct ManualAssertSyntax {
    /// Whether the `if` is the `if` of an `else if`.
    pub is_else_if: bool,
    /// The text whose leading whitespace is the indentation: that of the
    /// `if` itself, or for an `else if`, that of the enclosing `if`.
    pub indent_text: String,
    /// The text of the first condition when it is an expression (`None`
    /// when there is none or it is a `let`).
    pub condition: Option<String>,
    /// The text of the statements of the `if` block.
    pub if_statements: String,
    pub if_panic_args: BlockPanicArgs,
    pub else_clause: AssertElse,
}

/// The text of `panic!`'s arguments, each token trimmed and a comma
/// followed by one space.
pub open spec fn panic_args_text(args: Seq<Seq<char>>) -> Seq<char>
    decreases args.len(),
{
    if args.len() == 0 {
        Seq::empty()
    } else {
        let t = text::trim(args[0]);
        (if t == seq![','] { t + seq![' '] } else { t }) + panic_args_text(args.drop_first())
    }
}

/// The arguments of `panic!` where a block starts with it.
pub open spec fn panic_args_of(p: BlockPanicArgs) -> Option<Seq<Seq<char>>> {
    match p {
        BlockPanicArgs::Panic(args) => Some(text::string_views(args@)),
        _ => None,
    }
}

/// The `panic!` arguments of the `else` block, when it is a block.
pub open spec fn else_panic_args(e: AssertElse) -> Option<Seq<Seq<char>>> {
    match e {
        AssertElse::Block { panic_args, .. } => panic_args_of(panic_args),
        _ => None,
    }
}

/// The inputs on which the fix panics: neither block starts with `panic!`,
/// so there is no message to assert with.
pub open spec fn manual_assert_fix_panics(s: ManualAssertSyntax) -> bool {
    &&& s.condition is Some
    &&& panic_args_of(s.if_panic_args) is None
    &&& else_panic_args(s.else_clause) is None
}

/// The negation of a condition: a single comparison gets the opposite
/// operator (`a == 5` becomes `a != 5`); any other condition is wrapped as
/// `!(..)`. The condition is trimmed first.
pub open spec fn negated_condition(c: Seq<char>) -> Seq<char> {
    let t = text::trim(c);
    if helper::comparison_parts(t) is Some {
        helper::invert_simple_condition_spec(t)
    } else {
        "!("@ + t + ")"@
    }
}

/// The number of columns of indentation of the fix.
pub open spec fn assert_indent(s: ManualAssertSyntax) -> nat {
    let n = text::leading_ws(s.indent_text@).len();
    if s.is_else_if { n + 4 } else { n }
}

/// `"assert!({cond}, {args});\n"`.
pub open spec fn assert_call_text(cond: Seq<char>, args: Seq<Seq<char>>) -> Seq<char> {
    "assert!("@ + cond + ", "@ + panic_args_text(args) + ");\n"@
}

/// The text that the fix re-indents: an `assert!` of the condition
/// (negated when the `if` block panics), followed by the statements of the
/// other block (or the `else if`); `None` when both blocks panic.
pub open spec fn assert_fix_body(s: ManualAssertSyntax) -> Option<Seq<char>> {
    let prefix: Seq<char> = if s.is_else_if { "{\n"@ } else { Seq::empty() };
    let suffix: Seq<char> = if s.is_else_if { "}\n"@ } else { Seq::empty() };
    match s.condition {
        None => None,
        Some(c) => match (panic_args_of(s.if_panic_args), else_panic_args(s.else_clause)) {
            (Some(args), None) => {
                let call = assert_call_text(negated_condition(c@), args);
                match s.else_clause {
                    AssertElse::Block { statements, .. } => Some(call + " "@ + statements@ + suffix),
                    AssertElse::ElseIf { text } => Some(call + " "@ + text@ + suffix),
                    AssertElse::NoElse => Some(prefix + call + suffix),
                }
            },
            (None, Some(args)) => {
                let call = assert_call_text(text::trim(c@), args);
                Some(call + " "@ + s.if_statements@ + suffix)
            },
            _ => None,
        },
    }
}

/// The replacement of the `if`: the body above re-indented at the level
/// of the `if`; an `else if` is wrapped in braces.
pub open spec fn fix_manual_assert_spec(s: ManualAssertSyntax) -> Option<Seq<char>> {
    let prefix: Seq<char> = if s.is_else_if { "{\n"@ } else { Seq::empty() };
    match assert_fix_body(s) {
        Some(b) => Some(prefix + helper::indent_snippet_spec(b, assert_indent(s) / 4)),
        None => None,
    }
}

/// Bounds on the sizes of the texts that keep the arithmetic of the fix
/// within `usize`.
pub open spec fn manual_assert_sizes_fit(s: ManualAssertSyntax) -> bool {
    let total = s.indent_text@.len() + match s.condition { Some(c) => c@.len(), None => 0 }
        + s.if_statements@.len() + match s.if_panic_args {
            BlockPanicArgs::Panic(a) => args_len(text::string_views(a@)),
            _ => 0,
        } + match s.else_clause {
            AssertElse::Block { statements, panic_args } => statements@.len() + match panic_args {
                BlockPanicArgs::Panic(a) => args_len(text::string_views(a@)),
                _ => 0,
            },
            AssertElse::ElseIf { text } => text@.len(),
            AssertElse::NoElse => 0,
        };
    total + 64 < usize::MAX
}

/// The total length of the argument tokens, with one more for each.
pub open spec fn args_len(args: Seq<Seq<char>>) -> nat
    decreases args.len(),
{
    if args.len() == 0 { 0 } else { args[0].len() + 1 + args_len(args.drop_first()) }
}

proof fn lemma_panic_args_text_len(args: Seq<Seq<char>>)
    ensures
        panic_args_text(args).len() <= args_len(args),
    decreases args.len(),
{
    if args.len() > 0 {
        lemma_panic_args_text_len(args.drop_first());
        text::lemma_trim_len(args[0]);
    }
}

fn join_panic_args(args: &Vec<String>) -> (r: Vec<char>)
    ensures
        r@ == panic_args_text(text::string_views(args@)),
{
    let ghost vs = text::string_views(args@);
    let mut out: Vec<char> = Vec::new();
    let mut k: usize = 0;
    assert(vs.skip(0) =~= vs);
    while k < args.len()
        invariant
            vs == text::string_views(args@),
            k <= args@.len(),
            out@ + panic_args_text(vs.skip(k as int)) == panic_args_text(vs),
        decreases args@.len() - k,
    {
        let ghost rest = vs.skip(k as int);
        assert(rest[0] == args@[k as int]@);
        assert(rest.drop_first() =~= vs.skip(k + 1));
        let c = text::chars_of(args[k].as_str());
        let t = text::trim_chars(c.as_slice());
        let is_comma = t.len() == 1 && t[0] == ',';
        proof {
            if is_comma {
                assert(t@ =~= seq![',']);
            }
            if t@ == seq![','] {
                assert(t@.len() == 1 && t@[0] == ',');
            }
        }
        text::push_all(&mut out, t.as_slice());
        if is_comma {
            out.push(' ');
        }
        assert(out@ + panic_args_text(vs.skip(k + 1)) == panic_args_text(vs));
        k = k + 1;
    }
    assert(vs.skip(k as int) =~= Seq::<Seq<char>>::empty());
    out
}

fn build_assert_call(negate: bool, cond: &str, args: &Vec<String>) -> (r: Vec<char>)
    ensures
        r@ == assert_call_text(if negate { negated_condition(cond@) } else { text::trim(cond@) },
            text::string_views(args@)),
{
    let mut call: Vec<char> = Vec::new();
    text::push_str(&mut call, "assert!(");
    if negate {
        let cc = text::chars_of(cond);
        let t = text::trim_chars(cc.as_slice());
        if helper::is_simple_comparison(t.as_slice()) {
            let inv = helper::invert_simple_chars(t.as_slice());
            text::push_all(&mut call, inv.as_slice());
        } else {
            text::push_str(&mut call, "!(");
            text::push_all(&mut call, t.as_slice());
            text::push_str(&mut call, ")");
        }
    } else {
        text::push_trimmed(&mut call, cond);
    }
    text::push_str(&mut call, ", ");
    let joined = join_panic_args(args);
    text::push_all(&mut call, joined.as_slice());
    text::push_str(&mut call, ");\n");
    call
}

/// The `panic!` arguments of a block that starts with `panic!`.
fn get_panic_args_from_block(p: &BlockPanicArgs) -> (r: Option<&Vec<String>>)
    ensures
        match r {
            Some(a) => panic_args_of(*p) == Some(text::string_views(a@)),
            None => panic_args_of(*p) is None,
        },
{
    match p {
        BlockPanicArgs::Panic(a) => Some(a),
        _ => None,
    }
}

/// The `panic!` arguments of the `if` block, and of the `else` block when
/// the `else` clause is a block.
fn get_panic_args_from_diagnosed_node(s: &ManualAssertSyntax) -> (r: (Option<&Vec<String>>, Option<&Vec<String>>))
    ensures
        match r.0 {
            Some(a) => panic_args_of(s.if_panic_args) == Some(text::string_views(a@)),
            None => panic_args_of(s.if_panic_args) is None,
        },
        match r.1 {
            Some(a) => else_panic_args(s.else_clause) == Some(text::string_views(a@)),
            None => else_panic_args(s.else_clause) is None,
        },
{
    let else_args = match &s.else_clause {
        AssertElse::Block { panic_args, .. } => get_panic_args_from_block(panic_args),
        _ => None,
    };
    (get_panic_args_from_block(&s.if_panic_args), else_args)
}

fn build_assert_body(s: &ManualAssertSyntax) -> (r: Option<Vec<char>>)
    requires
        !manual_assert_fix_panics(*s),
    ensures
        match r {
            Some(v) => assert_fix_body(*s) == Some(v@),
            None => assert_fix_body(*s) is None,
        },
{
    let cond = match &s.condition {
        Some(c) => c,
        None => return None,
    };
    let mut prefix: Vec<char> = Vec::new();
    let mut suffix: Vec<char> = Vec::new();
    if s.is_else_if {
        text::push_str(&mut prefix, "{\n");
        text::push_str(&mut suffix, "}\n");
    }
    let (if_args, else_args) = get_panic_args_from_diagnosed_node(s);
    let mut body: Vec<char> = Vec::new();
    match (if_args, else_args) {
        (Some(args), None) => {
            let call = build_assert_call(true, cond.as_str(), args);
            match &s.else_clause {
                AssertElse::Block { statements, .. } => {
                    text::push_all(&mut body, call.as_slice());
                    text::push_str(&mut body, " ");
                    text::push_str(&mut body, statements.as_str());
                    text::push_all(&mut body, suffix.as_slice());
                },
                AssertElse::ElseIf { text: t } => {
                    text::push_all(&mut body, call.as_slice());
                    text::push_str(&mut body, " ");
                    text::push_str(&mut body, t.as_str());
                    text::push_all(&mut body, suffix.as_slice());
                },
                AssertElse::NoElse => {
                    text::push_all(&mut body, prefix.as_slice());
                    text::push_all(&mut body, call.as_slice());
                    text::push_all(&mut body, suffix.as_slice());
                },
            }
            Some(body)
        },
        (None, Some(args)) => {
            let call = build_assert_call(false, cond.as_str(), args);
            text::push_all(&mut body, call.as_slice());
            text::push_str(&mut body, " ");
            text::push_str(&mut body, s.if_statements.as_str());
            text::push_all(&mut body, suffix.as_slice());
            Some(body)
        },
        _ => None,
    }
}

proof fn lemma_assert_body_len(s: ManualAssertSyntax)
    requires
        manual_assert_sizes_fit(s),
    ensures
        assert_fix_body(s) matches Some(b) ==> b.len() + s.indent_text@.len() + 8 < usize::MAX,
{
    reveal_strlit("assert!(");
    reveal_strlit("!(");
    reveal_strlit(")");
    reveal_strlit(", ");
    reveal_strlit(");\n");
    reveal_strlit(" ");
    reveal_strlit("{\n");
    reveal_strlit("}\n");
    match s.condition {
        Some(c) => {
            text::lemma_trim_len(c@);
            if helper::comparison_parts(text::trim(c@)) is Some {
                helper::lemma_comparison_parts_invert(text::trim(c@));
            }
        },
        None => {},
    }
    match s.if_panic_args {
        BlockPanicArgs::Panic(a) => lemma_panic_args_text_len(text::string_views(a@)),
        _ => {},
    }
    match s.else_clause {
        AssertElse::Block { panic_args: BlockPanicArgs::Panic(a), .. } =>
            lemma_panic_args_text_len(text::string_views(a@)),
        _ => {},
    }
}

/// The fix of a manual assert: see `fix_manual_assert_spec`.
pub fn fix_manual_assert(s: &ManualAssertSyntax) -> (r: Option<String>)
    requires
        !manual_assert_fix_panics(*s),
        manual_assert_sizes_fit(*s),
    ensures
        text::opt_view(r) == fix_manual_assert_spec(*s),
{
    let body = match build_assert_body(s) {
        Some(b) => b,
        None => return None,
    };
    proof { lemma_assert_body_len(*s); }
    let ind_chars = text::chars_of(s.indent_text.as_str());
    let n = text::leading_ws_len(ind_chars.as_slice());
    let indent: usize = if s.is_else_if { n + 4 } else { n };
    let level = indent / 4;
    let body_s = text::string_of(body.as_slice());
    proof { helper::lemma_indent_snippet_fits(body_s@, level as nat); }
    let indented = helper::indent_snippet(body_s.as_str(), level);
    let mut out: Vec<char> = Vec::new();
    if s.is_else_if {
        text::push_str(&mut out, "{\n");
    }
    text::push_str(&mut out, indented.as_str());
    Some(text::string_of(out.as_slice()))
}

/// The number of manual asserts reported for one block of an `if`: one
/// where the block starts with a panicking statement, or has no statement
/// and a panicking tail.
pub open spec fn condition_block_hits(b: Block) -> nat {
    if b.statements@.len() > 0 {
        if b.statements@[0] matches Statement::Expr(e) && helper::is_panic_expr_spec(e) { 1 } else { 0 }
    } else {
        match b.tail {
            Some(t) => if helper::is_panic_expr_spec(*t) { 1 } else { 0 },
            None => 0,
        }
    }
}

/// The number of manual asserts reported on an `if`: for its `if` block
/// and for its `else` block, each when it is a block.
pub open spec fn manual_assert_hits(i: ExprIf) -> nat {
    match *i.if_block {
        Expr::Block(b) => condition_block_hits(b) + match i.else_block {
            Some(e) => match *e {
                Expr::Block(eb) => condition_block_hits(eb),
                _ => 0,
            },
            None => 0,
        },
        _ => 0,
    }
}

fn check_single_condition_block(b: &Block) -> (r: usize)
    ensures
        r == condition_block_hits(*b),
{
    if b.statements.len() > 0 {
        match &b.statements[0] {
            Statement::Expr(e) => if helper::is_panic_expr(e) { 1 } else { 0 },
            _ => 0,
        }
    } else {
        match &b.tail {
            Some(t) => if helper::is_panic_expr(&**t) { 1 } else { 0 },
            None => 0,
        }
    }
}

/// How many manual-assert diagnostics one `if` raises (see
/// `manual_assert_hits`).
pub fn check_single_manual_assert(if_expr: &ExprIf) -> (r: usize)
    ensures
        r == manual_assert_hits(*if_expr),
{
    let if_block = match &*if_expr.if_block {
        Expr::Block(b) => b,
        _ => return 0,
    };
    let first = check_single_condition_block(if_block);
    let second = match &if_expr.else_block {
        Some(e) => match &**e {
            Expr::Block(eb) => check_single_condition_block(eb),
            _ => 0,
        },
        None => 0,
    };
    first + second
}


/// The manual asserts of a function body.
pub fn check_manual_assert(body: &queries::FunctionBody) -> (r: Vec<queries::LintHit>)
    ensures
        queries::hit_views(r@) == queries::body_hits(queries::BodyCheck::ManualAssert, body.exprs@),
{
    queries::check_body(&queries::BodyCheck::ManualAssert, body)
}


/// An `if` raises at most two manual-assert diagnostics: one for each of
/// its blocks.
pub proof fn lemma_manual_assert_at_most_two(i: ExprIf)
    ensures
        manual_assert_hits(i) <= 2,
{
}

} // verus!
