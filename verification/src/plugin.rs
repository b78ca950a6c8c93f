//! The linter's configuration and the decisions on which diagnostics it
//! reports.
use vstd::prelude::*;
use crate::context;
use crate::text;
use crate::context::LintRule;

verus! {

/// Lexicographic order on character sequences, which is the order of
/// `String` (UTF-8 preserves the order of code points).
pub open spec fn seq_lt(a: Seq<char>, b: Seq<char>) -> bool
    decreases a.len(),
{
    if b.len() == 0 {
        false
    } else if a.len() == 0 {
        true
    } else if a[0] < b[0] {
        true
    } else if a[0] > b[0] {
        false
    } else {
        seq_lt(a.drop_first(), b.drop_first())
    }
}

pub proof fn lemma_seq_lt_transitive(a: Seq<char>, b: Seq<char>, c: Seq<char>)
    requires
        seq_lt(a, b),
        seq_lt(b, c),
    ensures
        seq_lt(a, c),
    decreases a.len(),
{
    if a.len() > 0 && b.len() > 0 && c.len() > 0 && a[0] == b[0] && b[0] == c[0] {
        lemma_seq_lt_transitive(a.drop_first(), b.drop_first(), c.drop_first());
    }
}

pub proof fn lemma_seq_lt_irreflexive(a: Seq<char>)
    ensures
        !seq_lt(a, a),
    decreases a.len(),
{
    if a.len() > 0 {
        lemma_seq_lt_irreflexive(a.drop_first());
    }
}

pub proof fn lemma_seq_lt_total(a: Seq<char>, b: Seq<char>)
    ensures
        seq_lt(a, b) || seq_lt(b, a) || a == b,
    decreases a.len(),
{
    if a.len() > 0 && b.len() > 0 && a[0] == b[0] {
        lemma_seq_lt_total(a.drop_first(), b.drop_first());
        if a.drop_first() == b.drop_first() {
            assert(a =~= seq![a[0]] + a.drop_first());
            assert(b =~= seq![b[0]] + b.drop_first());
        }
    } else if a.len() == 0 && b.len() == 0 {
        assert(a =~= b);
    }
}

/// Compares two character sequences in lexicographic order.
pub fn chars_lt(a: &[char], b: &[char]) -> (r: bool)
    ensures
        r == seq_lt(a@, b@),
{
    let mut i: usize = 0;
    assert(a@.skip(0) =~= a@);
    assert(b@.skip(0) =~= b@);
    while i < a.len() && i < b.len() && a[i] == b[i]
        invariant
            i <= a@.len(),
            i <= b@.len(),
            seq_lt(a@, b@) == seq_lt(a@.skip(i as int), b@.skip(i as int)),
        decreases a@.len() - i,
    {
        assert(a@.skip(i as int).drop_first() =~= a@.skip(i + 1));
        assert(b@.skip(i as int).drop_first() =~= b@.skip(i + 1));
        assert(a@.skip(i as int)[0] == a@[i as int]);
        assert(b@.skip(i as int)[0] == b@[i as int]);
        i = i + 1;
    }
    if i == b.len() {
        assert(b@.skip(i as int).len() == 0);
        false
    } else if i == a.len() {
        assert(a@.skip(i as int).len() == 0);
        true
    } else {
        assert(a@.skip(i as int)[0] == a@[i as int]);
        assert(b@.skip(i as int)[0] == b@[i as int]);
        a[i] < b[i]
    }
}

/// Character sequences in strictly increasing order.
pub open spec fn strictly_sorted(ks: Seq<Seq<char>>) -> bool {
    forall|i: int, j: int| 0 <= i < j < ks.len() ==> seq_lt(ks[i], ks[j])
}

/// In a strictly increasing sequence, each element sits at its own index.
pub proof fn lemma_sorted_index_of(ks: Seq<Seq<char>>, i: int)
    requires
        strictly_sorted(ks),
        0 <= i < ks.len(),
    ensures
        ks.contains(ks[i]),
        ks.index_of(ks[i]) == i,
{
    let k = ks[i];
    assert(ks[i] == k);
    let j = ks.index_of(k);
    if j != i {
        lemma_seq_lt_irreflexive(k);
    }
}

/// Whether two character vectors hold the same characters.
pub fn vec_chars_eq(a: &[char], b: &[char]) -> (r: bool)
    ensures
        r == (a@ == b@),
{
    if a.len() != b.len() {
        return false;
    }
    let mut i: usize = 0;
    while i < a.len()
        invariant
            a@.len() == b@.len(),
            i <= a@.len(),
            forall|k: int| 0 <= k < i ==> a@[k] == b@[k],
        decreases a@.len() - i,
    {
        if a[i] != b[i] {
            return false;
        }
        i = i + 1;
    }
    assert(a@ =~= b@);
    true
}

/// The names of a list of configuration entries.
pub open spec fn entry_keys(es: Seq<(Vec<char>, bool)>) -> Seq<Seq<char>> {
    Seq::new(es.len(), |i: int| es[i].0@)
}

/// The settings of a list of configuration entries.
pub open spec fn entry_values(es: Seq<(Vec<char>, bool)>) -> Seq<bool> {
    Seq::new(es.len(), |i: int| es[i].1)
}

/// The map from name to setting of sorted configuration entries.
pub open spec fn entry_map(es: Seq<(Vec<char>, bool)>) -> Map<Seq<char>, bool> {
    Map::new(
        |k: Seq<char>| entry_keys(es).contains(k),
        |k: Seq<char>| entry_values(es)[entry_keys(es).index_of(k)],
    )
}

/// The configuration of the lints: for some lint names, whether the lint
/// is on. Names are kept in increasing order, each at most once, as in an
/// ordered map.
#[derive(Debug, Clone)]
pub struct CairoLintToolMetadata {
    entries: Vec<(Vec<char>, bool)>,
}

impl CairoLintToolMetadata {
    /// The names, in increasing order.
    pub closed spec fn keys(&self) -> Seq<Seq<char>> {
        entry_keys(self.entries@)
    }

    /// The settings, in the order of the names.
    pub closed spec fn values(&self) -> Seq<bool> {
        entry_values(self.entries@)
    }

    /// Names strictly increase.
    pub closed spec fn wf(&self) -> bool {
        strictly_sorted(entry_keys(self.entries@))
    }

    /// The configuration as a map from lint name to setting.
    pub closed spec fn map(&self) -> Map<Seq<char>, bool> {
        entry_map(self.entries@)
    }

    /// Names strictly increase, and the map is made of the names and
    /// settings at the same positions.
    pub proof fn lemma_layout(&self)
        requires
            self.wf(),
        ensures
            strictly_sorted(self.keys()),
            self.keys().len() == self.values().len(),
            forall|i: int| 0 <= i < self.keys().len() ==> self.map().contains_key(#[trigger] self.keys()[i])
                && self.map()[self.keys()[i]] == self.values()[i],
            forall|k: Seq<char>| #[trigger] self.map().contains_key(k) <==> self.keys().contains(k),
    {
        assert forall|i: int| 0 <= i < self.keys().len() implies self.map().contains_key(#[trigger] self.keys()[i])
            && self.map()[self.keys()[i]] == self.values()[i] by {
            lemma_sorted_index_of(self.keys(), i);
        }
    }

    /// An empty configuration.
    pub fn new() -> (r: Self)
        ensures
            r.wf(),
            r.keys().len() == 0,
            r.map() == Map::<Seq<char>, bool>::empty(),
    {
        let r = CairoLintToolMetadata { entries: Vec::new() };
        assert(r.map() =~= Map::<Seq<char>, bool>::empty());
        r
    }

    /// Number of configured lints.
    pub fn len(&self) -> (r: usize)
        requires
            self.wf(),
        ensures
            r == self.keys().len(),
    {
        self.entries.len()
    }

    /// The configured name at a position in increasing order.
    pub fn key_at(&self, i: usize) -> (r: &Vec<char>)
        requires
            i < self.keys().len(),
        ensures
            r@ == self.keys()[i as int],
    {
        &self.entries[i].0
    }

    /// The setting at a position in increasing order of names.
    pub fn value_at(&self, i: usize) -> (r: bool)
        requires
            i < self.keys().len(),
        ensures
            r == self.values()[i as int],
    {
        self.entries[i].1
    }

    /// The setting for the lint named `name`, if it is configured.
    pub fn get(&self, name: &str) -> (r: Option<bool>)
        requires
            self.wf(),
        ensures
            r == (if self.map().contains_key(name@) {
                Some(self.map()[name@])
            } else {
                None
            }),
    {
        proof { self.lemma_layout(); }
        let n = text::chars_of(name);
        let mut i: usize = 0;
        while i < self.entries.len()
            invariant
                self.wf(),
                n@ == name@,
                i <= self.keys().len(),
                self.keys().len() == self.entries@.len(),
                forall|k: int| 0 <= k < i ==> self.keys()[k] != n@,
            decreases self.entries@.len() - i,
        {
            if vec_chars_eq(self.entries[i].0.as_slice(), n.as_slice()) {
                proof { self.lemma_layout(); }
                assert(self.keys()[i as int] == n@);
                assert(self.values()[i as int] == self.entries@[i as int].1);
                assert(self.map().contains_key(self.keys()[i as int]));
                assert(self.map()[self.keys()[i as int]] == self.values()[i as int]);
                assert(n@ == name@);
                return Some(self.entries[i].1);
            }
            i = i + 1;
        }
        proof {
            if self.keys().contains(n@) {
                let j = self.keys().index_of(n@);
                assert(self.keys()[j] == n@);
            }
        }
        None
    }

    /// Sets whether the lint named `name` is on, replacing an earlier
    /// setting for it.
    pub fn insert(&mut self, name: &str, value: bool)
        requires
            old(self).wf(),
        ensures
            final(self).wf(),
            final(self).map() == old(self).map().insert(name@, value),
    {
        let n = text::chars_of(name);
        let ghost old_es = self.entries@;
        let ghost old_keys = entry_keys(old_es);
        let ghost old_values = entry_values(old_es);
        let ghost before = entry_map(old_es);
        let mut i: usize = 0;
        while i < self.entries.len()
            invariant
                self.entries@ == old_es,
                old_keys == entry_keys(old_es),
                i <= old_keys.len(),
                old_keys.len() == old_es.len(),
                forall|k: int| 0 <= k < i ==> seq_lt(#[trigger] old_keys[k], n@),
            ensures
                i <= old_keys.len(),
                forall|k: int| 0 <= k < i ==> seq_lt(#[trigger] old_keys[k], n@),
                i < old_keys.len() ==> !seq_lt(old_keys[i as int], n@),
            decreases old_es.len() - i,
        {
            let key: &Vec<char> = &self.entries[i].0;
            if !chars_lt(key.as_slice(), n.as_slice()) {
                assert(old_keys[i as int] == key@);
                break;
            }
            assert(old_keys[i as int] == key@);
            i = i + 1;
        }
        let mut entries = Vec::new();
        std::mem::swap(&mut entries, &mut self.entries);
        assert(entries@ == old_es);
        if i < entries.len() && vec_chars_eq(entries[i].0.as_slice(), n.as_slice()) {
            entries.set(i, (n, value));
            proof {
                let new_keys = entry_keys(entries@);
                assert(new_keys =~= old_keys);
                assert(entry_values(entries@) =~= old_values.update(i as int, value));
                let after = entry_map(entries@);
                assert forall|k: Seq<char>| #[trigger] after.contains_key(k) == before.insert(name@, value).contains_key(k) by {
                    if k == name@ {
                        assert(new_keys[i as int] == k);
                    }
                }
                assert forall|k: Seq<char>| after.contains_key(k) implies #[trigger] after[k] == before.insert(name@, value)[k] by {
                    let j = new_keys.index_of(k);
                    assert(new_keys[j] == k);
                    lemma_sorted_index_of(old_keys, j);
                    if k == name@ {
                        lemma_sorted_index_of(old_keys, i as int);
                    }
                }
                assert(after =~= before.insert(name@, value));
            }
            self.entries = entries;
        } else {
            proof {
                if i < old_keys.len() {
                    lemma_seq_lt_total(old_keys[i as int], n@);
                }
                assert forall|j: int| i <= j < old_keys.len() implies seq_lt(n@, #[trigger] old_keys[j]) by {
                    if j > i {
                        lemma_seq_lt_transitive(n@, old_keys[i as int], old_keys[j]);
                    }
                }
            }
            entries.insert(i, (n, value));
            proof {
                let new_keys = entry_keys(entries@);
                assert(new_keys =~= old_keys.insert(i as int, name@));
                assert(entry_values(entries@) =~= old_values.insert(i as int, value));
                assert forall|a: int, b: int| 0 <= a < b < new_keys.len() implies seq_lt(new_keys[a], new_keys[b]) by {
                    if b == i {
                    } else if a == i {
                        if b > i + 1 {
                            lemma_seq_lt_transitive(n@, old_keys[i as int], old_keys[b - 1]);
                        }
                    } else if a < i && b > i {
                        if a < i - 1 {
                        }
                        lemma_seq_lt_transitive(old_keys[a], n@, old_keys[b - 1]);
                    }
                }
                let after = entry_map(entries@);
                assert forall|k: Seq<char>| #[trigger] after.contains_key(k) == before.insert(name@, value).contains_key(k) by {
                    if k == name@ {
                        assert(new_keys[i as int] == k);
                    } else if new_keys.contains(k) {
                        let j = new_keys.index_of(k);
                        if j < i {
                            assert(old_keys[j] == k);
                        } else {
                            assert(old_keys[j - 1] == k);
                        }
                    } else if old_keys.contains(k) {
                        let j = old_keys.index_of(k);
                        if j < i {
                            assert(new_keys[j] == k);
                        } else {
                            assert(new_keys[j + 1] == k);
                        }
                    }
                }
                assert forall|k: Seq<char>| after.contains_key(k) implies #[trigger] after[k] == before.insert(name@, value)[k] by {
                    let j = new_keys.index_of(k);
                    assert(new_keys[j] == k);
                    lemma_sorted_index_of(new_keys, j);
                    if k == name@ {
                        lemma_sorted_index_of(new_keys, i as int);
                    } else if j < i {
                        lemma_sorted_index_of(old_keys, j);
                        assert(old_keys[j] == k);
                    } else {
                        lemma_sorted_index_of(old_keys, j - 1);
                        assert(old_keys[j - 1] == k);
                    }
                }
                assert(after =~= before.insert(name@, value));
            }
            self.entries = entries;
        }
    }
}

/// Whether `name` is the name of a lint.
pub open spec fn is_lint_name(name: Seq<char>) -> bool {
    exists|r: context::LintRule| r.name() == name
}

/// Whether `name` is the name of a lint.
pub fn is_known_lint_name(name: &[char]) -> (r: bool)
    ensures
        r == is_lint_name(name@),
{
    let rules = context::all_lint_rules();
    let mut i: usize = 0;
    while i < rules.len()
        invariant
            rules@ == context::all_rules(),
            i <= rules@.len(),
            forall|k: int| 0 <= k < i ==> (#[trigger] rules@[k]).name() != name@,
        decreases rules@.len() - i,
    {
        let n = text::chars_of(rules[i].allowed_name());
        if vec_chars_eq(n.as_slice(), name) {
            return true;
        }
        i = i + 1;
    }
    proof {
        assert forall|x: context::LintRule| x.name() != name@ by {
            context::lemma_all_rules_complete(x);
            let k = choose|k: int| 0 <= k < rules@.len() && rules@[k] == x;
        }
    }
    false
}

/// Position, in increasing order, of the first configured name that is no
/// lint's name.
pub open spec fn first_unknown_from(keys: Seq<Seq<char>>, i: int) -> Option<int>
    decreases keys.len() - i,
{
    if i < 0 || i >= keys.len() {
        None
    } else if !is_lint_name(keys[i]) {
        Some(i)
    } else {
        first_unknown_from(keys, i + 1)
    }
}

/// The configuration names a lint that does not exist.
#[derive(Debug, Clone)]
pub struct UnsupportedLintError {
    /// The name that no lint has.
    pub name: String,
}

impl UnsupportedLintError {
    /// The text of the error.
    pub open spec fn message_spec(&self) -> Seq<char> {
        "The lint '"@ + self.name@ + "' specified in `Scarb.toml` is not supported by the Cairo lint."@
    }

    /// The text of the error.
    pub fn message(&self) -> (r: String)
        ensures
            r@ == self.message_spec(),
    {
        let mut r = String::from_str("The lint '");
        r.append(self.name.as_str());
        r.append("' specified in `Scarb.toml` is not supported by the Cairo lint.");
        r
    }
}

/// Checks that every lint named in the configuration exists; the error
/// names the first one, in increasing order of names, that does not.
pub fn validate_cairo_lint_metadata(tool_metadata: &CairoLintToolMetadata) -> (r: Result<(), UnsupportedLintError>)
    requires
        tool_metadata.wf(),
    ensures
        match first_unknown_from(tool_metadata.keys(), 0) {
            None => r is Ok,
            Some(i) => r matches Err(e) && e.name@ == tool_metadata.keys()[i],
        },
{
    let n = tool_metadata.len();
    let mut i: usize = 0;
    while i < n
        invariant
            n == tool_metadata.keys().len(),
            i <= n,
            first_unknown_from(tool_metadata.keys(), 0) == first_unknown_from(tool_metadata.keys(), i as int),
        decreases n - i,
    {
        let key = tool_metadata.key_at(i);
        if !is_known_lint_name(key.as_slice()) {
            return Err(UnsupportedLintError { name: text::string_of(key.as_slice()) });
        }
        i = i + 1;
    }
    Ok(())
}

impl Default for CairoLintToolMetadata {
    /// An empty configuration.
    fn default() -> (r: Self)
        ensures
            r.wf(),
            r.keys().len() == 0,
            r.map() == Map::<Seq<char>, bool>::empty(),
    {
        CairoLintToolMetadata::new()
    }
}

/// The linter as an analyzer plugin: whether it also looks into code that
/// the compiler generated, and its configuration.
#[derive(Debug, Clone)]
pub struct CairoLint {
    include_compiler_generated_files: bool,
    tool_metadata: CairoLintToolMetadata,
}

impl CairoLint {
    /// Whether the linter also looks into code that the compiler generated.
    pub closed spec fn spec_include_compiler_generated_files(&self) -> bool {
        self.include_compiler_generated_files
    }

    /// The linter's configuration.
    pub closed spec fn spec_tool_metadata(&self) -> CairoLintToolMetadata {
        self.tool_metadata
    }

    /// A linter with the given settings.
    pub fn new(include_compiler_generated_files: bool, tool_metadata: CairoLintToolMetadata) -> (r: Self)
        ensures
            r.spec_include_compiler_generated_files() == include_compiler_generated_files,
            r.spec_tool_metadata() == tool_metadata,
    {
        CairoLint { include_compiler_generated_files, tool_metadata }
    }

    /// Whether the linter also looks into code that the compiler generated.
    pub fn include_compiler_generated_files(&self) -> (r: bool)
        ensures
            r == self.spec_include_compiler_generated_files(),
    {
        self.include_compiler_generated_files
    }

    /// The linter's configuration.
    pub fn tool_metadata(&self) -> (r: &CairoLintToolMetadata)
        ensures
            *r == self.spec_tool_metadata(),
    {
        &self.tool_metadata
    }

    /// The arguments of `#[allow(..)]` that the linter understands: the
    /// names of all lints.
    pub fn declared_allows(&self) -> (r: Vec<String>)
        ensures
            r@.len() == context::all_rules().len(),
            forall|i: int| 0 <= i < r@.len() ==> (#[trigger] r@[i])@ == context::all_rules()[i].name(),
    {
        declared_allow_names()
    }
}

impl Default for CairoLint {
    /// The linter that looks only into code written in files, with an empty
    /// configuration.
    fn default() -> (r: Self)
        ensures
            !r.spec_include_compiler_generated_files(),
            r.spec_tool_metadata().wf(),
            r.spec_tool_metadata().keys().len() == 0,
            r.spec_tool_metadata().map() == Map::<Seq<char>, bool>::empty(),
    {
        CairoLint::new(false, CairoLintToolMetadata::new())
    }
}

/// A plugin that declares the same `#[allow(..)]` arguments as the linter
/// but emits no diagnostics, for use when the linter itself is not loaded.
#[derive(Debug, Clone, Copy)]
pub struct CairoLintAllow;

impl CairoLintAllow {
    /// The names of all lints.
    pub fn declared_allows(&self) -> (r: Vec<String>)
        ensures
            r@.len() == context::all_rules().len(),
            forall|i: int| 0 <= i < r@.len() ==> (#[trigger] r@[i])@ == context::all_rules()[i].name(),
    {
        declared_allow_names()
    }

    /// The diagnostics of the plugin: none.
    pub fn diagnostics(&self) -> (r: Vec<LintDiagnostic>)
        ensures
            r@.len() == 0,
    {
        Vec::new()
    }
}

/// The names of all lints as owned strings.
pub fn declared_allow_names() -> (r: Vec<String>)
    ensures
        r@.len() == context::all_rules().len(),
        forall|i: int| 0 <= i < r@.len() ==> (#[trigger] r@[i])@ == context::all_rules()[i].name(),
{
    let names = context::get_unique_allowed_names();
    let mut r: Vec<String> = Vec::new();
    let mut i: usize = 0;
    while i < names.len()
        invariant
            names@.len() == context::all_rules().len(),
            forall|k: int| 0 <= k < names@.len() ==> (#[trigger] names@[k])@ == context::all_rules()[k].name(),
            i <= names@.len(),
            r@.len() == i,
            forall|k: int| 0 <= k < i ==> (#[trigger] r@[k])@ == context::all_rules()[k].name(),
        decreases names@.len() - i,
    {
        r.push(String::from_str(names[i]));
        i = i + 1;
    }
    r
}

/// The parameters of a run of the linter: whether only compiler-generated
/// files are checked, and the configuration.
#[derive(Debug, Clone)]
pub struct LinterDiagnosticParams {
    pub only_generated_files: bool,
    pub tool_metadata: CairoLintToolMetadata,
}

/// How the lints run on an item of a module.
#[derive(Debug, Clone, Copy, PartialEq, Eq, Structural)]
pub enum ItemCheck {
    /// Not checked.
    Skip,
    /// Checked, and its diagnostics moved to the code it was generated from.
    CheckAtOrigin,
    /// Checked, and its diagnostics kept where they map to a file.
    Check,
}

/// What the linter reads of an item generated by a macro: whether the code
/// it comes from was found, how many items that code produced (`None`
/// where this cannot be had), and whether that code, without trivia, holds
/// the item's text without trivia.
#[derive(Debug, Clone, Copy, PartialEq, Eq, Structural)]
pub struct GeneratedItemOrigin {
    pub origin_found: bool,
    pub resultants: Option<usize>,
    pub origin_contains_item: bool,
}

/// A generated item is checked only when only generated files are asked
/// for, or when it comes from code that produced it alone and unchanged;
/// any other item is checked.
pub open spec fn item_check_mode_spec(is_generated_item: bool, only_generated_files: bool, o: GeneratedItemOrigin) -> ItemCheck {
    if is_generated_item && !only_generated_files {
        if o.origin_found && o.resultants == Some(1usize) && o.origin_contains_item {
            ItemCheck::CheckAtOrigin
        } else {
            ItemCheck::Skip
        }
    } else {
        ItemCheck::Check
    }
}

/// How the lints run on an item (see `item_check_mode_spec`).
pub fn item_check_mode(is_generated_item: bool, only_generated_files: bool, o: GeneratedItemOrigin) -> (r: ItemCheck)
    ensures
        r == item_check_mode_spec(is_generated_item, only_generated_files, o),
{
    if is_generated_item && !only_generated_files {
        if o.origin_found && o.resultants == Some(1usize) && o.origin_contains_item {
            ItemCheck::CheckAtOrigin
        } else {
            ItemCheck::Skip
        }
    } else {
        ItemCheck::Check
    }
}

/// A diagnostic found by a lint, with what decides whether it is
/// reported: its message and the arguments of the `#[allow(..)]`
/// attributes on the flagged code and its ancestors.
#[derive(Debug, Clone)]
pub struct LintDiagnostic {
    /// Identifies the diagnostic for the caller.
    pub id: usize,
    pub message: String,
    pub allowed_in_scope: Vec<String>,
}

/// Whether a diagnostic with message `m`, under `#[allow(..)]` arguments
/// `allows`, is reported with the configuration `cfg`: its lint is not
/// allowed there, and it is on, by the configuration or else by default.
pub open spec fn reported(cfg: Map<Seq<char>, bool>, m: Seq<char>, allows: Seq<Seq<char>>) -> bool {
    let rule = context::rule_for_message(m)->0;
    &&& !allows.contains(rule.name())
    &&& if cfg.contains_key(rule.name()) {
        cfg[rule.name()]
    } else {
        rule.enabled()
    }
}


/// Whether `name` is among `names`.
pub fn contains_string(names: &Vec<String>, name: &str) -> (r: bool)
    ensures
        r == text::string_views(names@).contains(name@),
{
    let mut i: usize = 0;
    while i < names.len()
        invariant
            i <= names@.len(),
            forall|k: int| 0 <= k < i ==> (#[trigger] names@[k])@ != name@,
        decreases names@.len() - i,
    {
        if text::str_eq(names[i].as_str(), name) {
            assert(text::string_views(names@)[i as int] == name@);
            return true;
        }
        i = i + 1;
    }
    proof {
        if text::string_views(names@).contains(name@) {
            let k = choose|k: int| 0 <= k < text::string_views(names@).len() && text::string_views(names@)[k] == name@;
            assert(names@[k]@ == name@);
        }
    }
    false
}

/// Whether a diagnostic is reported: its lint is not allowed on the
/// flagged code or its ancestors, and the lint is on, by the
/// configuration or else by default.
pub fn should_report(tool_metadata: &CairoLintToolMetadata, diagnostic: &LintDiagnostic) -> (r: bool)
    requires
        tool_metadata.wf(),
        context::rule_for_message(diagnostic.message@) is Some,
    ensures
        r == reported(tool_metadata.map(), diagnostic.message@, text::string_views(diagnostic.allowed_in_scope@)),
{
    let name = match context::get_name_for_diagnostic_message(diagnostic.message.as_str()) {
        Some(n) => n,
        None => return false,
    };
    let default_enabled = match context::is_lint_enabled_by_default(diagnostic.message.as_str()) {
        Some(b) => b,
        None => return false,
    };
    let enabled = match tool_metadata.get(name) {
        Some(b) => b,
        None => default_enabled,
    };
    !contains_string(&diagnostic.allowed_in_scope, name) && enabled
}

/// What a diagnostic holds: its identifier, its message and the allowed
/// names in its scope.
pub type DiagnosticView = (usize, Seq<char>, Seq<Seq<char>>);

/// What each of the diagnostics holds.
pub open spec fn diagnostic_views(ds: Seq<LintDiagnostic>) -> Seq<DiagnosticView> {
    Seq::new(ds.len(), |i: int| (ds[i].id, ds[i].message@, text::string_views(ds[i].allowed_in_scope@)))
}

/// The diagnostics that are reported, in their order.
pub open spec fn reported_diagnostics(cfg: Map<Seq<char>, bool>, ds: Seq<DiagnosticView>) -> Seq<DiagnosticView> {
    ds.filter(|d: DiagnosticView| reported(cfg, d.1, d.2))
}

/// A copy of a list of strings.
pub fn clone_strings(v: &Vec<String>) -> (r: Vec<String>)
    ensures
        r@ == v@,
{
    let mut r: Vec<String> = Vec::new();
    let mut i: usize = 0;
    while i < v.len()
        invariant
            i <= v@.len(),
            r@ == v@.take(i as int),
        decreases v@.len() - i,
    {
        r.push(v[i].clone());
        assert(v@.take(i + 1) =~= v@.take(i as int).push(v@[i as int]));
        i = i + 1;
    }
    assert(v@.take(v@.len() as int) =~= v@);
    r
}

/// Keeps, in order, the diagnostics that are reported.
pub fn filter_diagnostics(tool_metadata: &CairoLintToolMetadata, diagnostics: Vec<LintDiagnostic>) -> (r: Vec<LintDiagnostic>)
    requires
        tool_metadata.wf(),
        forall|i: int| 0 <= i < diagnostics@.len() ==> context::rule_for_message(#[trigger] diagnostics@[i].message@) is Some,
    ensures
        diagnostic_views(r@) == reported_diagnostics(tool_metadata.map(), diagnostic_views(diagnostics@)),
{
    let mut r: Vec<LintDiagnostic> = Vec::new();
    let mut i: usize = 0;
    let ghost ds = diagnostic_views(diagnostics@);
    assert(ds.take(0) =~= Seq::<DiagnosticView>::empty());
    reveal(Seq::filter);
    assert(diagnostic_views(r@) =~= Seq::<DiagnosticView>::empty());
    while i < diagnostics.len()
        invariant
            tool_metadata.wf(),
            ds == diagnostic_views(diagnostics@),
            forall|k: int| 0 <= k < diagnostics@.len() ==> context::rule_for_message(#[trigger] diagnostics@[k].message@) is Some,
            i <= ds.len(),
            diagnostic_views(r@) == reported_diagnostics(tool_metadata.map(), ds.take(i as int)),
        decreases ds.len() - i,
    {
        let d = &diagnostics[i];
        let keep = should_report(tool_metadata, d);
        proof {
            assert(ds.take(i + 1).drop_last() =~= ds.take(i as int));
            assert(ds.take(i + 1).last() == ds[i as int]);
            assert(ds[i as int] == (d.id, d.message@, text::string_views(d.allowed_in_scope@)));
            let prev = reported_diagnostics(tool_metadata.map(), ds.take(i as int));
            assert(keep == reported(tool_metadata.map(), ds[i as int].1, ds[i as int].2));
            assert(ds.take(i + 1).len() == i + 1);
            reveal(Seq::filter);
            assert(reported_diagnostics(tool_metadata.map(), ds.take(i + 1)) == if keep {
                prev.push(ds[i as int])
            } else {
                prev
            });
        }
        if keep {
            let c = LintDiagnostic {
                id: d.id,
                message: d.message.clone(),
                allowed_in_scope: clone_strings(&d.allowed_in_scope),
            };
            let ghost r0 = r@;
            r.push(c);
            assert(diagnostic_views(r@) =~= diagnostic_views(r0).push(ds[i as int]));
        }
        i = i + 1;
    }
    assert(ds.take(ds.len() as int) =~= ds);
    r
}


/// A lint's diagnostic is never reported where the lint is allowed by an
/// `#[allow(..)]` on the code or one of its ancestors, whatever the
/// configuration.
pub proof fn lemma_allowed_lint_not_reported(cfg: Map<Seq<char>, bool>, rule: LintRule, allows: Seq<Seq<char>>)
    requires
        allows.contains(rule.name()),
    ensures
        !reported(cfg, rule.message(), allows),
{
    context::lemma_lookup_own_message(rule);
}

/// Where the lint is not allowed in scope, its diagnostic is reported
/// exactly when the configuration turns the lint on, or, when the
/// configuration says nothing of it, when it is on by default.
pub proof fn lemma_reported_follows_configuration(cfg: Map<Seq<char>, bool>, rule: LintRule, allows: Seq<Seq<char>>)
    requires
        !allows.contains(rule.name()),
    ensures
        reported(cfg, rule.message(), allows) == (if cfg.contains_key(rule.name()) {
            cfg[rule.name()]
        } else {
            rule.enabled()
        }),
{
    context::lemma_lookup_own_message(rule);
}

/// Setting a lint in the configuration is what reading it back gives, and
/// leaves the setting of every other lint as it was.
pub proof fn lemma_configuration_read_after_write(m: Map<Seq<char>, bool>, name: Seq<char>, value: bool, other: Seq<char>)
    requires
        other != name,
    ensures
        m.insert(name, value).contains_key(name),
        m.insert(name, value)[name] == value,
        m.insert(name, value).contains_key(other) == m.contains_key(other),
        m.contains_key(other) ==> m.insert(name, value)[other] == m[other],
{
}
} // verus!
