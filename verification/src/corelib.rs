//! The items of the corelib that the lints compare against, found by their
//! full paths in a model of the corelib's modules.
use vstd::prelude::*;
use crate::text;

verus! {

/// The kind of an item of a module.
#[derive(Debug, Clone, Copy, PartialEq, Eq, Structural)]
pub enum ItemKind {
    Submodule,
    Impl,
    Trait,
    FreeFunction,
    ExternFunction,
    Other,
}

/// The kind of a member of an impl or a trait.
#[derive(Debug, Clone, Copy, PartialEq, Eq, Structural)]
pub enum MemberKind {
    Function,
    Type,
    Constant,
}

/// An item that can be looked up: an item of a module, or a member of an
/// impl or of a trait, by its kind and identifier.
#[derive(Debug, Clone, Copy, PartialEq, Eq, Structural)]
pub enum LookupItem {
    ModuleItem { kind: ItemKind, id: u64 },
    ImplItem { kind: MemberKind, id: u64 },
    TraitItem { kind: MemberKind, id: u64 },
}

/// An identifier with the full path of what it names.
#[derive(Debug)]
pub struct NamedId {
    pub id: u64,
    pub path: String,
}

/// An item of a module, with its identifier and full path.
#[derive(Debug)]
pub enum ModuleEntry {
    /// A submodule, with its own items.
    Submodule { id: u64, path: String, module: ModuleTree },
    /// An impl, with its functions, types and constants (each `None` where
    /// they cannot be read).
    Impl {
        id: u64,
        path: String,
        functions: Option<Vec<NamedId>>,
        types: Option<Vec<NamedId>>,
        constants: Option<Vec<NamedId>>,
    },
    /// A trait, with its functions, types and constants.
    Trait {
        id: u64,
        path: String,
        functions: Option<Vec<NamedId>>,
        types: Option<Vec<NamedId>>,
        constants: Option<Vec<NamedId>>,
    },
    /// Any other item, with its kind.
    Other { kind: ItemKind, id: u64, path: String },
}

/// A module, with its items (`None` where they cannot be read).
#[derive(Debug)]
pub struct ModuleTree {
    pub items: Option<Vec<ModuleEntry>>,
}


/// The first member of the list with the given full path.
pub open spec fn find_member(ms: Seq<NamedId>, path: Seq<char>) -> Option<u64>
    decreases ms.len(),
{
    if ms.len() == 0 {
        None
    } else if ms[0].path@ == path {
        Some(ms[0].id)
    } else {
        find_member(ms.drop_first(), path)
    }
}

/// The first member with the given full path, where the members can be read.
pub open spec fn find_in_members(v: Option<Vec<NamedId>>, path: Seq<char>) -> Option<u64> {
    match v {
        Some(ms) => find_member(ms@, path),
        None => None,
    }
}

/// The full path of an item of a module.
pub open spec fn entry_path(e: ModuleEntry) -> Seq<char> {
    match e {
        ModuleEntry::Submodule { path, .. } => path@,
        ModuleEntry::Impl { path, .. } => path@,
        ModuleEntry::Trait { path, .. } => path@,
        ModuleEntry::Other { path, .. } => path@,
    }
}

/// The item of a module as a lookup item.
pub open spec fn entry_item(e: ModuleEntry) -> LookupItem {
    match e {
        ModuleEntry::Submodule { id, .. } => LookupItem::ModuleItem { kind: ItemKind::Submodule, id },
        ModuleEntry::Impl { id, .. } => LookupItem::ModuleItem { kind: ItemKind::Impl, id },
        ModuleEntry::Trait { id, .. } => LookupItem::ModuleItem { kind: ItemKind::Trait, id },
        ModuleEntry::Other { kind, id, .. } => LookupItem::ModuleItem { kind, id },
    }
}

/// The first member of an impl with the given path: functions first, then
/// types, then constants.
pub open spec fn find_impl_member(
    functions: Option<Vec<NamedId>>,
    types: Option<Vec<NamedId>>,
    constants: Option<Vec<NamedId>>,
    path: Seq<char>,
) -> Option<(MemberKind, u64)> {
    match find_in_members(functions, path) {
        Some(i) => Some((MemberKind::Function, i)),
        None => match find_in_members(types, path) {
            Some(i) => Some((MemberKind::Type, i)),
            None => match find_in_members(constants, path) {
                Some(i) => Some((MemberKind::Constant, i)),
                None => None,
            },
        },
    }
}

/// The item with the given path found at this entry: the entry itself,
/// or within it (a submodule searched in depth, an impl or trait by its
/// members).
pub open spec fn find_in_entry(e: ModuleEntry, path: Seq<char>) -> Option<LookupItem>
    decreases e,
{
    if entry_path(e) == path {
        Some(entry_item(e))
    } else {
        match e {
            ModuleEntry::Submodule { module, .. } => find_in_module(module, path),
            ModuleEntry::Impl { functions, types, constants, .. } =>
                match find_impl_member(functions, types, constants, path) {
                    Some((kind, id)) => Some(LookupItem::ImplItem { kind, id }),
                    None => None,
                },
            ModuleEntry::Trait { functions, types, constants, .. } =>
                match find_impl_member(functions, types, constants, path) {
                    Some((kind, id)) => Some(LookupItem::TraitItem { kind, id }),
                    None => None,
                },
            ModuleEntry::Other { .. } => None,
        }
    }
}

/// The first item with the given path, entry by entry.
pub open spec fn find_in_entries(items: Seq<ModuleEntry>, path: Seq<char>) -> Option<LookupItem>
    decreases items,
{
    if items.len() == 0 {
        None
    } else {
        match find_in_entry(items[0], path) {
            Some(x) => Some(x),
            None => find_in_entries(items.drop_first(), path),
        }
    }
}

/// The first item of the module, searched in depth, with the given path.
pub open spec fn find_in_module(m: ModuleTree, path: Seq<char>) -> Option<LookupItem>
    decreases m,
{
    match m.items {
        Some(items) => find_in_entries(items@, path),
        None => None,
    }
}

fn find_member_exec(v: &Option<Vec<NamedId>>, path: &str) -> (r: Option<u64>)
    ensures
        r == find_in_members(*v, path@),
{
    match v {
        Some(ms) => {
            let mut k: usize = 0;
            assert(ms@.skip(0) =~= ms@);
            while k < ms.len()
                invariant
                    *v == Some(*ms),
                    k <= ms@.len(),
                    find_member(ms@, path@) == find_member(ms@.skip(k as int), path@),
                decreases ms@.len() - k,
            {
                assert(ms@.skip(k as int).drop_first() =~= ms@.skip(k + 1));
                assert(ms@.skip(k as int)[0] == ms@[k as int]);
                if text::str_eq(ms[k].path.as_str(), path) {
                    return Some(ms[k].id);
                }
                k = k + 1;
            }
            None
        },
        None => None,
    }
}

fn find_member_of(
    functions: &Option<Vec<NamedId>>,
    types: &Option<Vec<NamedId>>,
    constants: &Option<Vec<NamedId>>,
    path: &str,
) -> (r: Option<(MemberKind, u64)>)
    ensures
        r == find_impl_member(*functions, *types, *constants, path@),
{
    if let Some(i) = find_member_exec(functions, path) {
        return Some((MemberKind::Function, i));
    }
    if let Some(i) = find_member_exec(types, path) {
        return Some((MemberKind::Type, i));
    }
    if let Some(i) = find_member_exec(constants, path) {
        return Some((MemberKind::Constant, i));
    }
    None
}

fn entry_path_of(e: &ModuleEntry) -> (r: &String)
    ensures
        r@ == entry_path(*e),
{
    match e {
        ModuleEntry::Submodule { path, .. } => path,
        ModuleEntry::Impl { path, .. } => path,
        ModuleEntry::Trait { path, .. } => path,
        ModuleEntry::Other { path, .. } => path,
    }
}

fn entry_item_of(e: &ModuleEntry) -> (r: LookupItem)
    ensures
        r == entry_item(*e),
{
    match e {
        ModuleEntry::Submodule { id, .. } => LookupItem::ModuleItem { kind: ItemKind::Submodule, id: *id },
        ModuleEntry::Impl { id, .. } => LookupItem::ModuleItem { kind: ItemKind::Impl, id: *id },
        ModuleEntry::Trait { id, .. } => LookupItem::ModuleItem { kind: ItemKind::Trait, id: *id },
        ModuleEntry::Other { kind, id, .. } => LookupItem::ModuleItem { kind: *kind, id: *id },
    }
}

fn find_item_in_entry(e: &ModuleEntry, path: &str) -> (r: Option<LookupItem>)
    ensures
        r == find_in_entry(*e, path@),
    decreases e,
{
    if text::str_eq(entry_path_of(e).as_str(), path) {
        return Some(entry_item_of(e));
    }
    match e {
        ModuleEntry::Submodule { module, .. } => find_item_with_path(module, path),
        ModuleEntry::Impl { functions, types, constants, .. } =>
            match find_member_of(functions, types, constants, path) {
                Some((kind, id)) => Some(LookupItem::ImplItem { kind, id }),
                None => None,
            },
        ModuleEntry::Trait { functions, types, constants, .. } =>
            match find_member_of(functions, types, constants, path) {
                Some((kind, id)) => Some(LookupItem::TraitItem { kind, id }),
                None => None,
            },
        ModuleEntry::Other { .. } => None,
    }
}

/// The first item of `module` with the full path `path`, searched item by
/// item: the item itself, then within it (a submodule in depth; an impl or
/// trait by its functions, types and constants).
pub fn find_item_with_path(module: &ModuleTree, path: &str) -> (r: Option<LookupItem>)
    ensures
        r == find_in_module(*module, path@),
    decreases module,
{
    let items = match &module.items {
        Some(items) => items,
        None => return None,
    };
    let mut k: usize = 0;
    assert(items@.skip(0) =~= items@);
    while k < items.len()
        invariant
            module.items == Some(*items),
            k <= items@.len(),
            find_in_entries(items@, path@) == find_in_entries(items@.skip(k as int), path@),
        decreases items@.len() - k,
    {
        proof {
            assert(decreases_to!(*module => module.items));
            assert(decreases_to!(module.items => module.items->0));
            assert(decreases_to!(*items => items@));
            assert(decreases_to!(items@ => items@[k as int]));
            assert(items@.skip(k as int).drop_first() =~= items@.skip(k + 1));
            assert(items@.skip(k as int)[0] == items@[k as int]);
        }
        let found = find_item_in_entry(&items[k], path);
        if found.is_some() {
            return found;
        }
        k = k + 1;
    }
    None
}

/// Full path of `BoolPartialEq`.
pub const BOOL_PARTIAL_EQ_PATH: &'static str = "core::BoolPartialEq";
/// Full path of `panic`.
pub const PANIC_PATH: &'static str = "core::panics::panic";
/// Full path of `panic_with_byte_array`.
pub const PANIC_WITH_BYTE_ARRAY_PATH: &'static str = "core::panics::panic_with_byte_array";
/// Full path of `TCopyClone`.
pub const T_COPY_CLONE_PATH: &'static str = "core::clone::TCopyClone";
/// Full path of `PartialOrd::le`.
pub const PARTIAL_ORD_LE_PATH: &'static str = "core::traits::PartialOrd::le";
/// Full path of `PartialOrd::ge`.
pub const PARTIAL_ORD_GE_PATH: &'static str = "core::traits::PartialOrd::ge";
/// Full path of `Add::add`.
pub const ADD_TRAIT_FUNCTION_PATH: &'static str = "core::traits::Add::add";
/// Full path of `Sub::sub`.
pub const SUB_TRAIT_FUNCTION_PATH: &'static str = "core::traits::Sub::sub";
/// Full path of the integer module.
pub const INTEGER_MODULE_PATH: &'static str = "core::integer";
/// Full path of `Into::into`.
pub const INTO_TRAIT_FUNCTION_PATH: &'static str = "core::traits::Into::into";
/// Full path of `TryInto::try_into`.
pub const TRY_INTO_TRAIT_FUNCTION_PATH: &'static str = "core::traits::TryInto::try_into";

/// The paths of the corelib items the lints need, in a fixed order.
pub open spec fn corelib_item_paths() -> Seq<Seq<char>> {
    seq![
        BOOL_PARTIAL_EQ_PATH@,
        PANIC_PATH@,
        PANIC_WITH_BYTE_ARRAY_PATH@,
        T_COPY_CLONE_PATH@,
        PARTIAL_ORD_LE_PATH@,
        PARTIAL_ORD_GE_PATH@,
        ADD_TRAIT_FUNCTION_PATH@,
        SUB_TRAIT_FUNCTION_PATH@,
        INTEGER_MODULE_PATH@,
        INTO_TRAIT_FUNCTION_PATH@,
        TRY_INTO_TRAIT_FUNCTION_PATH@,
    ]
}

fn corelib_item_path(i: usize) -> (r: &'static str)
    requires
        i < 11,
    ensures
        r@ == corelib_item_paths()[i as int],
{
    match i {
        0 => BOOL_PARTIAL_EQ_PATH,
        1 => PANIC_PATH,
        2 => PANIC_WITH_BYTE_ARRAY_PATH,
        3 => T_COPY_CLONE_PATH,
        4 => PARTIAL_ORD_LE_PATH,
        5 => PARTIAL_ORD_GE_PATH,
        6 => ADD_TRAIT_FUNCTION_PATH,
        7 => SUB_TRAIT_FUNCTION_PATH,
        8 => INTEGER_MODULE_PATH,
        9 => INTO_TRAIT_FUNCTION_PATH,
        _ => TRY_INTO_TRAIT_FUNCTION_PATH,
    }
}

/// The first module, in order, that holds an item with the path; that item.
pub open spec fn find_in_modules(ms: Seq<ModuleTree>, path: Seq<char>) -> Option<LookupItem>
    decreases ms.len(),
{
    if ms.len() == 0 {
        None
    } else {
        match find_in_module(ms[0], path) {
            Some(x) => Some(x),
            None => find_in_modules(ms.drop_first(), path),
        }
    }
}

fn find_in_all_modules(modules: &Vec<ModuleTree>, path: &str) -> (r: Option<LookupItem>)
    ensures
        r == find_in_modules(modules@, path@),
{
    let mut m: usize = 0;
    assert(modules@.skip(0) =~= modules@);
    while m < modules.len()
        invariant
            m <= modules@.len(),
            find_in_modules(modules@, path@) == find_in_modules(modules@.skip(m as int), path@),
        decreases modules@.len() - m,
    {
        assert(modules@.skip(m as int).drop_first() =~= modules@.skip(m + 1));
        assert(modules@.skip(m as int)[0] == modules@[m as int]);
        let f = find_item_with_path(&modules[m], path);
        if f.is_some() {
            return f;
        }
        m = m + 1;
    }
    assert(modules@.skip(m as int) =~= Seq::<ModuleTree>::empty());
    None
}

/// The corelib items the lints need, each found by its path (`None` where
/// the corelib has no such item), in the order of `corelib_item_paths`.
pub struct CorelibContext {
    corelib_items: Vec<Option<LookupItem>>,
}

impl CorelibContext {
    /// The item found for the path at `i` in `corelib_item_paths`.
    pub closed spec fn item(&self, i: int) -> Option<LookupItem> {
        self.corelib_items@[i]
    }

    /// Holds one entry per path.
    pub closed spec fn wf(&self) -> bool {
        self.corelib_items@.len() == 11
    }

    /// Finds each corelib item by its path in the crate's modules: the
    /// first module that holds it decides.
    pub fn new(modules: &Vec<ModuleTree>) -> (r: CorelibContext)
        ensures
            r.wf(),
            forall|i: int| 0 <= i < 11 ==> #[trigger] r.item(i) == find_in_modules(modules@, corelib_item_paths()[i]),
    {
        let mut items: Vec<Option<LookupItem>> = Vec::new();
        let mut i: usize = 0;
        while i < 11
            invariant
                i <= 11,
                items@.len() == i,
                forall|j: int| 0 <= j < i ==> #[trigger] items@[j] == find_in_modules(modules@, corelib_item_paths()[j]),
            decreases 11 - i,
        {
            let path = corelib_item_path(i);
            let found = find_in_all_modules(modules, path);
            items.push(found);
            i = i + 1;
        }
        CorelibContext { corelib_items: items }
    }

    /// The identifier of `BoolPartialEq`.
    pub fn get_bool_partial_eq_impl_id(&self) -> (r: u64)
        requires
            self.wf(),
            self.item(0) matches Some(LookupItem::ModuleItem { kind: ItemKind::Impl, .. }),
        ensures
            self.item(0) == Some(LookupItem::ModuleItem { kind: ItemKind::Impl, id: r }),
    {
        match self.corelib_items[0] {
            Some(LookupItem::ModuleItem { id, .. }) => id,
            _ => 0,
        }
    }

    /// The identifier of the extern function `panic`.
    pub fn get_panic_function_id(&self) -> (r: u64)
        requires
            self.wf(),
            self.item(1) matches Some(LookupItem::ModuleItem { kind: ItemKind::ExternFunction, .. }),
        ensures
            self.item(1) == Some(LookupItem::ModuleItem { kind: ItemKind::ExternFunction, id: r }),
    {
        match self.corelib_items[1] {
            Some(LookupItem::ModuleItem { id, .. }) => id,
            _ => 0,
        }
    }

    /// The identifier of the free function `panic_with_byte_array`.
    pub fn get_panic_with_byte_array_function_id(&self) -> (r: u64)
        requires
            self.wf(),
            self.item(2) matches Some(LookupItem::ModuleItem { kind: ItemKind::FreeFunction, .. }),
        ensures
            self.item(2) == Some(LookupItem::ModuleItem { kind: ItemKind::FreeFunction, id: r }),
    {
        match self.corelib_items[2] {
            Some(LookupItem::ModuleItem { id, .. }) => id,
            _ => 0,
        }
    }

    /// The identifier of `TCopyClone`.
    pub fn get_t_copy_clone_impl_id(&self) -> (r: u64)
        requires
            self.wf(),
            self.item(3) matches Some(LookupItem::ModuleItem { kind: ItemKind::Impl, .. }),
        ensures
            self.item(3) == Some(LookupItem::ModuleItem { kind: ItemKind::Impl, id: r }),
    {
        match self.corelib_items[3] {
            Some(LookupItem::ModuleItem { id, .. }) => id,
            _ => 0,
        }
    }

    /// The identifier of the trait function `PartialOrd::le`.
    pub fn get_partial_ord_le_trait_function_id(&self) -> (r: u64)
        requires
            self.wf(),
            self.item(4) matches Some(LookupItem::TraitItem { kind: MemberKind::Function, .. }),
        ensures
            self.item(4) == Some(LookupItem::TraitItem { kind: MemberKind::Function, id: r }),
    {
        match self.corelib_items[4] {
            Some(LookupItem::TraitItem { id, .. }) => id,
            _ => 0,
        }
    }

    /// The identifier of the trait function `PartialOrd::ge`.
    pub fn get_partial_ord_ge_trait_function_id(&self) -> (r: u64)
        requires
            self.wf(),
            self.item(5) matches Some(LookupItem::TraitItem { kind: MemberKind::Function, .. }),
        ensures
            self.item(5) == Some(LookupItem::TraitItem { kind: MemberKind::Function, id: r }),
    {
        match self.corelib_items[5] {
            Some(LookupItem::TraitItem { id, .. }) => id,
            _ => 0,
        }
    }

    /// The identifier of the trait function `Add::add`.
    pub fn get_add_trait_function_id(&self) -> (r: u64)
        requires
            self.wf(),
            self.item(6) matches Some(LookupItem::TraitItem { kind: MemberKind::Function, .. }),
        ensures
            self.item(6) == Some(LookupItem::TraitItem { kind: MemberKind::Function, id: r }),
    {
        match self.corelib_items[6] {
            Some(LookupItem::TraitItem { id, .. }) => id,
            _ => 0,
        }
    }

    /// The identifier of the trait function `Sub::sub`.
    pub fn get_sub_trait_function_id(&self) -> (r: u64)
        requires
            self.wf(),
            self.item(7) matches Some(LookupItem::TraitItem { kind: MemberKind::Function, .. }),
        ensures
            self.item(7) == Some(LookupItem::TraitItem { kind: MemberKind::Function, id: r }),
    {
        match self.corelib_items[7] {
            Some(LookupItem::TraitItem { id, .. }) => id,
            _ => 0,
        }
    }

    /// The identifier of the integer module.
    pub fn get_integer_module_id(&self) -> (r: u64)
        requires
            self.wf(),
            self.item(8) matches Some(LookupItem::ModuleItem { kind: ItemKind::Submodule, .. }),
        ensures
            self.item(8) == Some(LookupItem::ModuleItem { kind: ItemKind::Submodule, id: r }),
    {
        match self.corelib_items[8] {
            Some(LookupItem::ModuleItem { id, .. }) => id,
            _ => 0,
        }
    }

    /// The identifier of the trait function `Into::into`.
    pub fn get_into_trait_function_id(&self) -> (r: u64)
        requires
            self.wf(),
            self.item(9) matches Some(LookupItem::TraitItem { kind: MemberKind::Function, .. }),
        ensures
            self.item(9) == Some(LookupItem::TraitItem { kind: MemberKind::Function, id: r }),
    {
        match self.corelib_items[9] {
            Some(LookupItem::TraitItem { id, .. }) => id,
            _ => 0,
        }
    }

    /// The identifier of the trait function `TryInto::try_into`.
    pub fn get_try_into_trait_function_id(&self) -> (r: u64)
        requires
            self.wf(),
            self.item(10) matches Some(LookupItem::TraitItem { kind: MemberKind::Function, .. }),
        ensures
            self.item(10) == Some(LookupItem::TraitItem { kind: MemberKind::Function, id: r }),
    {
        match self.corelib_items[10] {
            Some(LookupItem::TraitItem { id, .. }) => id,
            _ => 0,
        }
    }

    /// Every corelib item the lints need was found, with the kind it has in
    /// the corelib.
    pub open spec fn complete(&self) -> bool {
        &&& self.wf()
        &&& self.item(0) matches Some(LookupItem::ModuleItem { kind: ItemKind::Impl, .. })
        &&& self.item(1) matches Some(LookupItem::ModuleItem { kind: ItemKind::ExternFunction, .. })
        &&& self.item(2) matches Some(LookupItem::ModuleItem { kind: ItemKind::FreeFunction, .. })
        &&& self.item(3) matches Some(LookupItem::ModuleItem { kind: ItemKind::Impl, .. })
        &&& self.item(4) matches Some(LookupItem::TraitItem { kind: MemberKind::Function, .. })
        &&& self.item(5) matches Some(LookupItem::TraitItem { kind: MemberKind::Function, .. })
        &&& self.item(6) matches Some(LookupItem::TraitItem { kind: MemberKind::Function, .. })
        &&& self.item(7) matches Some(LookupItem::TraitItem { kind: MemberKind::Function, .. })
        &&& self.item(8) matches Some(LookupItem::ModuleItem { kind: ItemKind::Submodule, .. })
        &&& self.item(9) matches Some(LookupItem::TraitItem { kind: MemberKind::Function, .. })
        &&& self.item(10) matches Some(LookupItem::TraitItem { kind: MemberKind::Function, .. })
    }

    /// The identifier of the item found for the path at `i`.
    pub open spec fn item_id(&self, i: int) -> u64 {
        match self.item(i) {
            Some(LookupItem::ModuleItem { id, .. }) => id,
            Some(LookupItem::ImplItem { id, .. }) => id,
            Some(LookupItem::TraitItem { id, .. }) => id,
            None => 0,
        }
    }

}


/// What the compiler says a call's callee is, by identifiers: the extern
/// function or free function it calls, and for an impl function its
/// concrete impl (when the impl is concrete) and the trait function it
/// implements.
#[derive(Debug, Clone, Copy, PartialEq, Eq, Structural)]
pub struct CalleeIds {
    pub extern_function: Option<u64>,
    pub free_function: Option<u64>,
    pub concrete_impl: Option<u64>,
    pub impl_trait_function: Option<u64>,
}

/// The facts about a call that the lints read from the corelib.
#[derive(Debug, Clone, Copy, PartialEq, Eq, Structural)]
pub struct CallFacts {
    /// The concrete impl lies in the corelib's integer module.
    pub impl_in_corelib_integer: bool,
    /// The concrete impl is the corelib's `TCopyClone`.
    pub impl_is_t_copy_clone: bool,
    /// The callee is the corelib's extern `panic`.
    pub is_extern_panic: bool,
    /// The callee is the corelib's `panic_with_byte_array`.
    pub is_panic_with_byte_array: bool,
    /// The corelib trait function that the impl function implements.
    pub trait_function: crate::semantic::TraitFunction,
}

/// Which of the corelib's trait functions `f` is.
pub open spec fn trait_function_of(ctx: CorelibContext, f: Option<u64>) -> crate::semantic::TraitFunction {
    match f {
        Some(x) => if x == ctx.item_id(5) {
            crate::semantic::TraitFunction::PartialOrdGe
        } else if x == ctx.item_id(4) {
            crate::semantic::TraitFunction::PartialOrdLe
        } else if x == ctx.item_id(6) {
            crate::semantic::TraitFunction::Add
        } else if x == ctx.item_id(7) {
            crate::semantic::TraitFunction::Sub
        } else if x == ctx.item_id(9) {
            crate::semantic::TraitFunction::Into
        } else if x == ctx.item_id(10) {
            crate::semantic::TraitFunction::TryInto
        } else {
            crate::semantic::TraitFunction::Other
        },
        None => crate::semantic::TraitFunction::Other,
    }
}

/// The facts about a call with callee `c`, where `integer_module` is the
/// tree of the corelib's integer module: the concrete impl lies in the
/// integer module when that module holds it (`module_holds`), and each
/// other fact holds when the callee's identifier is that of the corelib
/// item.
pub open spec fn call_facts_spec(ctx: CorelibContext, integer_module: ModuleTree, c: CalleeIds) -> CallFacts {
    CallFacts {
        impl_in_corelib_integer: match c.concrete_impl {
            Some(i) => crate::helper::module_holds(integer_module, LookupItem::ModuleItem { kind: ItemKind::Impl, id: i }),
            None => false,
        },
        impl_is_t_copy_clone: c.concrete_impl == Some(ctx.item_id(3)),
        is_extern_panic: c.extern_function == Some(ctx.item_id(1)),
        is_panic_with_byte_array: c.free_function == Some(ctx.item_id(2)),
        trait_function: trait_function_of(ctx, c.impl_trait_function),
    }
}

/// The facts about a call that the lints read from the corelib (see
/// `call_facts_spec`); `integer_module` is the tree of the corelib's
/// integer module.
pub fn call_facts(ctx: &CorelibContext, integer_module: &ModuleTree, callee: &CalleeIds) -> (r: CallFacts)
    requires
        ctx.complete(),
    ensures
        r == call_facts_spec(*ctx, *integer_module, *callee),
{
    let impl_in_corelib_integer = match callee.concrete_impl {
        Some(i) => crate::helper::is_item_ancestor_of_module(
            LookupItem::ModuleItem { kind: ItemKind::Impl, id: i }, integer_module),
        None => false,
    };
    let t_copy_clone = ctx.get_t_copy_clone_impl_id();
    let panic = ctx.get_panic_function_id();
    let panic_with_byte_array = ctx.get_panic_with_byte_array_function_id();
    let trait_function = match callee.impl_trait_function {
        Some(x) => if x == ctx.get_partial_ord_ge_trait_function_id() {
            crate::semantic::TraitFunction::PartialOrdGe
        } else if x == ctx.get_partial_ord_le_trait_function_id() {
            crate::semantic::TraitFunction::PartialOrdLe
        } else if x == ctx.get_add_trait_function_id() {
            crate::semantic::TraitFunction::Add
        } else if x == ctx.get_sub_trait_function_id() {
            crate::semantic::TraitFunction::Sub
        } else if x == ctx.get_into_trait_function_id() {
            crate::semantic::TraitFunction::Into
        } else if x == ctx.get_try_into_trait_function_id() {
            crate::semantic::TraitFunction::TryInto
        } else {
            crate::semantic::TraitFunction::Other
        },
        None => crate::semantic::TraitFunction::Other,
    };
    CallFacts {
        impl_in_corelib_integer,
        impl_is_t_copy_clone: callee.concrete_impl == Some(t_copy_clone),
        is_extern_panic: callee.extern_function == Some(panic),
        is_panic_with_byte_array: callee.free_function == Some(panic_with_byte_array),
        trait_function,
    }
}
} // verus!
