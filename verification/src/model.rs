//! Plain-value model of the data the compiler frontend hands us.
//!
//! The frontend's own types (module tables, scopes, identifiers, parsed
//! items) are opaque to verification, so the crate works on a faithful
//! snapshot of exactly the fields the resolution logic reads: identifiers
//! with their source locations, per-name scope bindings, per-crate module
//! tables, and the top-level items of a parsed source file. The surrounding
//! driver converts the frontend's values into these before calling in.

use vstd::prelude::*;

verus! {

/// A source position: the identifier of the file that holds the text and the
/// byte span of the text within that file.
#[derive(Clone, Copy, PartialEq, Eq, Structural, Debug, Hash)]
pub struct Location {
    pub file: u64,
    pub start: u32,
    pub end: u32,
}

/// A reference into one of the frontend's definition stores: the category of
/// the store together with the numeric index of the definition within it.
/// It is carried through as an unforgeable foreign key and never dereferenced
/// here.
#[derive(Clone, Copy, PartialEq, Eq, Structural, Debug, Hash)]
pub enum DefRef {
    Module(u64),
    Function(u64),
    Type(u64),
    TypeAlias(u64),
    Trait(u64),
    Global(u64),
}

/// Declared visibility of a definition.
#[derive(Clone, Copy, PartialEq, Eq, Structural, Debug, Hash)]
pub enum Visibility {
    Private,
    PublicCrate,
    Public,
}

/// An identifier as written in source: its text and where it was written.
#[derive(Clone, Debug, PartialEq, Eq)]
pub struct Ident {
    pub name: String,
    pub location: Location,
}

#[verifier::ext_equal]
pub ghost struct IdentV {
    pub name: Seq<char>,
    pub location: Location,
}

impl View for Ident {
    type V = IdentV;

    open spec fn view(&self) -> IdentV {
        IdentV { name: self.name@, location: self.location }
    }
}

impl DeepView for Ident {
    type V = IdentV;

    open spec fn deep_view(&self) -> IdentV {
        self@
    }
}

/// One candidate binding of a name: the definition it refers to, its declared
/// visibility, and whether it was brought in implicitly from the standard
/// library's prelude.
#[derive(Clone, Copy, PartialEq, Eq, Debug)]
pub struct ScopeBinding {
    pub def_id: DefRef,
    pub visibility: Visibility,
    pub is_prelude: bool,
}

/// The candidate bindings a scope holds for one name. The frontend keys them
/// by an optional trait qualifier; the resolution logic only ever reads the
/// binding registered under no qualifier, so that is all the snapshot keeps.
/// `direct` is `None` when the name is visible only through trait-qualified
/// paths.
#[derive(Clone, Copy, PartialEq, Eq, Debug)]
pub struct ScopeCandidates {
    pub direct: Option<ScopeBinding>,
}

/// One entry of a module's scope: a declared name and its candidate bindings.
#[derive(Clone, Debug, PartialEq, Eq)]
pub struct ScopeEntry {
    pub ident: Ident,
    pub candidates: ScopeCandidates,
}

#[verifier::ext_equal]
pub ghost struct ScopeEntryV {
    pub ident: IdentV,
    pub candidates: ScopeCandidates,
}

impl View for ScopeEntry {
    type V = ScopeEntryV;

    open spec fn view(&self) -> ScopeEntryV {
        ScopeEntryV { ident: self.ident@, candidates: self.candidates }
    }
}

impl DeepView for ScopeEntry {
    type V = ScopeEntryV;

    open spec fn deep_view(&self) -> ScopeEntryV {
        self@
    }
}

/// A named child module and its identifier within the crate's module table.
#[derive(Debug, PartialEq, Eq)]
pub struct ChildModule {
    pub name: String,
    pub id: u64,
}

#[verifier::ext_equal]
pub ghost struct ChildModuleV {
    pub name: Seq<char>,
    pub id: u64,
}

impl View for ChildModule {
    type V = ChildModuleV;

    open spec fn view(&self) -> ChildModuleV {
        ChildModuleV { name: self.name@, id: self.id }
    }
}

impl DeepView for ChildModule {
    type V = ChildModuleV;

    open spec fn deep_view(&self) -> ChildModuleV {
        self@
    }
}

impl Clone for ChildModule {
    fn clone(&self) -> (r: Self)
        ensures
            r@ == self@,
    {
        ChildModule { name: self.name.clone(), id: self.id }
    }
}

/// What the frontend records for one module: its parent, its named children,
/// the file its syntax was declared in, and its scope entries.
#[derive(Clone, Debug, PartialEq, Eq)]
pub struct ModuleSource {
    pub parent: Option<u64>,
    pub children: Vec<ChildModule>,
    pub file: u64,
    pub entries: Vec<ScopeEntry>,
}

#[verifier::ext_equal]
pub ghost struct ModuleSourceV {
    pub parent: Option<u64>,
    pub children: Seq<ChildModuleV>,
    pub file: u64,
    pub entries: Seq<ScopeEntryV>,
}

impl View for ModuleSource {
    type V = ModuleSourceV;

    open spec fn view(&self) -> ModuleSourceV {
        ModuleSourceV {
            parent: self.parent,
            children: self.children.deep_view(),
            file: self.file,
            entries: self.entries.deep_view(),
        }
    }
}

impl DeepView for ModuleSource {
    type V = ModuleSourceV;

    open spec fn deep_view(&self) -> ModuleSourceV {
        self@
    }
}

/// One row of a crate's module table: the module's identifier within the
/// table and the module's recorded data.
#[derive(Clone, Debug, PartialEq, Eq)]
pub struct ModuleRow {
    pub local_id: u64,
    pub data: ModuleSource,
}

#[verifier::ext_equal]
pub ghost struct ModuleRowV {
    pub local_id: u64,
    pub data: ModuleSourceV,
}

impl View for ModuleRow {
    type V = ModuleRowV;

    open spec fn view(&self) -> ModuleRowV {
        ModuleRowV { local_id: self.local_id, data: self.data@ }
    }
}

impl DeepView for ModuleRow {
    type V = ModuleRowV;

    open spec fn deep_view(&self) -> ModuleRowV {
        self@
    }
}

/// One crate of the resolved context: whether it is the standard-library
/// crate, and its module table in table order.
#[derive(Clone, Debug, PartialEq, Eq)]
pub struct CrateInfo {
    pub is_stdlib: bool,
    pub modules: Vec<ModuleRow>,
}

#[verifier::ext_equal]
pub ghost struct CrateInfoV {
    pub is_stdlib: bool,
    pub modules: Seq<ModuleRowV>,
}

impl View for CrateInfo {
    type V = CrateInfoV;

    open spec fn view(&self) -> CrateInfoV {
        CrateInfoV { is_stdlib: self.is_stdlib, modules: self.modules.deep_view() }
    }
}

impl DeepView for CrateInfo {
    type V = CrateInfoV;

    open spec fn deep_view(&self) -> CrateInfoV {
        self@
    }
}

/// The frontend's resolved output, crate by crate, in the enumeration order
/// of the underlying store.
#[derive(Clone, Debug, PartialEq, Eq)]
pub struct ResolvedContext {
    pub crates: Vec<CrateInfo>,
}

impl View for ResolvedContext {
    type V = Seq<CrateInfoV>;

    open spec fn view(&self) -> Seq<CrateInfoV> {
        self.crates.deep_view()
    }
}

/// A function item of a parsed source file: the declared name carries both
/// the text and the location the syntax matcher keys on.
#[derive(Clone, Debug, PartialEq, Eq)]
pub struct FunctionItem {
    pub name: Ident,
}

#[verifier::ext_equal]
pub ghost struct FunctionItemV {
    pub name: IdentV,
}

impl View for FunctionItem {
    type V = FunctionItemV;

    open spec fn view(&self) -> FunctionItemV {
        FunctionItemV { name: self.name@ }
    }
}

impl DeepView for FunctionItem {
    type V = FunctionItemV;

    open spec fn deep_view(&self) -> FunctionItemV {
        self@
    }
}

/// A top-level item of a parsed source file. Only function items matter to
/// entry-point lookup; every other item kind is kept as `Other` so that item
/// positions in the file are preserved.
#[derive(Clone, Debug, PartialEq, Eq)]
pub enum SyntaxItem {
    Function(FunctionItem),
    Other,
}

#[verifier::ext_equal]
pub ghost enum SyntaxItemV {
    Function(FunctionItemV),
    Other,
}

impl View for SyntaxItem {
    type V = SyntaxItemV;

    open spec fn view(&self) -> SyntaxItemV {
        match self {
            SyntaxItem::Function(f) => SyntaxItemV::Function(f@),
            SyntaxItem::Other => SyntaxItemV::Other,
        }
    }
}

impl DeepView for SyntaxItem {
    type V = SyntaxItemV;

    open spec fn deep_view(&self) -> SyntaxItemV {
        self@
    }
}

/// The as-parsed representation of one source file: its top-level items in
/// source order.
#[derive(Clone, Debug, PartialEq, Eq)]
pub struct SyntaxTree {
    pub items: Vec<SyntaxItem>,
}

impl View for SyntaxTree {
    type V = Seq<SyntaxItemV>;

    open spec fn view(&self) -> Seq<SyntaxItemV> {
        self.items.deep_view()
    }
}

} // verus!
