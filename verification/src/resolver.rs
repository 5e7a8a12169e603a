//! Building the crate-scoped module snapshot from the resolved context.
//!
//! Every module of every non-standard-library crate becomes one
//! [`ModuleInfo`]; every name bound directly in a module's scope becomes one
//! [`DefinitionInfo`]. A scope entry that cannot be represented — one visible
//! only through a trait-qualified path, or one whose store reference falls
//! outside the three supported categories — fails classification, and that
//! failure aborts the whole snapshot build: a partial snapshot would be
//! silently incomplete.

use vstd::prelude::*;

use crate::model::{
    ChildModule, ChildModuleV, CrateInfoV, DefRef, Ident, IdentV, Location, ModuleSource,
    ModuleSourceV, ResolvedContext, ScopeCandidates, ScopeEntryV, Visibility,
};

verus! {

/// The category of a definition, derived from the category of its store
/// reference.
#[derive(Clone, Copy, Debug, PartialEq, Eq, Structural)]
pub enum DefinitionKind {
    Function,
    Global,
    Module,
}

impl DefinitionKind {
    /// The lower-case word naming this category, for display.
    pub fn label(&self) -> (r: &'static str)
        ensures
            *self == DefinitionKind::Function ==> r@ == "function"@,
            *self == DefinitionKind::Global ==> r@ == "global"@,
            *self == DefinitionKind::Module ==> r@ == "module"@,
    {
        match self {
            DefinitionKind::Function => "function",
            DefinitionKind::Global => "global",
            DefinitionKind::Module => "module",
        }
    }
}

/// Why a scope entry could not be turned into a [`DefinitionInfo`]. Each
/// variant names the offending identifier and where it was declared.
#[derive(Clone, Debug, PartialEq, Eq)]
pub enum ResolveError {
    /// The name is visible only through a trait-qualified path; no direct
    /// binding exists to classify.
    TraitOnlyDefinition { name: String, location: Location },
    /// The direct binding's store reference is of a category outside
    /// {function, global, module}.
    UnsupportedDefinitionKind { name: String, location: Location, def_id: DefRef },
}

#[verifier::ext_equal]
pub ghost enum ResolveErrorV {
    TraitOnlyDefinition { name: Seq<char>, location: Location },
    UnsupportedDefinitionKind { name: Seq<char>, location: Location, def_id: DefRef },
}

impl View for ResolveError {
    type V = ResolveErrorV;

    open spec fn view(&self) -> ResolveErrorV {
        match self {
            ResolveError::TraitOnlyDefinition { name, location } => {
                ResolveErrorV::TraitOnlyDefinition { name: name@, location: *location }
            },
            ResolveError::UnsupportedDefinitionKind { name, location, def_id } => {
                ResolveErrorV::UnsupportedDefinitionKind {
                    name: name@,
                    location: *location,
                    def_id: *def_id,
                }
            },
        }
    }
}

/// One named binding of a module's scope, snapshotted as plain values.
#[derive(Clone, Debug, PartialEq, Eq)]
pub struct DefinitionInfo {
    name: String,
    kind: DefinitionKind,
    def_id: DefRef,
    visibility: Visibility,
    is_prelude: bool,
    location: Location,
}

#[verifier::ext_equal]
pub ghost struct DefinitionInfoV {
    pub name: Seq<char>,
    pub kind: DefinitionKind,
    pub def_id: DefRef,
    pub visibility: Visibility,
    pub is_prelude: bool,
    pub location: Location,
}

impl View for DefinitionInfo {
    type V = DefinitionInfoV;

    closed spec fn view(&self) -> DefinitionInfoV {
        DefinitionInfoV {
            name: self.name@,
            kind: self.kind,
            def_id: self.def_id,
            visibility: self.visibility,
            is_prelude: self.is_prelude,
            location: self.location,
        }
    }
}

impl DeepView for DefinitionInfo {
    type V = DefinitionInfoV;

    open spec fn deep_view(&self) -> DefinitionInfoV {
        self@
    }
}

/// A snapshot of one module of a crate: its identifier in the crate's module
/// table, its parent, its named children, the file its syntax came from, and
/// the definitions bound in its scope.
#[derive(Debug, PartialEq, Eq)]
pub struct ModuleInfo {
    local_id: u64,
    parent: Option<u64>,
    children: Vec<ChildModule>,
    file: u64,
    definitions: Vec<DefinitionInfo>,
}

#[verifier::ext_equal]
pub ghost struct ModuleInfoV {
    pub local_id: u64,
    pub parent: Option<u64>,
    pub children: Seq<ChildModuleV>,
    pub file: u64,
    pub definitions: Seq<DefinitionInfoV>,
}

impl View for ModuleInfo {
    type V = ModuleInfoV;

    closed spec fn view(&self) -> ModuleInfoV {
        ModuleInfoV {
            local_id: self.local_id,
            parent: self.parent,
            children: self.children.deep_view(),
            file: self.file,
            definitions: self.definitions.deep_view(),
        }
    }
}

impl DeepView for ModuleInfo {
    type V = ModuleInfoV;

    open spec fn deep_view(&self) -> ModuleInfoV {
        self@
    }
}

/// The definition category a store reference maps to, or `None` for the
/// categories this snapshot does not represent.
pub open spec fn kind_of_def_ref(d: DefRef) -> Option<DefinitionKind> {
    match d {
        DefRef::Function(_) => Some(DefinitionKind::Function),
        DefRef::Global(_) => Some(DefinitionKind::Global),
        DefRef::Module(_) => Some(DefinitionKind::Module),
        _ => None,
    }
}

/// A scope entry classifies exactly when it has a direct (non-trait-qualified)
/// binding whose store reference is of a supported category.
pub open spec fn entry_classifies(e: ScopeEntryV) -> bool {
    &&& e.candidates.direct is Some
    &&& kind_of_def_ref(e.candidates.direct->0.def_id) is Some
}

/// The definition a classifiable scope entry turns into: name and location
/// come from the declaring identifier itself, the rest from the direct
/// binding.
pub open spec fn classified_definition(e: ScopeEntryV) -> DefinitionInfoV
    recommends
        entry_classifies(e),
{
    let b = e.candidates.direct->0;
    DefinitionInfoV {
        name: e.ident.name,
        kind: kind_of_def_ref(b.def_id)->0,
        def_id: b.def_id,
        visibility: b.visibility,
        is_prelude: b.is_prelude,
        location: e.ident.location,
    }
}

/// The error a non-classifiable scope entry produces.
pub open spec fn classify_error(e: ScopeEntryV) -> ResolveErrorV
    recommends
        !entry_classifies(e),
{
    if e.candidates.direct is None {
        ResolveErrorV::TraitOnlyDefinition { name: e.ident.name, location: e.ident.location }
    } else {
        ResolveErrorV::UnsupportedDefinitionKind {
            name: e.ident.name,
            location: e.ident.location,
            def_id: e.candidates.direct->0.def_id,
        }
    }
}

/// The scope entry a separately passed identifier and candidate set stand
/// for.
pub open spec fn entry_of(ident: IdentV, candidates: ScopeCandidates) -> ScopeEntryV {
    ScopeEntryV { ident, candidates }
}

impl DefinitionInfo {
    /// Builds a definition record field by field.
    #[must_use]
    pub fn new(
        name: String,
        kind: DefinitionKind,
        def_id: DefRef,
        visibility: Visibility,
        is_prelude: bool,
        location: Location,
    ) -> (r: Self)
        ensures
            r@ == (DefinitionInfoV { name: name@, kind, def_id, visibility, is_prelude, location }),
    {
        Self { name, kind, def_id, visibility, is_prelude, location }
    }

    /// Classifies one scope entry, given as the declared identifier and the
    /// candidate bindings the scope holds for it. Succeeds exactly on entries
    /// with a direct binding of a supported category; the failure value names
    /// the identifier and its location.
    pub fn from_item_scope_value(ident: &Ident, candidates: &ScopeCandidates) -> (r: Result<
        Self,
        ResolveError,
    >)
        ensures
            match r {
                Ok(d) => entry_classifies(entry_of(ident@, *candidates)) && d@
                    == classified_definition(entry_of(ident@, *candidates)),
                Err(e) => !entry_classifies(entry_of(ident@, *candidates)) && e@ == classify_error(
                    entry_of(ident@, *candidates),
                ),
            },
    {
        match candidates.direct {
            Some(binding) => {
                let kind = match binding.def_id {
                    DefRef::Function(_) => DefinitionKind::Function,
                    DefRef::Global(_) => DefinitionKind::Global,
                    DefRef::Module(_) => DefinitionKind::Module,
                    _ => {
                        return Err(
                            ResolveError::UnsupportedDefinitionKind {
                                name: ident.name.clone(),
                                location: ident.location,
                                def_id: binding.def_id,
                            },
                        );
                    },
                };
                Ok(
                    Self {
                        name: ident.name.clone(),
                        kind,
                        def_id: binding.def_id,
                        visibility: binding.visibility,
                        is_prelude: binding.is_prelude,
                        location: ident.location,
                    },
                )
            },
            None => Err(
                ResolveError::TraitOnlyDefinition {
                    name: ident.name.clone(),
                    location: ident.location,
                },
            ),
        }
    }

    /// Whether this definition bears exactly the given name.
    pub fn name_matches(&self, other: &String) -> (r: bool)
        ensures
            r == (self@.name == other@),
    {
        self.name == *other
    }

    /// The identifier text as written in source.
    pub fn name(&self) -> (r: &str)
        ensures
            r@ == self@.name,
    {
        self.name.as_str()
    }

    /// The definition's category.
    pub fn kind(&self) -> (r: DefinitionKind)
        ensures
            r == self@.kind,
    {
        self.kind
    }

    /// The reference into the frontend's definition store.
    pub fn def_id(&self) -> (r: DefRef)
        ensures
            r == self@.def_id,
    {
        self.def_id
    }

    /// The declared visibility.
    pub fn visibility(&self) -> (r: Visibility)
        ensures
            r == self@.visibility,
    {
        self.visibility
    }

    /// Whether the definition was implicitly imported from the standard
    /// library's prelude rather than declared by the user.
    pub fn is_stdlib(&self) -> (r: bool)
        ensures
            r == self@.is_prelude,
    {
        self.is_prelude
    }

    /// Where the defining identifier was written.
    pub fn location(&self) -> (r: Location)
        ensures
            r == self@.location,
    {
        self.location
    }
}

/// Every scope entry of the module classifies.
pub open spec fn module_resolves(m: ModuleSourceV) -> bool {
    forall|k: int| 0 <= k < m.entries.len() ==> entry_classifies(#[trigger] m.entries[k])
}

/// The definitions a module's scope entries turn into, in scope order.
pub open spec fn classified_definitions(entries: Seq<ScopeEntryV>) -> Seq<DefinitionInfoV> {
    Seq::new(entries.len(), |k: int| classified_definition(entries[k]))
}

/// The snapshot record one module row turns into.
pub open spec fn resolved_module(local_id: u64, m: ModuleSourceV) -> ModuleInfoV {
    ModuleInfoV {
        local_id,
        parent: m.parent,
        children: m.children,
        file: m.file,
        definitions: classified_definitions(m.entries),
    }
}

/// Every module of the crate resolves; a standard-library crate is never
/// looked at, so it resolves vacuously.
pub open spec fn crate_resolves(c: CrateInfoV) -> bool {
    c.is_stdlib || forall|k: int|
        0 <= k < c.modules.len() ==> module_resolves((#[trigger] c.modules[k]).data)
}

/// The snapshot records one crate contributes: one per module in table
/// order, and none at all for the standard-library crate.
pub open spec fn crate_snapshot(c: CrateInfoV) -> Seq<ModuleInfoV> {
    if c.is_stdlib {
        Seq::empty()
    } else {
        Seq::new(c.modules.len(), |k: int| resolved_module(c.modules[k].local_id, c.modules[k].data))
    }
}

/// Every crate of the context resolves.
pub open spec fn context_resolves(crates: Seq<CrateInfoV>) -> bool {
    forall|k: int| 0 <= k < crates.len() ==> crate_resolves(#[trigger] crates[k])
}

/// The whole snapshot: the crates' contributions concatenated in context
/// order.
pub open spec fn context_snapshot(crates: Seq<CrateInfoV>) -> Seq<ModuleInfoV>
    decreases crates.len(),
{
    if crates.len() == 0 {
        Seq::empty()
    } else {
        context_snapshot(crates.drop_last()) + crate_snapshot(crates.last())
    }
}

/// Whether, scanning crates in context order, modules in table order and
/// scope entries in scope order, the first scope entry that fails to
/// classify sits at position `k` of module `m` of (non-standard-library)
/// crate `c`.
pub open spec fn first_failure_at(crates: Seq<CrateInfoV>, c: int, m: int, k: int) -> bool {
    &&& 0 <= c < crates.len()
    &&& !crates[c].is_stdlib
    &&& 0 <= m < crates[c].modules.len()
    &&& 0 <= k < crates[c].modules[m].data.entries.len()
    &&& !entry_classifies(crates[c].modules[m].data.entries[k])
    &&& forall|j: int| 0 <= j < c ==> crate_resolves(#[trigger] crates[j])
    &&& forall|j: int| 0 <= j < m ==> module_resolves((#[trigger] crates[c].modules[j]).data)
    &&& forall|j: int|
        0 <= j < k ==> entry_classifies(#[trigger] crates[c].modules[m].data.entries[j])
}

/// Copies a child-module table element by element.
fn copy_children(children: &Vec<ChildModule>) -> (r: Vec<ChildModule>)
    ensures
        r.deep_view() == children.deep_view(),
{
    let mut r: Vec<ChildModule> = Vec::new();
    let mut i: usize = 0;
    while i < children.len()
        invariant
            i <= children.len(),
            r.deep_view() == children.deep_view().take(i as int),
        decreases children.len() - i,
    {
        let ghost prev = r@;
        proof {
            assert(children.deep_view().take(i as int).len() == i);
            assert(prev.len() == i);
        }
        r.push(children[i].clone());
        proof {
            assert(r@ == prev.push(r@[i as int]));
            assert(r.deep_view() =~~= children.deep_view().take(i + 1 as int));
        }
        i += 1;
    }
    proof {
        assert(children.deep_view().take(children.len() as int) =~~= children.deep_view());
    }
    r
}

impl ModuleInfo {
    /// Builds a module record with no definitions yet.
    #[must_use]
    pub fn new(local_id: u64, parent: Option<u64>, children: Vec<ChildModule>, file: u64) -> (r:
        Self)
        ensures
            r@ == (ModuleInfoV {
                local_id,
                parent,
                children: children.deep_view(),
                file,
                definitions: Seq::<DefinitionInfoV>::empty(),
            }),
    {
        let r = Self { local_id, parent, children, file, definitions: Vec::new() };
        proof {
            assert(r.definitions.deep_view() =~~= Seq::<DefinitionInfoV>::empty());
        }
        r
    }

    /// Snapshots one module row: classifies every scope entry in order.
    /// Fails on the first entry that does not classify, with that entry's
    /// error; no partial module record is produced.
    pub fn from_module(local_mod_id: u64, module_data: &ModuleSource) -> (r: Result<
        Self,
        ResolveError,
    >)
        ensures
            match r {
                Ok(m) => module_resolves(module_data@) && m@ == resolved_module(
                    local_mod_id,
                    module_data@,
                ),
                Err(e) => exists|k: int|
                    0 <= k < module_data@.entries.len() && !entry_classifies(
                        #[trigger] module_data@.entries[k],
                    ) && (forall|j: int|
                        0 <= j < k ==> entry_classifies(#[trigger] module_data@.entries[j])) && e@
                        == classify_error(module_data@.entries[k]),
            },
    {
        let mut definitions: Vec<DefinitionInfo> = Vec::new();
        let mut i: usize = 0;
        while i < module_data.entries.len()
            invariant
                i <= module_data.entries.len(),
                forall|k: int|
                    0 <= k < i ==> entry_classifies(#[trigger] module_data@.entries[k]),
                definitions.deep_view() == classified_definitions(
                    module_data@.entries.take(i as int),
                ),
            decreases module_data.entries.len() - i,
        {
            let entry = &module_data.entries[i];
            let ghost prev = definitions@;
            proof {
                assert(classified_definitions(module_data@.entries.take(i as int)).len() == i);
                assert(prev.len() == i);
            }
            match DefinitionInfo::from_item_scope_value(&entry.ident, &entry.candidates) {
                Ok(d) => {
                    definitions.push(d);
                    proof {
                        assert(entry_of(entry.ident@, entry.candidates)
                            == module_data@.entries[i as int]);
                        assert(definitions@ == prev.push(definitions@[i as int]));
                        let ghost target = classified_definitions(
                            module_data@.entries.take(i + 1 as int),
                        );
                        assert forall|k: int|
                            0 <= k < i + 1 implies definitions.deep_view()[k] == target[k] by {
                            if k < i {
                                assert(definitions.deep_view()[k] == classified_definitions(
                                    module_data@.entries.take(i as int),
                                )[k]);
                                assert(module_data@.entries.take(i + 1 as int)[k]
                                    == module_data@.entries.take(i as int)[k]);
                            } else {
                                assert(definitions.deep_view()[k] == definitions@[k].deep_view());
                                assert(module_data@.entries.take(i + 1 as int)[k]
                                    == module_data@.entries[k]);
                            }
                        }
                        assert(definitions.deep_view() =~~= classified_definitions(
                            module_data@.entries.take(i + 1 as int),
                        ));
                    }
                },
                Err(e) => {
                    proof {
                        assert(entry_of(entry.ident@, entry.candidates)
                            == module_data@.entries[i as int]);
                    }
                    return Err(e);
                },
            }
            i += 1;
        }
        let r = Self {
            local_id: local_mod_id,
            parent: module_data.parent,
            children: copy_children(&module_data.children),
            file: module_data.file,
            definitions,
        };
        proof {
            assert(module_data@.entries.take(module_data@.entries.len() as int)
                =~~= module_data@.entries);
            assert(r@ =~~= resolved_module(local_mod_id, module_data@));
        }
        Ok(r)
    }

    /// The module's identifier within its crate's module table.
    pub fn local_id(&self) -> (r: u64)
        ensures
            r == self@.local_id,
    {
        self.local_id
    }

    /// The identifier of the enclosing module, or `None` for the crate root.
    pub fn parent(&self) -> (r: Option<u64>)
        ensures
            r == self@.parent,
    {
        self.parent
    }

    /// The named child modules.
    pub fn children(&self) -> (r: &Vec<ChildModule>)
        ensures
            r.deep_view() == self@.children,
    {
        &self.children
    }

    /// The identifier of the file this module's syntax originates from.
    pub fn file_id(&self) -> (r: u64)
        ensures
            r == self@.file,
    {
        self.file
    }

    /// The definitions bound directly in this module's scope, in scope order.
    pub fn definitions(&self) -> (r: &Vec<DefinitionInfo>)
        ensures
            r.deep_view() == self@.definitions,
    {
        &self.definitions
    }

    /// Appends one definition to the module record.
    pub fn add_definition(&mut self, def: DefinitionInfo)
        ensures
            final(self)@ == (ModuleInfoV {
                definitions: old(self)@.definitions.push(def@),
                ..old(self)@
            }),
    {
        self.definitions.push(def);
        proof {
            assert(self.definitions.deep_view() =~~= old(self)@.definitions.push(def@));
        }
    }
}

/// Builds the module snapshot for the whole resolved context: one record per
/// module of every crate that is not the standard library, in context order.
/// The first scope entry anywhere that does not classify aborts the build
/// with that entry's error; no partial snapshot is returned.
pub fn resolve_mods(context: &ResolvedContext) -> (r: Result<Vec<ModuleInfo>, ResolveError>)
    ensures
        match r {
            Ok(mods) => context_resolves(context@) && mods.deep_view() == context_snapshot(
                context@,
            ),
            Err(e) => !context_resolves(context@) && exists|c: int, m: int, k: int|
                #[trigger] first_failure_at(context@, c, m, k) && e@ == classify_error(
                    context@[c].modules[m].data.entries[k],
                ),
        },
{
    let mut modules: Vec<ModuleInfo> = Vec::new();
    let mut ci: usize = 0;
    proof {
        assert(modules.deep_view() =~~= context_snapshot(context@.take(0)));
    }
    while ci < context.crates.len()
        invariant
            ci <= context@.len(),
            context@ == context.crates.deep_view(),
            forall|k: int| 0 <= k < ci ==> crate_resolves(#[trigger] context@[k]),
            modules.deep_view() == context_snapshot(context@.take(ci as int)),
        decreases context@.len() - ci,
    {
        let crate_info = &context.crates[ci];
        let ghost cv = context@[ci as int];
        if !crate_info.is_stdlib {
            let mut mi: usize = 0;
            while mi < crate_info.modules.len()
                invariant
                    ci < context@.len(),
                    context@ == context.crates.deep_view(),
                    cv == context@[ci as int],
                    cv == crate_info@,
                    !cv.is_stdlib,
                    mi <= cv.modules.len(),
                    forall|j: int| 0 <= j < ci ==> crate_resolves(#[trigger] context@[j]),
                    forall|k: int|
                        0 <= k < mi ==> module_resolves((#[trigger] cv.modules[k]).data),
                    modules.deep_view() == context_snapshot(context@.take(ci as int))
                        + crate_snapshot(cv).take(mi as int),
                decreases cv.modules.len() - mi,
            {
                let row = &crate_info.modules[mi];
                let ghost prev = modules@;
                proof {
                    assert((context_snapshot(context@.take(ci as int)) + crate_snapshot(
                        cv,
                    ).take(mi as int)).len() == context_snapshot(context@.take(ci as int)).len()
                        + mi);
                    assert(prev.len() == context_snapshot(context@.take(ci as int)).len() + mi);
                }
                match ModuleInfo::from_module(row.local_id, &row.data) {
                    Ok(m) => {
                        modules.push(m);
                        proof {
                            assert(row@ == cv.modules[mi as int]);
                            assert(crate_snapshot(cv)[mi as int] == resolved_module(
                                row@.local_id,
                                row@.data,
                            ));
                            assert(modules@ == prev.push(modules@[prev.len() as int]));
                            let ghost head = context_snapshot(context@.take(ci as int));
                            let ghost target = head + crate_snapshot(cv).take(mi + 1 as int);
                            assert forall|k: int|
                                0 <= k < target.len() implies modules.deep_view()[k]
                                == target[k] by {
                                if k < head.len() + mi {
                                    assert(modules.deep_view()[k] == (head + crate_snapshot(
                                        cv,
                                    ).take(mi as int))[k]);
                                    if k >= head.len() {
                                        assert(crate_snapshot(cv).take(mi as int)[k - head.len()]
                                            == crate_snapshot(cv).take(mi + 1 as int)[k
                                            - head.len()]);
                                    }
                                } else {
                                    assert(modules.deep_view()[k] == modules@[k].deep_view());
                                    assert(target[k] == crate_snapshot(cv)[mi as int]);
                                }
                            }
                            assert(modules.deep_view() =~~= context_snapshot(
                                context@.take(ci as int),
                            ) + crate_snapshot(cv).take(mi + 1 as int));
                        }
                    },
                    Err(e) => {
                        proof {
                            assert(row@ == cv.modules[mi as int]);
                            let k = choose|k: int|
                                0 <= k < row@.data.entries.len() && !entry_classifies(
                                    #[trigger] row@.data.entries[k],
                                ) && (forall|j: int|
                                    0 <= j < k ==> entry_classifies(
                                        #[trigger] row@.data.entries[j],
                                    )) && e@ == classify_error(row@.data.entries[k]);
                            assert(context@[ci as int].modules[mi as int].data.entries[k]
                                == row@.data.entries[k]);
                            assert forall|j: int| 0 <= j < mi implies module_resolves(
                                (#[trigger] context@[ci as int].modules[j]).data,
                            ) by {
                                assert(module_resolves(cv.modules[j].data));
                            }
                            assert forall|j: int| 0 <= j < k implies entry_classifies(
                                #[trigger] context@[ci as int].modules[mi as int].data.entries[j],
                            ) by {
                                assert(entry_classifies(row@.data.entries[j]));
                            }
                            assert(first_failure_at(context@, ci as int, mi as int, k));
                            assert(!crate_resolves(cv));
                            assert(!context_resolves(context@));
                        }
                        return Err(e);
                    },
                }
                mi += 1;
            }
            proof {
                assert(crate_snapshot(cv).take(cv.modules.len() as int) =~~= crate_snapshot(cv));
            }
        } else {
            proof {
                assert(crate_snapshot(cv) =~~= Seq::<ModuleInfoV>::empty());
                assert(modules.deep_view() =~~= context_snapshot(context@.take(ci as int))
                    + crate_snapshot(cv));
            }
        }
        proof {
            let taken = context@.take(ci + 1 as int);
            assert(taken.drop_last() =~~= context@.take(ci as int));
            assert(taken.last() == cv);
            assert(context_snapshot(taken) == context_snapshot(taken.drop_last())
                + crate_snapshot(taken.last()));
            assert(modules.deep_view() == context_snapshot(taken));
        }
        ci += 1;
    }
    proof {
        assert(context@.take(context@.len() as int) =~~= context@);
    }
    Ok(modules)
}

/// Classification is total within its contract: every scope entry whose
/// direct binding exists and refers to a function, global, or module store
/// classifies, and the definition produced carries exactly the declaring
/// identifier's text and span.
pub proof fn lemma_classification_total(e: ScopeEntryV)
    requires
        e.candidates.direct is Some,
        kind_of_def_ref(e.candidates.direct->0.def_id) is Some,
    ensures
        entry_classifies(e),
        classified_definition(e).name == e.ident.name,
        classified_definition(e).location == e.ident.location,
{
}

/// No module of a standard-library crate reaches the snapshot: removing such
/// a crate from the context leaves the snapshot unchanged.
pub proof fn lemma_snapshot_excludes_stdlib(crates: Seq<CrateInfoV>, i: int)
    requires
        0 <= i < crates.len(),
        crates[i].is_stdlib,
    ensures
        context_snapshot(crates) == context_snapshot(crates.remove(i)),
    decreases crates.len(),
{
    if i == crates.len() - 1 {
        assert(crates.remove(i) =~~= crates.drop_last());
        assert(crate_snapshot(crates.last()) =~~= Seq::<ModuleInfoV>::empty());
        assert(context_snapshot(crates.drop_last()) + Seq::<ModuleInfoV>::empty()
            =~~= context_snapshot(crates.drop_last()));
    } else {
        let shorter = crates.drop_last();
        lemma_snapshot_excludes_stdlib(shorter, i);
        assert(crates.remove(i).drop_last() =~~= shorter.remove(i));
        assert(crates.remove(i).last() == crates.last());
        assert(context_snapshot(crates.remove(i)) == context_snapshot(shorter.remove(i))
            + crate_snapshot(crates.last()));
    }
}

/// Whether the entries bind pairwise distinct names. A scope is a mapping
/// from name to bindings, so the rows handed over for one module always
/// satisfy this.
pub open spec fn distinct_entry_names(entries: Seq<ScopeEntryV>) -> bool {
    forall|a: int, b: int|
        #![trigger entries[a], entries[b]]
        0 <= a < b < entries.len() ==> entries[a].ident.name != entries[b].ident.name
}

/// One definition per (module, name) pair: a module built from entries with
/// pairwise distinct names holds definitions with pairwise distinct names.
pub proof fn lemma_one_definition_per_name(local_id: u64, m: ModuleSourceV)
    requires
        distinct_entry_names(m.entries),
    ensures
        forall|a: int, b: int|
            #![trigger resolved_module(local_id, m).definitions[a], resolved_module(local_id, m).definitions[b]]
            0 <= a < b < resolved_module(local_id, m).definitions.len() ==> resolved_module(
                local_id,
                m,
            ).definitions[a].name != resolved_module(local_id, m).definitions[b].name,
{
    let defs = resolved_module(local_id, m).definitions;
    assert forall|a: int, b: int| 0 <= a < b < defs.len() implies (#[trigger] defs[a]).name != (
    #[trigger] defs[b]).name by {
        assert(defs[a].name == m.entries[a].ident.name);
        assert(defs[b].name == m.entries[b].ident.name);
        assert(m.entries[a].ident.name != m.entries[b].ident.name);
    }
}

/// Building the snapshot twice from the same unmodified context yields
/// element-wise equal results.
pub proof fn lemma_snapshot_idempotent(
    crates: Seq<CrateInfoV>,
    first: Seq<ModuleInfoV>,
    second: Seq<ModuleInfoV>,
)
    requires
        first == context_snapshot(crates),
        second == context_snapshot(crates),
    ensures
        first.len() == second.len(),
        forall|i: int| 0 <= i < first.len() ==> first[i] == second[i],
{
}

} // verus!
