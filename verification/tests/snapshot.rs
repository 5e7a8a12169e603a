//! Snapshot construction: classification, stdlib exclusion, determinism,
//! and the failure modes that abort a build.

use lucid_noir::model::{
    ChildModule, CrateInfo, DefRef, Ident, Location, ModuleRow, ModuleSource, ResolvedContext,
    ScopeBinding, ScopeCandidates, ScopeEntry, Visibility,
};
use lucid_noir::resolver::{
    resolve_mods, DefinitionInfo, DefinitionKind, ModuleInfo, ResolveError,
};

fn loc(file: u64, start: u32, end: u32) -> Location {
    Location { file, start, end }
}

fn ident(name: &str, location: Location) -> Ident {
    Ident { name: name.to_string(), location }
}

fn entry(name: &str, location: Location, def_id: DefRef) -> ScopeEntry {
    ScopeEntry {
        ident: ident(name, location),
        candidates: ScopeCandidates {
            direct: Some(ScopeBinding {
                def_id,
                visibility: Visibility::Private,
                is_prelude: false,
            }),
        },
    }
}

fn module_row(local_id: u64, file: u64, entries: Vec<ScopeEntry>) -> ModuleRow {
    ModuleRow {
        local_id,
        data: ModuleSource { parent: None, children: Vec::new(), file, entries },
    }
}

fn user_crate(modules: Vec<ModuleRow>) -> CrateInfo {
    CrateInfo { is_stdlib: false, modules }
}

#[test]
fn classification_produces_identifier_name_and_span() {
    let l = loc(3, 10, 14);
    let i = ident("main", l);
    let c = ScopeCandidates {
        direct: Some(ScopeBinding {
            def_id: DefRef::Function(7),
            visibility: Visibility::Public,
            is_prelude: false,
        }),
    };
    let d = DefinitionInfo::from_item_scope_value(&i, &c).expect("function entry classifies");
    assert_eq!(d.name(), "main");
    assert_eq!(d.kind(), DefinitionKind::Function);
    assert_eq!(d.def_id(), DefRef::Function(7));
    assert_eq!(d.visibility(), Visibility::Public);
    assert!(!d.is_stdlib());
    assert_eq!(d.location(), l);
}

#[test]
fn classification_covers_global_and_module_kinds() {
    let l = loc(1, 0, 3);
    let g = DefinitionInfo::from_item_scope_value(
        &ident("g", l),
        &ScopeCandidates {
            direct: Some(ScopeBinding {
                def_id: DefRef::Global(2),
                visibility: Visibility::PublicCrate,
                is_prelude: true,
            }),
        },
    )
    .expect("global entry classifies");
    assert_eq!(g.kind(), DefinitionKind::Global);
    assert!(g.is_stdlib());

    let m = DefinitionInfo::from_item_scope_value(
        &ident("m", l),
        &ScopeCandidates {
            direct: Some(ScopeBinding {
                def_id: DefRef::Module(9),
                visibility: Visibility::Private,
                is_prelude: false,
            }),
        },
    )
    .expect("module entry classifies");
    assert_eq!(m.kind(), DefinitionKind::Module);
}

#[test]
fn trait_only_entry_fails_with_its_name_and_location() {
    let l = loc(5, 20, 25);
    let r = DefinitionInfo::from_item_scope_value(
        &ident("shadow", l),
        &ScopeCandidates { direct: None },
    );
    match r {
        Err(ResolveError::TraitOnlyDefinition { name, location }) => {
            assert_eq!(name, "shadow");
            assert_eq!(location, l);
        }
        other => panic!("expected a trait-only failure, got {other:?}"),
    }
}

#[test]
fn unsupported_kind_fails_with_the_offending_reference() {
    let l = loc(5, 1, 6);
    let r = DefinitionInfo::from_item_scope_value(
        &ident("t", l),
        &ScopeCandidates {
            direct: Some(ScopeBinding {
                def_id: DefRef::Trait(4),
                visibility: Visibility::Public,
                is_prelude: false,
            }),
        },
    );
    match r {
        Err(ResolveError::UnsupportedDefinitionKind { name, location, def_id }) => {
            assert_eq!(name, "t");
            assert_eq!(location, l);
            assert_eq!(def_id, DefRef::Trait(4));
        }
        other => panic!("expected an unsupported-kind failure, got {other:?}"),
    }
}

#[test]
fn snapshot_excludes_stdlib_crates() {
    let stdlib = CrateInfo {
        is_stdlib: true,
        modules: vec![
            module_row(0, 100, vec![entry("internal", loc(100, 0, 8), DefRef::Function(1))]),
        ],
    };
    let user = user_crate(vec![
        module_row(0, 1, vec![entry("main", loc(1, 0, 4), DefRef::Function(2))]),
    ]);
    let ctx = ResolvedContext { crates: vec![stdlib, user] };
    let snapshot = resolve_mods(&ctx).expect("user crate resolves");
    assert_eq!(snapshot.len(), 1);
    assert_eq!(snapshot[0].file_id(), 1);
    assert_eq!(snapshot[0].definitions().len(), 1);
    assert_eq!(snapshot[0].definitions()[0].name(), "main");
}

#[test]
fn snapshot_of_only_stdlib_crates_is_empty() {
    let stdlib = CrateInfo {
        is_stdlib: true,
        modules: vec![module_row(0, 9, vec![entry("x", loc(9, 0, 1), DefRef::Global(3))])],
    };
    let ctx = ResolvedContext { crates: vec![stdlib] };
    let snapshot = resolve_mods(&ctx).expect("nothing to classify");
    assert!(snapshot.is_empty());
}

#[test]
fn snapshot_keeps_module_table_order_and_fields() {
    let root = ModuleRow {
        local_id: 0,
        data: ModuleSource {
            parent: None,
            children: vec![ChildModule { name: "sub".to_string(), id: 1 }],
            file: 1,
            entries: vec![entry("sub", loc(1, 4, 7), DefRef::Module(1))],
        },
    };
    let sub = ModuleRow {
        local_id: 1,
        data: ModuleSource {
            parent: Some(0),
            children: Vec::new(),
            file: 2,
            entries: vec![entry("helper", loc(2, 3, 9), DefRef::Function(5))],
        },
    };
    let ctx = ResolvedContext { crates: vec![user_crate(vec![root, sub])] };
    let snapshot = resolve_mods(&ctx).expect("both modules resolve");
    assert_eq!(snapshot.len(), 2);
    assert_eq!(snapshot[0].local_id(), 0);
    assert_eq!(snapshot[0].parent(), None);
    assert_eq!(snapshot[0].children().len(), 1);
    assert_eq!(snapshot[0].children()[0].name, "sub");
    assert_eq!(snapshot[0].children()[0].id, 1);
    assert_eq!(snapshot[1].local_id(), 1);
    assert_eq!(snapshot[1].parent(), Some(0));
    assert_eq!(snapshot[1].file_id(), 2);
    assert_eq!(snapshot[1].definitions()[0].kind(), DefinitionKind::Function);
}

#[test]
fn resolving_twice_yields_equal_snapshots() {
    let ctx = ResolvedContext {
        crates: vec![
            user_crate(vec![
                module_row(0, 1, vec![
                    entry("main", loc(1, 0, 4), DefRef::Function(2)),
                    entry("limit", loc(1, 20, 25), DefRef::Global(3)),
                ]),
            ]),
            CrateInfo { is_stdlib: true, modules: vec![module_row(0, 50, Vec::new())] },
        ],
    };
    let first = resolve_mods(&ctx).expect("resolves");
    let second = resolve_mods(&ctx).expect("resolves");
    assert_eq!(first, second);
}

#[test]
fn one_bad_entry_aborts_the_whole_build() {
    let good = entry("fine", loc(1, 0, 4), DefRef::Function(1));
    let bad = ScopeEntry {
        ident: ident("via_trait", loc(1, 10, 19)),
        candidates: ScopeCandidates { direct: None },
    };
    let later = entry("after", loc(1, 30, 35), DefRef::Function(2));
    let ctx = ResolvedContext {
        crates: vec![user_crate(vec![module_row(0, 1, vec![good, bad, later])])],
    };
    match resolve_mods(&ctx) {
        Err(ResolveError::TraitOnlyDefinition { name, location }) => {
            assert_eq!(name, "via_trait");
            assert_eq!(location, loc(1, 10, 19));
        }
        other => panic!("expected the build to abort, got {other:?}"),
    }
}

#[test]
fn bad_entry_in_stdlib_crate_is_never_looked_at() {
    let stdlib = CrateInfo {
        is_stdlib: true,
        modules: vec![module_row(0, 7, vec![
            ScopeEntry {
                ident: ident("trait_thing", loc(7, 0, 11)),
                candidates: ScopeCandidates { direct: None },
            },
        ])],
    };
    let user = user_crate(vec![module_row(0, 1, vec![entry("main", loc(1, 0, 4), DefRef::Function(1))])]);
    let ctx = ResolvedContext { crates: vec![stdlib, user] };
    assert!(resolve_mods(&ctx).is_ok());
}

#[test]
fn module_records_can_be_built_by_hand() {
    let mut m = ModuleInfo::new(4, Some(0), vec![ChildModule { name: "inner".to_string(), id: 5 }], 2);
    assert_eq!(m.local_id(), 4);
    assert_eq!(m.parent(), Some(0));
    assert_eq!(m.file_id(), 2);
    assert!(m.definitions().is_empty());
    let d = DefinitionInfo::new(
        "main".to_string(),
        DefinitionKind::Function,
        DefRef::Function(1),
        Visibility::Public,
        false,
        loc(2, 0, 4),
    );
    m.add_definition(d);
    assert_eq!(m.definitions().len(), 1);
    assert_eq!(m.definitions()[0].name(), "main");
}

#[test]
fn kind_labels_are_the_display_words() {
    assert_eq!(DefinitionKind::Function.label(), "function");
    assert_eq!(DefinitionKind::Global.label(), "global");
    assert_eq!(DefinitionKind::Module.label(), "module");
}

#[test]
fn from_module_snapshots_one_row() {
    let m = ModuleSource {
        parent: Some(3),
        children: vec![ChildModule { name: "inner".to_string(), id: 4 }],
        file: 7,
        entries: vec![entry("f", loc(7, 0, 1), DefRef::Function(11))],
    };
    let info = ModuleInfo::from_module(9, &m).expect("entry classifies");
    assert_eq!(info.local_id(), 9);
    assert_eq!(info.parent(), Some(3));
    assert_eq!(info.file_id(), 7);
    assert_eq!(info.children().len(), 1);
    assert_eq!(info.children()[0].name, "inner");
    assert_eq!(info.definitions().len(), 1);
    assert_eq!(info.definitions()[0].def_id(), DefRef::Function(11));
}

#[test]
fn from_module_reports_the_first_failing_entry() {
    let m = ModuleSource {
        parent: None,
        children: Vec::new(),
        file: 1,
        entries: vec![
            entry("ok", loc(1, 0, 2), DefRef::Global(1)),
            entry("first_bad", loc(1, 5, 14), DefRef::Trait(2)),
            ScopeEntry {
                ident: ident("second_bad", loc(1, 20, 30)),
                candidates: ScopeCandidates { direct: None },
            },
        ],
    };
    match ModuleInfo::from_module(0, &m) {
        Err(ResolveError::UnsupportedDefinitionKind { name, .. }) => {
            assert_eq!(name, "first_bad");
        }
        other => panic!("expected the first failure, got {other:?}"),
    }
}

#[test]
fn empty_context_resolves_to_an_empty_snapshot() {
    let ctx = ResolvedContext { crates: Vec::new() };
    assert!(resolve_mods(&ctx).expect("nothing to do").is_empty());
}
