//! Locating the entry-point function.
//!
//! The semantic locator scans the module snapshot for a function-kind
//! definition with the target name whose owning module comes from the target
//! file; it answers positively only when that match is unique, and ambiguity
//! (two or more matches) can be told apart from absence. The syntactic
//! locator scans a parsed file's top-level items for the first function with
//! the target name; it is for use before a resolved context exists at all.

use vstd::prelude::*;

use crate::model::{FunctionItem, SyntaxItem, SyntaxItemV, SyntaxTree};
use crate::resolver::{DefinitionInfo, DefinitionInfoV, DefinitionKind, ModuleInfo, ModuleInfoV};

verus! {

/// Whether one definition is an entry-point candidate for the target name: a
/// function-kind definition bearing exactly that name.
pub open spec fn def_matches_entry(d: DefinitionInfoV, name: Seq<char>) -> bool {
    d.kind == DefinitionKind::Function && d.name == name
}

/// How many definitions of one sequence match the target name.
pub open spec fn count_entry_matches(defs: Seq<DefinitionInfoV>, name: Seq<char>) -> nat
    decreases defs.len(),
{
    if defs.len() == 0 {
        0
    } else {
        count_entry_matches(defs.drop_last(), name) + if def_matches_entry(defs.last(), name) {
            1nat
        } else {
            0nat
        }
    }
}

/// How many definitions of one module match the target file and name: none
/// at all when the module's file is not the target file.
pub open spec fn module_match_count(m: ModuleInfoV, file: u64, name: Seq<char>) -> nat {
    if m.file == file {
        count_entry_matches(m.definitions, name)
    } else {
        0
    }
}

/// How many definitions of the whole snapshot match the target file and
/// name.
pub open spec fn snapshot_match_count(mods: Seq<ModuleInfoV>, file: u64, name: Seq<char>) -> nat
    decreases mods.len(),
{
    if mods.len() == 0 {
        0
    } else {
        snapshot_match_count(mods.drop_last(), file, name) + module_match_count(
            mods.last(),
            file,
            name,
        )
    }
}

/// Whether `d` is one of the snapshot's matches for the target file and
/// name.
pub open spec fn is_entry_witness(
    mods: Seq<ModuleInfoV>,
    file: u64,
    name: Seq<char>,
    d: DefinitionInfoV,
) -> bool {
    exists|i: int, j: int|
        #![trigger mods[i].definitions[j]]
        0 <= i < mods.len() && mods[i].file == file && 0 <= j < mods[i].definitions.len()
            && def_matches_entry(mods[i].definitions[j], name) && d == mods[i].definitions[j]
}

/// A match count, saturated at two: all the locator needs to know is none,
/// exactly one, or more than one.
spec fn capped(n: nat) -> nat {
    if n >= 2 {
        2
    } else {
        n
    }
}

/// One pass over the snapshot: counts the matches (saturated at two) and
/// remembers the first one.
fn scan_entry_matches<'a>(
    modules: &'a Vec<ModuleInfo>,
    entry_file_id: u64,
    entry_point_name: &str,
) -> (r: (u8, Option<&'a DefinitionInfo>))
    ensures
        r.0 as nat == capped(
            snapshot_match_count(modules.deep_view(), entry_file_id, entry_point_name@),
        ),
        r.1 is Some <==> snapshot_match_count(modules.deep_view(), entry_file_id, entry_point_name@)
            > 0,
        r.1 matches Some(d) ==> is_entry_witness(
            modules.deep_view(),
            entry_file_id,
            entry_point_name@,
            d@,
        ),
{
    let ghost mseq = modules.deep_view();
    let ghost name = entry_point_name@;
    let target: String = entry_point_name.to_owned();
    let mut count: u8 = 0;
    let mut found: Option<&'a DefinitionInfo> = None;
    let mut i: usize = 0;
    proof {
        assert(mseq.take(0) =~~= Seq::<ModuleInfoV>::empty());
    }
    while i < modules.len()
        invariant
            i <= modules.len(),
            mseq == modules.deep_view(),
            target@ == name,
            count as nat == capped(snapshot_match_count(mseq.take(i as int), entry_file_id, name)),
            found is Some <==> snapshot_match_count(mseq.take(i as int), entry_file_id, name) > 0,
            found matches Some(d) ==> is_entry_witness(mseq, entry_file_id, name, d@),
        decreases modules.len() - i,
    {
        let m = &modules[i];
        proof {
            assert(m@ == mseq[i as int]);
        }
        if m.file_id() == entry_file_id {
            let defs = m.definitions();
            let ghost dseq = mseq[i as int].definitions;
            let mut j: usize = 0;
            proof {
                assert(dseq.take(0) =~~= Seq::<DefinitionInfoV>::empty());
            }
            while j < defs.len()
                invariant
                    i < modules.len(),
                    j <= defs.len(),
                    mseq == modules.deep_view(),
                    target@ == name,
                    defs.deep_view() == dseq,
                    dseq == mseq[i as int].definitions,
                    mseq[i as int].file == entry_file_id,
                    count as nat == capped(
                        snapshot_match_count(mseq.take(i as int), entry_file_id, name)
                            + count_entry_matches(dseq.take(j as int), name),
                    ),
                    found is Some <==> snapshot_match_count(mseq.take(i as int), entry_file_id, name)
                        + count_entry_matches(dseq.take(j as int), name) > 0,
                    found matches Some(d) ==> is_entry_witness(mseq, entry_file_id, name, d@),
                decreases defs.len() - j,
            {
                let d = &defs[j];
                proof {
                    assert(d@ == dseq[j as int]);
                    assert(dseq.take(j + 1 as int).drop_last() =~~= dseq.take(j as int));
                    assert(dseq.take(j + 1 as int).last() == dseq[j as int]);
                }
                let is_function = matches!(d.kind(), DefinitionKind::Function);
                if is_function && d.name_matches(&target) {
                    if count < 2 {
                        count = count + 1;
                    }
                    if found.is_none() {
                        found = Some(d);
                        proof {
                            assert(mseq[i as int].definitions[j as int] == d@);
                            assert(is_entry_witness(mseq, entry_file_id, name, d@));
                        }
                    }
                }
                j += 1;
            }
            proof {
                assert(dseq.take(defs.len() as int) =~~= dseq);
                assert(module_match_count(mseq[i as int], entry_file_id, name)
                    == count_entry_matches(dseq, name));
            }
        } else {
            proof {
                assert(module_match_count(mseq[i as int], entry_file_id, name) == 0);
            }
        }
        proof {
            assert(mseq.take(i + 1 as int).drop_last() =~~= mseq.take(i as int));
            assert(mseq.take(i + 1 as int).last() == mseq[i as int]);
            assert(snapshot_match_count(mseq.take(i + 1 as int), entry_file_id, name)
                == snapshot_match_count(mseq.take(i as int), entry_file_id, name)
                + module_match_count(mseq[i as int], entry_file_id, name));
        }
        i += 1;
    }
    proof {
        assert(mseq.take(modules.len() as int) =~~= mseq);
    }
    (count, found)
}

/// Semantic entry-point locator: the unique function-kind definition with
/// the target name whose owning module's file is the target file. Absence
/// and ambiguity both answer `None`; [`entry_point_is_ambiguous`] tells the
/// two apart.
pub fn find_hir_entry_point<'a>(
    modules: &'a Vec<ModuleInfo>,
    entry_file_id: u64,
    entry_point_name: &str,
) -> (r: Option<&'a DefinitionInfo>)
    ensures
        match r {
            Some(d) => snapshot_match_count(modules.deep_view(), entry_file_id, entry_point_name@)
                == 1 && is_entry_witness(
                modules.deep_view(),
                entry_file_id,
                entry_point_name@,
                d@,
            ),
            None => snapshot_match_count(modules.deep_view(), entry_file_id, entry_point_name@)
                != 1,
        },
{
    let (count, found) = scan_entry_matches(modules, entry_file_id, entry_point_name);
    if count == 1 {
        found
    } else {
        None
    }
}

/// Whether the snapshot holds two or more entry-point candidates for the
/// target file and name. Together with [`find_hir_entry_point`] this lets a
/// caller tell "no candidate" from "more than one".
pub fn entry_point_is_ambiguous(
    modules: &Vec<ModuleInfo>,
    entry_file_id: u64,
    entry_point_name: &str,
) -> (r: bool)
    ensures
        r <==> snapshot_match_count(modules.deep_view(), entry_file_id, entry_point_name@) >= 2,
{
    let (count, _) = scan_entry_matches(modules, entry_file_id, entry_point_name);
    count >= 2
}

proof fn lemma_count_at_least_one(defs: Seq<DefinitionInfoV>, name: Seq<char>, j: int)
    requires
        0 <= j < defs.len(),
        def_matches_entry(defs[j], name),
    ensures
        count_entry_matches(defs, name) >= 1,
    decreases defs.len(),
{
    if j < defs.len() - 1 {
        lemma_count_at_least_one(defs.drop_last(), name, j);
    }
}

proof fn lemma_count_at_least_two(defs: Seq<DefinitionInfoV>, name: Seq<char>, j1: int, j2: int)
    requires
        0 <= j1 < j2 < defs.len(),
        def_matches_entry(defs[j1], name),
        def_matches_entry(defs[j2], name),
    ensures
        count_entry_matches(defs, name) >= 2,
    decreases defs.len(),
{
    if j2 == defs.len() - 1 {
        lemma_count_at_least_one(defs.drop_last(), name, j1);
    } else {
        lemma_count_at_least_two(defs.drop_last(), name, j1, j2);
    }
}

proof fn lemma_snapshot_count_lower_one(
    mods: Seq<ModuleInfoV>,
    file: u64,
    name: Seq<char>,
    i: int,
    j: int,
)
    requires
        0 <= i < mods.len(),
        mods[i].file == file,
        0 <= j < mods[i].definitions.len(),
        def_matches_entry(mods[i].definitions[j], name),
    ensures
        snapshot_match_count(mods, file, name) >= 1,
    decreases mods.len(),
{
    if i == mods.len() - 1 {
        lemma_count_at_least_one(mods[i].definitions, name, j);
    } else {
        lemma_snapshot_count_lower_one(mods.drop_last(), file, name, i, j);
    }
}

proof fn lemma_snapshot_count_lower_two(
    mods: Seq<ModuleInfoV>,
    file: u64,
    name: Seq<char>,
    i1: int,
    j1: int,
    i2: int,
    j2: int,
)
    requires
        0 <= i1 <= i2 < mods.len(),
        i1 != i2 || j1 != j2,
        mods[i1].file == file,
        mods[i2].file == file,
        0 <= j1 < mods[i1].definitions.len(),
        0 <= j2 < mods[i2].definitions.len(),
        def_matches_entry(mods[i1].definitions[j1], name),
        def_matches_entry(mods[i2].definitions[j2], name),
    ensures
        snapshot_match_count(mods, file, name) >= 2,
    decreases mods.len(),
{
    if i2 == mods.len() - 1 {
        if i1 == i2 {
            if j1 < j2 {
                lemma_count_at_least_two(mods[i2].definitions, name, j1, j2);
            } else {
                lemma_count_at_least_two(mods[i2].definitions, name, j2, j1);
            }
        } else {
            lemma_snapshot_count_lower_one(mods.drop_last(), file, name, i1, j1);
            lemma_count_at_least_one(mods[i2].definitions, name, j2);
        }
    } else {
        lemma_snapshot_count_lower_two(mods.drop_last(), file, name, i1, j1, i2, j2);
    }
}

/// A unique match can never silently be the wrong one: when the snapshot
/// holds exactly one match for the target file and name, any two definitions
/// witnessed as matches are the same definition.
pub proof fn lemma_unique_match_is_pinned(
    mods: Seq<ModuleInfoV>,
    file: u64,
    name: Seq<char>,
    d1: DefinitionInfoV,
    d2: DefinitionInfoV,
)
    requires
        snapshot_match_count(mods, file, name) == 1,
        is_entry_witness(mods, file, name, d1),
        is_entry_witness(mods, file, name, d2),
    ensures
        d1 == d2,
{
    let (i1, j1) = choose|i: int, j: int|
        #![trigger mods[i].definitions[j]]
        0 <= i < mods.len() && mods[i].file == file && 0 <= j < mods[i].definitions.len()
            && def_matches_entry(mods[i].definitions[j], name) && d1 == mods[i].definitions[j];
    let (i2, j2) = choose|i: int, j: int|
        #![trigger mods[i].definitions[j]]
        0 <= i < mods.len() && mods[i].file == file && 0 <= j < mods[i].definitions.len()
            && def_matches_entry(mods[i].definitions[j], name) && d2 == mods[i].definitions[j];
    if i1 != i2 || j1 != j2 {
        if i1 <= i2 {
            lemma_snapshot_count_lower_two(mods, file, name, i1, j1, i2, j2);
        } else {
            lemma_snapshot_count_lower_two(mods, file, name, i2, j2, i1, j1);
        }
    }
}

/// Whether a top-level item is a function item declared under the target
/// name.
pub open spec fn item_is_named_function(it: SyntaxItemV, name: Seq<char>) -> bool {
    it matches SyntaxItemV::Function(f) && f.name.name == name
}

/// Whether position `i` holds the first function item with the target name.
pub open spec fn first_named_function_at(items: Seq<SyntaxItemV>, name: Seq<char>, i: int) -> bool {
    0 <= i < items.len() && item_is_named_function(items[i], name) && forall|j: int|
        0 <= j < i ==> !item_is_named_function(#[trigger] items[j], name)
}

/// Syntactic entry-point locator: the first top-level function item with the
/// target name, in source order. Consults neither visibility nor module
/// nesting — a parsed tree is per-file, so file identity is implicit.
pub fn find_entry_point_syntax<'a>(tree: &'a SyntaxTree, entry_point_name: &str) -> (r: Option<
    &'a FunctionItem,
>)
    ensures
        match r {
            Some(f) => exists|i: int|
                #[trigger] first_named_function_at(tree@, entry_point_name@, i) && tree@[i]
                    == SyntaxItemV::Function(f@),
            None => forall|i: int|
                0 <= i < tree@.len() ==> !item_is_named_function(#[trigger] tree@[i], entry_point_name@),
        },
{
    let target: String = entry_point_name.to_owned();
    let mut i: usize = 0;
    while i < tree.items.len()
        invariant
            i <= tree.items.len(),
            target@ == entry_point_name@,
            forall|j: int|
                0 <= j < i ==> !item_is_named_function(#[trigger] tree@[j], entry_point_name@),
        decreases tree.items.len() - i,
    {
        match &tree.items[i] {
            SyntaxItem::Function(f) => {
                proof {
                    assert(tree@[i as int] == SyntaxItemV::Function(f@));
                }
                if f.name.name == target {
                    proof {
                        assert(item_is_named_function(tree@[i as int], entry_point_name@));
                        assert(first_named_function_at(tree@, entry_point_name@, i as int));
                    }
                    return Some(f);
                }
            },
            SyntaxItem::Other => {
                proof {
                    assert(tree@[i as int] == SyntaxItemV::Other);
                }
            },
        }
        i += 1;
    }
    None
}

} // verus!
