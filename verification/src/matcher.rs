//! Matching a resolved definition back to its syntax-tree node.
//!
//! The resolved graph and the raw syntax tree share no common identifier, so
//! the join key is the composite the two sides both carry: the declared name
//! together with its exact source location. Name alone could collide with a
//! re-declaration elsewhere in the file; location alone could mis-align with
//! item boundaries; a node counts as a match only when both are equal.

use vstd::prelude::*;

use crate::model::{FunctionItem, SyntaxItem, SyntaxItemV, SyntaxTree};
use crate::resolver::{DefinitionInfo, DefinitionInfoV};

verus! {

/// Whether a top-level item is a function item whose declared name and
/// location both equal the resolved definition's.
pub open spec fn item_matches_definition(it: SyntaxItemV, d: DefinitionInfoV) -> bool {
    it matches SyntaxItemV::Function(f) && f.name.name == d.name && f.name.location == d.location
}

/// Whether position `i` holds the first item matching the resolved
/// definition.
pub open spec fn first_definition_match_at(
    items: Seq<SyntaxItemV>,
    d: DefinitionInfoV,
    i: int,
) -> bool {
    0 <= i < items.len() && item_matches_definition(items[i], d) && forall|j: int|
        0 <= j < i ==> !item_matches_definition(#[trigger] items[j], d)
}

/// Finds the syntax-tree function item whose declared name and source
/// location both equal the resolved definition's, or `None` when no item
/// carries that exact composite key. An item agreeing on only one of the two
/// is never returned.
pub fn match_hir_ast_function<'a>(parsed: &'a SyntaxTree, entry_fn: &DefinitionInfo) -> (r: Option<
    &'a FunctionItem,
>)
    ensures
        match r {
            Some(f) => f@.name.name == entry_fn@.name && f@.name.location == entry_fn@.location
                && exists|i: int|
                #[trigger] first_definition_match_at(parsed@, entry_fn@, i) && parsed@[i]
                    == SyntaxItemV::Function(f@),
            None => forall|i: int|
                0 <= i < parsed@.len() ==> !item_matches_definition(
                    #[trigger] parsed@[i],
                    entry_fn@,
                ),
        },
{
    let target: String = entry_fn.name().to_owned();
    let target_location = entry_fn.location();
    let mut i: usize = 0;
    while i < parsed.items.len()
        invariant
            i <= parsed.items.len(),
            target@ == entry_fn@.name,
            target_location == entry_fn@.location,
            forall|j: int|
                0 <= j < i ==> !item_matches_definition(#[trigger] parsed@[j], entry_fn@),
        decreases parsed.items.len() - i,
    {
        match &parsed.items[i] {
            SyntaxItem::Function(f) => {
                proof {
                    assert(parsed@[i as int] == SyntaxItemV::Function(f@));
                }
                let same_name = f.name.name == target;
                let same_location = f.name.location == target_location;
                if same_name && same_location {
                    proof {
                        assert(item_matches_definition(parsed@[i as int], entry_fn@));
                        assert(first_definition_match_at(parsed@, entry_fn@, i as int));
                    }
                    return Some(f);
                }
            },
            SyntaxItem::Other => {
                proof {
                    assert(parsed@[i as int] == SyntaxItemV::Other);
                }
            },
        }
        i += 1;
    }
    None
}

} // verus!
