//! Ordered, filtered traversal of one object model: a leading group for
//! common symbols when any exist, then one group per section in declaration
//! order.  A code section's symbols are reversed when the shared
//! reverse-function-order flag is set; other kinds never are.

use vstd::prelude::*;
use crate::model::{ObjectModel, SectionKind, Symbol};
use crate::search::{ascii_lowercase, lower_seq, symbol_matches_search, symbol_matches_spec};

verus! {

broadcast use vstd::seq_lib::lemma_seq_contains_after_push;

/// One group of a catalog traversal: the symbols of one section — or of the
/// common set — that survive the search filter, as indexes into the owning
/// sequence.
#[derive(Debug)]
pub struct CatalogGroup {
    /// Index of the owning section, or `None` for the common group.
    pub section_index: Option<usize>,
    /// Indexes into the owning symbol sequence, in traversal order.
    pub symbol_indexes: Vec<usize>,
}

/// `ixs` holds exactly the indexes of the symbols of `syms` that match
/// `query`, in ascending order — descending when `rev` is set.
pub open spec fn is_filtered_listing(
    ixs: Seq<usize>,
    syms: Seq<Symbol>,
    query: Seq<char>,
    rev: bool,
) -> bool {
    &&& forall|j: int|
        0 <= j < ixs.len() ==> (#[trigger] ixs[j]) < syms.len() && symbol_matches_spec(
            syms[ixs[j] as int],
            query,
        )
    &&& forall|i: int|
        0 <= i < syms.len() && #[trigger] symbol_matches_spec(syms[i], query) ==> ixs.contains(
            i as usize,
        )
    &&& forall|j1: int, j2: int|
        0 <= j1 < j2 < ixs.len() ==> if rev {
            (#[trigger] ixs[j1]) > (#[trigger] ixs[j2])
        } else {
            ixs[j1] < ixs[j2]
        }
}

/// Collects the indexes of the symbols matching `lowered_query`, walking
/// `syms` backwards when `rev` is set.
fn filtered_symbol_indexes(syms: &Vec<Symbol>, lowered_query: &str, rev: bool) -> (ixs: Vec<usize>)
    ensures
        is_filtered_listing(ixs@, syms@, lowered_query@, rev),
{
    let mut ixs: Vec<usize> = Vec::new();
    if rev {
        let mut i: usize = syms.len();
        while i > 0
            invariant
                i <= syms@.len(),
                forall|j: int|
                    0 <= j < ixs@.len() ==> i <= (#[trigger] ixs@[j]) && ixs@[j] < syms@.len()
                        && symbol_matches_spec(syms@[ixs@[j] as int], lowered_query@),
                forall|k: int|
                    i <= k < syms@.len() && #[trigger] symbol_matches_spec(syms@[k], lowered_query@)
                        ==> ixs@.contains(k as usize),
                forall|j1: int, j2: int|
                    0 <= j1 < j2 < ixs@.len() ==> (#[trigger] ixs@[j1]) > (#[trigger] ixs@[j2]),
            decreases i,
        {
            i = i - 1;
            if symbol_matches_search(&syms[i], lowered_query) {
                ixs.push(i);
            }
        }
        ixs
    } else {
        let mut i: usize = 0;
        while i < syms.len()
            invariant
                i <= syms@.len(),
                forall|j: int|
                    0 <= j < ixs@.len() ==> (#[trigger] ixs@[j]) < i && symbol_matches_spec(
                        syms@[ixs@[j] as int],
                        lowered_query@,
                    ),
                forall|k: int|
                    0 <= k < i && #[trigger] symbol_matches_spec(syms@[k], lowered_query@)
                        ==> ixs@.contains(k as usize),
                forall|j1: int, j2: int|
                    0 <= j1 < j2 < ixs@.len() ==> (#[trigger] ixs@[j1]) < (#[trigger] ixs@[j2]),
            decreases syms@.len() - i,
        {
            if symbol_matches_search(&syms[i], lowered_query) {
                ixs.push(i);
            }
            i += 1;
        }
        ixs
    }
}

/// The group at catalog position `j` presents section `k` of `obj`.
pub open spec fn section_group_ok(
    g: CatalogGroup,
    obj: ObjectModel,
    k: int,
    query: Seq<char>,
    rev: bool,
) -> bool {
    &&& g.section_index == Some(k as usize)
    &&& is_filtered_listing(
        g.symbol_indexes@,
        obj.sections@[k].symbols@,
        query,
        rev && obj.sections@[k].kind == SectionKind::Code,
    )
}

/// The whole traversal: a leading common group when common symbols exist,
/// then one group per section in declaration order, each filtered by
/// `query`, code sections reversed when `rev` is set.
pub open spec fn catalog_ok(
    groups: Seq<CatalogGroup>,
    obj: ObjectModel,
    query: Seq<char>,
    rev: bool,
) -> bool {
    let off: int = if obj.common@.len() > 0 { 1 } else { 0 };
    &&& groups.len() == off + obj.sections@.len()
    &&& obj.common@.len() > 0 ==> groups[0].section_index is None && is_filtered_listing(
        groups[0].symbol_indexes@,
        obj.common@,
        query,
        false,
    )
    &&& forall|j: int|
        off <= j < groups.len() ==> section_group_ok(#[trigger] groups[j], obj, j - off, query, rev)
}

/// Builds the catalog traversal for one object model.  The raw `search`
/// string is folded to ASCII lowercase once, here, before any filtering;
/// every group is then filtered with the folded query.
pub fn catalog_groups(obj: &ObjectModel, search: &str, reverse_function_order: bool) -> (groups:
    Vec<CatalogGroup>)
    ensures
        catalog_ok(groups@, *obj, lower_seq(search@), reverse_function_order),
{
    let lowered = ascii_lowercase(search);
    let ghost off: int = if obj.common@.len() > 0 { 1 } else { 0 };
    let mut groups: Vec<CatalogGroup> = Vec::new();
    if obj.common.len() > 0 {
        let ixs = filtered_symbol_indexes(&obj.common, lowered.as_str(), false);
        groups.push(CatalogGroup { section_index: None, symbol_indexes: ixs });
    }
    let mut k: usize = 0;
    while k < obj.sections.len()
        invariant
            off == if obj.common@.len() > 0 { 1int } else { 0int },
            groups@.len() == off + k,
            k <= obj.sections@.len(),
            obj.common@.len() > 0 ==> groups@[0].section_index is None && is_filtered_listing(
                groups@[0].symbol_indexes@,
                obj.common@,
                lowered@,
                false,
            ),
            lowered@ == lower_seq(search@),
            forall|j: int|
                off <= j < groups@.len() ==> section_group_ok(
                    #[trigger] groups@[j],
                    *obj,
                    j - off,
                    lowered@,
                    reverse_function_order,
                ),
        decreases obj.sections@.len() - k,
    {
        let rev = reverse_function_order && obj.sections[k].kind == SectionKind::Code;
        let ixs = filtered_symbol_indexes(&obj.sections[k].symbols, lowered.as_str(), rev);
        groups.push(CatalogGroup { section_index: Some(k), symbol_indexes: ixs });
        k += 1;
    }
    groups
}

} // verus!
