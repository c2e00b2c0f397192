//! The dual-build presenter: from one delivered build result and the shared
//! interaction state, one presentation output per side.
//!
//! A failed build shows its log verbatim.  A successful build with an
//! object model shows the filtered catalog traversal; one whose model is
//! missing — an inconsistent external state — degrades silently to an empty
//! listing.  Both sides share one search string and one ordering flag, so
//! the two listings stay comparable.

use vstd::prelude::*;
use crate::catalog::{catalog_groups, catalog_ok, CatalogGroup};
use crate::model::{BuildResult, BuildStatus, ObjectModel};
use crate::search::lower_seq;
use crate::state::InteractionState;

verus! {

/// What one side of the comparison presents.
#[derive(Debug)]
pub enum SideOutput {
    /// The build failed; its log is shown verbatim.
    Failure { log: String },
    /// The build succeeded; its catalog traversal is shown.
    Listing { groups: Vec<CatalogGroup> },
}

/// What `out` must be for a side whose build ended in `status` and
/// delivered `obj`: the log on failure, the catalog traversal on success,
/// an empty listing when the model is missing despite success.
pub open spec fn side_output_ok(
    out: SideOutput,
    status: BuildStatus,
    obj: Option<ObjectModel>,
    query: Seq<char>,
    rev: bool,
) -> bool {
    if !status.success {
        out matches SideOutput::Failure { log } && log@ == status.log@
    } else {
        match obj {
            Some(o) => out matches SideOutput::Listing { groups } && catalog_ok(
                groups@,
                o,
                query,
                rev,
            ),
            None => out matches SideOutput::Listing { groups } && groups@.len() == 0,
        }
    }
}

/// Presents one side: the failure log when the build failed — whatever the
/// object model holds — else the catalog traversal of the model, or an
/// empty listing when the model is absent.
pub fn present_side(
    status: &BuildStatus,
    obj: Option<&ObjectModel>,
    search: &str,
    reverse_function_order: bool,
) -> (out: SideOutput)
    ensures
        side_output_ok(
            out,
            *status,
            match obj {
                Some(o) => Some(*o),
                None => None,
            },
            lower_seq(search@),
            reverse_function_order,
        ),
{
    if !status.success {
        SideOutput::Failure { log: status.log.clone() }
    } else {
        match obj {
            Some(o) => SideOutput::Listing {
                groups: catalog_groups(o, search, reverse_function_order),
            },
            None => SideOutput::Listing { groups: Vec::new() },
        }
    }
}

/// Presents both sides of a build result against the one shared
/// interaction state: the same search string and ordering flag govern the
/// target and the base listing.
pub fn present(result: &BuildResult, state: &InteractionState) -> (outs: (SideOutput, SideOutput))
    ensures
        side_output_ok(
            outs.0,
            result.first_status,
            result.first_obj,
            lower_seq(state.search@),
            state.reverse_function_order,
        ),
        side_output_ok(
            outs.1,
            result.second_status,
            result.second_obj,
            lower_seq(state.search@),
            state.reverse_function_order,
        ),
{
    let first = present_side(
        &result.first_status,
        result.first_obj.as_ref(),
        state.search.as_str(),
        state.reverse_function_order,
    );
    let second = present_side(
        &result.second_status,
        result.second_obj.as_ref(),
        state.search.as_str(),
        state.reverse_function_order,
    );
    (first, second)
}

} // verus!
