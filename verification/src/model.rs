//! The read-only object model one build delivers: sections, symbols, and the
//! outcome of the build that produced them.

use vstd::prelude::*;
use crate::classify::MatchPercent;

verus! {

/// What a section holds; decides where activating one of its symbols leads.
#[derive(Clone, Copy, Debug, PartialEq, Eq, Structural)]
pub enum SectionKind {
    Code,
    Data,
    Other,
}

/// One symbol of an object model.
#[derive(Debug)]
pub struct Symbol {
    /// Raw (mangled) name, unique within the owning section or common set.
    pub name: String,
    /// Demangled form of the name, where one exists.
    pub demangled_name: Option<String>,
    pub address: u64,
    pub size: u64,
    /// False when the size was inferred rather than read from the artifact.
    pub size_known: bool,
    /// Linkage flags; `common` excludes `global` and `local`.
    pub common: bool,
    pub global: bool,
    pub local: bool,
    /// Weak linkage, an independent modifier.
    pub weak: bool,
    /// Externally computed similarity score; absent when none was computed.
    pub match_percent: Option<MatchPercent>,
}

/// One section of an object model, with its symbols in declaration order.
#[derive(Debug)]
pub struct Section {
    /// Unique within the owning object model.
    pub name: String,
    pub address: u64,
    pub size: u64,
    pub kind: SectionKind,
    pub symbols: Vec<Symbol>,
}

/// The parsed snapshot of one compiled build artifact.  The core only ever
/// reads it.
#[derive(Debug)]
pub struct ObjectModel {
    /// Sections in declaration order.
    pub sections: Vec<Section>,
    /// Symbols bound to no section.
    pub common: Vec<Symbol>,
}

/// Outcome of one build; `log` is populated only on failure.
#[derive(Debug)]
pub struct BuildStatus {
    pub success: bool,
    pub log: String,
}

/// What the build runner delivers: one status and one optional object model
/// per side.  A missing model under a successful status is an inconsistent
/// external state the core tolerates.
#[derive(Debug)]
pub struct BuildResult {
    pub first_status: BuildStatus,
    pub second_status: BuildStatus,
    pub first_obj: Option<ObjectModel>,
    pub second_obj: Option<ObjectModel>,
}

} // verus!
