//! The interaction state machine: hover, selection, search, ordering, and
//! the view transitions that user events cause.
//!
//! One instance of [`InteractionState`] is the single source of truth shared
//! by both panes of a dual-build comparison.  The renderer produces
//! [`Event`] values and never mutates the state directly; every mutation
//! goes through [`InteractionState::apply`].

use vstd::prelude::*;
use crate::model::SectionKind;
use crate::search::str_eq;

verus! {

/// The comparison view the application currently shows.
#[derive(Clone, Copy, Debug, PartialEq, Eq, Structural)]
pub enum ViewKind {
    SymbolDiff,
    FunctionDiff,
    DataDiff,
}

/// Identifies a symbol within one build's object model; a navigation
/// target, never a mutable entity.
#[derive(Debug)]
pub struct SymbolReference {
    pub symbol_name: String,
    pub section_name: String,
}

impl Clone for SymbolReference {
    fn clone(&self) -> (r: Self)
        ensures
            r == *self,
    {
        SymbolReference {
            symbol_name: self.symbol_name.clone(),
            section_name: self.section_name.clone(),
        }
    }
}

/// The section owning an activated symbol, as far as activation needs it.
#[derive(Debug)]
pub struct SectionInfo {
    pub name: String,
    pub kind: SectionKind,
}

/// One user interaction, produced by the renderer.
#[derive(Debug)]
pub enum Event {
    /// The pointer rests on a symbol.
    Hover { symbol_name: String },
    /// A symbol is clicked; `section` is `None` for a common symbol.
    Activate { symbol_name: String, section: Option<SectionInfo> },
    /// The shared search text was edited.
    SearchChanged { search: String },
    /// The code-section ordering flag was toggled.
    ToggleReverseOrder,
}

/// All mutable state of the comparison views.
#[derive(Debug)]
pub struct InteractionState {
    /// Transient, hover-driven.
    pub highlighted_symbol: Option<String>,
    /// Sticky, click-driven.
    pub selected_symbol: Option<SymbolReference>,
    pub current_view: ViewKind,
    /// One search string shared by both panes.
    pub search: String,
    /// One ordering flag shared by both panes.
    pub reverse_function_order: bool,
}

/// The transition function of the state machine: the state that applying
/// `e` to `s` yields.
pub open spec fn step(s: InteractionState, e: Event) -> InteractionState {
    match e {
        Event::Hover { symbol_name } => InteractionState {
            highlighted_symbol: Some(symbol_name),
            ..s
        },
        Event::Activate { symbol_name, section } => match section {
            Some(sec) => if sec.kind == SectionKind::Code {
                InteractionState {
                    selected_symbol: Some(
                        SymbolReference { symbol_name, section_name: sec.name },
                    ),
                    current_view: ViewKind::FunctionDiff,
                    ..s
                }
            } else if sec.kind == SectionKind::Data {
                InteractionState {
                    selected_symbol: Some(
                        SymbolReference { symbol_name: sec.name, section_name: sec.name },
                    ),
                    current_view: ViewKind::DataDiff,
                    ..s
                }
            } else {
                s
            },
            None => s,
        },
        Event::SearchChanged { search } => InteractionState { search, ..s },
        Event::ToggleReverseOrder => InteractionState {
            reverse_function_order: !s.reverse_function_order,
            ..s
        },
    }
}

/// Whether `e` causes a view transition.
pub open spec fn causes_transition(e: Event) -> bool {
    e matches Event::Activate { section: Some(sec), .. } && (sec.kind == SectionKind::Code
        || sec.kind == SectionKind::Data)
}

impl InteractionState {
    /// The initial state: symbol view, nothing highlighted or selected,
    /// empty search, declaration order.
    pub fn new() -> (s: InteractionState)
        ensures
            s.highlighted_symbol is None,
            s.selected_symbol is None,
            s.current_view == ViewKind::SymbolDiff,
            s.search@ == Seq::<char>::empty(),
            !s.reverse_function_order,
    {
        InteractionState {
            highlighted_symbol: None,
            selected_symbol: None,
            current_view: ViewKind::SymbolDiff,
            search: String::new(),
            reverse_function_order: false,
        }
    }

    /// Applies one interaction event.  Returns whether the event caused a
    /// view transition, in which case the caller reads the navigation
    /// target from `current_view` and `selected_symbol`.
    ///
    /// Hovering only records the highlighted name and never clears a prior
    /// selection.  Activating a symbol of a code section selects that
    /// symbol and switches to the function view; activating one of a data
    /// section selects the owning section — under the section's name, for
    /// both fields — and switches to the data view.  Activating anything
    /// else is a no-op.
    pub fn apply(&mut self, event: Event) -> (transitioned: bool)
        ensures
            *final(self) == step(*old(self), event),
            transitioned == causes_transition(event),
    {
        match event {
            Event::Hover { symbol_name } => {
                self.highlighted_symbol = Some(symbol_name);
                false
            },
            Event::Activate { symbol_name, section } => match section {
                Some(sec) => {
                    if sec.kind == SectionKind::Code {
                        self.selected_symbol = Some(
                            SymbolReference { symbol_name, section_name: sec.name },
                        );
                        self.current_view = ViewKind::FunctionDiff;
                        true
                    } else if sec.kind == SectionKind::Data {
                        let name_again = sec.name.clone();
                        self.selected_symbol = Some(
                            SymbolReference { symbol_name: name_again, section_name: sec.name },
                        );
                        self.current_view = ViewKind::DataDiff;
                        true
                    } else {
                        false
                    }
                },
                None => false,
            },
            Event::SearchChanged { search } => {
                self.search = search;
                false
            },
            Event::ToggleReverseOrder => {
                self.reverse_function_order = !self.reverse_function_order;
                false
            },
        }
    }

    /// Whether the symbol with this name is the hover-highlighted one.
    pub fn is_highlighted(&self, symbol_name: &str) -> (r: bool)
        ensures
            r == (self.highlighted_symbol matches Some(h) && h@ == symbol_name@),
    {
        match &self.highlighted_symbol {
            Some(h) => str_eq(h.as_str(), symbol_name),
            None => false,
        }
    }
}

} // verus!
