use symbol_diff::model::{BuildResult, BuildStatus, ObjectModel, Section, SectionKind, Symbol};
use symbol_diff::presenter::{present, present_side, SideOutput};
use symbol_diff::state::{Event, InteractionState};

fn sym(name: &str) -> Symbol {
    Symbol {
        name: name.to_string(),
        demangled_name: None,
        address: 0,
        size: 0,
        size_known: true,
        common: false,
        global: true,
        local: false,
        weak: false,
        match_percent: None,
    }
}

fn model() -> ObjectModel {
    ObjectModel {
        sections: vec![Section {
            name: "text".to_string(),
            address: 0,
            size: 0,
            kind: SectionKind::Code,
            symbols: vec![sym("alpha"), sym("beta")],
        }],
        common: vec![],
    }
}

fn status(success: bool, log: &str) -> BuildStatus {
    BuildStatus { success, log: log.to_string() }
}

#[test]
fn failed_build_shows_its_log_verbatim() {
    // The log wins even when an object model is present.
    let result = BuildResult {
        first_status: status(false, "err"),
        second_status: status(true, ""),
        first_obj: Some(model()),
        second_obj: Some(model()),
    };
    let state = InteractionState::new();
    let (first, _second) = present(&result, &state);
    match first {
        SideOutput::Failure { log } => assert_eq!(log, "err"),
        SideOutput::Listing { .. } => panic!("expected the failure log"),
    }
}

#[test]
fn missing_model_under_success_yields_empty_listing() {
    let result = BuildResult {
        first_status: status(true, ""),
        second_status: status(true, ""),
        first_obj: None,
        second_obj: Some(model()),
    };
    let state = InteractionState::new();
    let (first, _second) = present(&result, &state);
    match first {
        SideOutput::Listing { groups } => assert!(groups.is_empty()),
        SideOutput::Failure { .. } => panic!("expected an empty listing"),
    }
}

#[test]
fn successful_build_shows_its_catalog() {
    let state = InteractionState::new();
    let obj = model();
    let out = present_side(&status(true, ""), Some(&obj), &state.search, false);
    match out {
        SideOutput::Listing { groups } => {
            assert_eq!(groups.len(), 1);
            assert_eq!(groups[0].section_index, Some(0));
            assert_eq!(groups[0].symbol_indexes, vec![0, 1]);
        },
        SideOutput::Failure { .. } => panic!("expected a listing"),
    }
}

#[test]
fn both_sides_share_search_and_ordering() {
    let mut state = InteractionState::new();
    state.apply(Event::SearchChanged { search: "beta".to_string() });
    let result = BuildResult {
        first_status: status(true, ""),
        second_status: status(true, ""),
        first_obj: Some(model()),
        second_obj: Some(model()),
    };
    let (first, second) = present(&result, &state);
    for out in [first, second] {
        match out {
            SideOutput::Listing { groups } => {
                assert_eq!(groups[0].symbol_indexes, vec![1]);
            },
            SideOutput::Failure { .. } => panic!("expected a listing"),
        }
    }
}
