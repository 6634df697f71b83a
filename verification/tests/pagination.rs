use shishabot::{
    CommandCountPagination, ComponentOutcome, ModalOutcome, PageContent, PaginationBuilder,
    PaginationKind, PaginationManager, Pages, PAGINATION_MODAL_ID,
};

fn builder_with(entries: usize, per_page: usize) -> PaginationBuilder {
    let mut cmds: Vec<(String, u32)> = Vec::new();
    for i in 0..entries {
        cmds.push((format!("cmd{i}"), i as u32));
    }

    let pages = Pages::new(per_page, entries);
    let kind = PaginationKind::CommandCount(Box::new(CommandCountPagination {
        booted_up: "today".to_string(),
        cmds,
    }));

    PaginationBuilder::new(kind, pages)
}

#[test]
fn single_page_response_registers_no_session() {
    let (message, session) = builder_with(3, 10).start(7);
    assert!(session.is_none());
    assert!(message.components.is_empty());
    assert!(message.by_callback);
}

#[test]
fn multi_page_response_registers_session() {
    let (message, session) = builder_with(30, 10).start(7);
    let session = session.expect("three pages need a session");
    assert_eq!(session.author, 7);
    assert_eq!(session.pages.last_index, 20);
    assert_eq!(message.components.len(), 1);
}

#[test]
fn first_page_holds_first_window() {
    let (message, _) = builder_with(30, 10).start(7);
    match message.page {
        PageContent::CommandCount { booted_up, entries } => {
            assert_eq!(booted_up, "today");
            assert_eq!(entries.len(), 10);
            assert_eq!(entries[0].0, "cmd0");
            assert_eq!(entries[9].0, "cmd9");
        }
    }
}

#[test]
fn author_press_steps_and_rerenders() {
    let mut manager = PaginationManager::new();
    let (_, session) = builder_with(30, 10).start(7);
    manager.insert(100, session.unwrap());

    match manager.handle_component(100, 7, "pagination_step") {
        ComponentOutcome::Update { page, components, defer } => {
            assert!(!defer);
            assert_eq!(components.len(), 1);
            match page {
                PageContent::CommandCount { entries, .. } => {
                    assert_eq!(entries[0].0, "cmd10");
                    assert_eq!(entries.len(), 10);
                }
            }
        }
        other => panic!("expected an update, got {}", outcome_name_component(&other)),
    }
}

#[test]
fn non_author_press_is_rejected_and_changes_nothing() {
    let mut manager = PaginationManager::new();
    let (_, session) = builder_with(30, 10).start(7);
    manager.insert(100, session.unwrap());

    assert!(matches!(
        manager.handle_component(100, 8, "pagination_step"),
        ComponentOutcome::NotAuthor
    ));

    match manager.handle_component(100, 7, "pagination_step") {
        ComponentOutcome::Update { page, .. } => match page {
            PageContent::CommandCount { entries, .. } => {
                assert_eq!(entries[0].0, "cmd10");
            }
        },
        _ => panic!("author press after rejection must still step from the first page"),
    }
}

#[test]
fn timeout_removes_session_and_later_presses_are_ignored() {
    let mut manager = PaginationManager::new();
    let (_, session) = builder_with(30, 10).start(7);
    manager.insert(100, session.unwrap());

    assert!(manager.timeout_remove(100));
    assert!(!manager.timeout_remove(100));

    assert!(matches!(
        manager.handle_component(100, 7, "pagination_step"),
        ComponentOutcome::NoSession
    ));
}

#[test]
fn modal_custom_id_is_the_wire_contract() {
    assert_eq!(PAGINATION_MODAL_ID, "pagination_page");
}

#[test]
fn custom_button_opens_modal() {
    let mut manager = PaginationManager::new();
    let (_, session) = builder_with(30, 10).start(7);
    manager.insert(100, session.unwrap());

    assert!(matches!(
        manager.handle_component(100, 7, "pagination_custom"),
        ComponentOutcome::OpenModal
    ));
}

#[test]
fn unknown_component_is_reported() {
    let mut manager = PaginationManager::new();
    let (_, session) = builder_with(30, 10).start(7);
    manager.insert(100, session.unwrap());

    assert!(matches!(
        manager.handle_component(100, 7, "something_else"),
        ComponentOutcome::Unknown
    ));
}

#[test]
fn modal_jumps_to_parsed_page_clamped() {
    let mut manager = PaginationManager::new();
    let (_, session) = builder_with(30, 10).start(7);
    manager.insert(100, session.unwrap());

    match manager.handle_modal(100, 7, "3") {
        ModalOutcome::Update { page, .. } => match page {
            PageContent::CommandCount { entries, .. } => {
                assert_eq!(entries[0].0, "cmd20");
            }
        },
        _ => panic!("a page number must update the message"),
    }

    match manager.handle_modal(100, 7, "99") {
        ModalOutcome::Update { page, .. } => match page {
            PageContent::CommandCount { entries, .. } => {
                assert_eq!(entries[0].0, "cmd20");
            }
        },
        _ => panic!("an oversized page number clamps to the last page"),
    }

    assert!(matches!(manager.handle_modal(100, 7, "three"), ModalOutcome::BadInput));
    assert!(matches!(manager.handle_modal(100, 8, "2"), ModalOutcome::NotAuthor));
    assert!(matches!(manager.handle_modal(999, 7, "2"), ModalOutcome::NoSession));
}

#[test]
fn start_end_start_restores_the_first_embed() {
    let mut manager = PaginationManager::new();
    let (first_message, session) = builder_with(30, 10).start(7);
    manager.insert(100, session.unwrap());

    manager.handle_component(100, 7, "pagination_start");
    manager.handle_component(100, 7, "pagination_end");

    match manager.handle_component(100, 7, "pagination_start") {
        ComponentOutcome::Update { page, .. } => {
            let (PageContent::CommandCount { entries, .. }, PageContent::CommandCount { entries: first, .. }) =
                (page, first_message.page);
            assert_eq!(entries, first);
        }
        _ => panic!("the third press must re-render the first page"),
    }
}

fn outcome_name_component(outcome: &ComponentOutcome) -> &'static str {
    match outcome {
        ComponentOutcome::NoSession => "NoSession",
        ComponentOutcome::NotAuthor => "NotAuthor",
        ComponentOutcome::OpenModal => "OpenModal",
        ComponentOutcome::Unknown => "Unknown",
        ComponentOutcome::Update { .. } => "Update",
    }
}
