use shishabot::{ButtonStyle, ComponentKind, Pages};

#[test]
fn new_with_no_entries_has_single_page() {
    let pages = Pages::new(10, 0);
    assert_eq!(pages.index, 0);
    assert_eq!(pages.last_index, 0);
    assert_eq!(pages.per_page, 10);
    assert!(pages.default_components().is_empty());
}

#[test]
fn new_with_exact_multiple_ends_on_previous_page() {
    let pages = Pages::new(10, 10);
    assert_eq!(pages.last_index, 0);

    let pages = Pages::new(10, 11);
    assert_eq!(pages.last_index, 10);
}

#[test]
fn page_numbers() {
    let mut pages = Pages::new(10, 35);
    assert_eq!(pages.curr_page(), 1);
    assert_eq!(pages.last_page(), 4);

    pages.step();
    assert_eq!(pages.index, 10);
    assert_eq!(pages.curr_page(), 2);
}

#[test]
fn transitions_stay_on_page_boundaries() {
    let mut pages = Pages::new(7, 30);

    pages.step();
    assert_eq!(pages.index, 7);
    pages.step();
    assert_eq!(pages.index, 14);
    pages.jump_end();
    assert_eq!(pages.index, 28);
    pages.step();
    assert_eq!(pages.index, 28);
    pages.step_back();
    assert_eq!(pages.index, 21);
    pages.jump_start();
    assert_eq!(pages.index, 0);
    pages.step_back();
    assert_eq!(pages.index, 0);

    assert_eq!(pages.index % pages.per_page, 0);
    assert!(pages.index <= pages.last_index);
}

#[test]
fn start_end_start_restores_first_page() {
    let mut pages = Pages::new(10, 35);

    pages.jump_start();
    let after_first = pages.index;
    pages.jump_end();
    assert_eq!(pages.index, 30);
    pages.jump_start();
    assert_eq!(pages.index, after_first);
    assert_eq!(pages.index, 0);
}

#[test]
fn set_page_clamps_into_range() {
    let mut pages = Pages::new(10, 35);

    pages.set_page(3);
    assert_eq!(pages.index, 20);

    pages.set_page(0);
    assert_eq!(pages.index, 0);

    pages.set_page(99);
    assert_eq!(pages.index, 30);
}

#[test]
fn default_components_enable_buttons_by_position() {
    let pages = Pages::new(10, 35);
    let rows = pages.default_components();
    assert_eq!(rows.len(), 1);
    let row = &rows[0].components;
    assert_eq!(row.len(), 5);

    assert_eq!(row[0].custom_id, "pagination_start");
    assert_eq!(row[1].custom_id, "pagination_back");
    assert_eq!(row[2].custom_id, "pagination_custom");
    assert_eq!(row[3].custom_id, "pagination_step");
    assert_eq!(row[4].custom_id, "pagination_end");

    assert!(row[0].disabled);
    assert!(row[1].disabled);
    assert!(!row[2].disabled);
    assert!(!row[3].disabled);
    assert!(!row[4].disabled);

    let mut last = Pages::new(10, 35);
    last.jump_end();
    let rows = last.default_components();
    let row = &rows[0].components;
    assert!(!row[0].disabled);
    assert!(!row[1].disabled);
    assert!(!row[2].disabled);
    assert!(row[3].disabled);
    assert!(row[4].disabled);
}

#[test]
fn profile_components_mark_active_level() {
    let mut pages = Pages::new(1, 3);
    pages.step();

    let rows = pages.profile_components();
    assert_eq!(rows.len(), 1);
    let row = &rows[0].components;
    assert_eq!(row.len(), 3);
    assert_eq!(row[0].custom_id, "profile_compact");
    assert_eq!(row[1].custom_id, "profile_medium");
    assert_eq!(row[2].custom_id, "profile_full");
    assert!(!row[0].disabled);
    assert!(row[1].disabled);
    assert!(!row[2].disabled);
    assert!(matches!(row[0].style, ButtonStyle::Success));
    assert_eq!(row[0].label.as_deref(), Some("Compact"));
}

#[test]
fn map_search_components_omit_end_and_custom() {
    let pages = Pages::new(10, 35);
    let rows = pages.components(ComponentKind::MapSearch);
    assert_eq!(rows.len(), 1);
    let row = &rows[0].components;
    assert_eq!(row.len(), 3);
    assert_eq!(row[0].custom_id, "pagination_start");
    assert_eq!(row[1].custom_id, "pagination_back");
    assert_eq!(row[2].custom_id, "pagination_step");

    let empty = Pages::new(10, 5);
    assert!(empty.components(ComponentKind::MapSearch).is_empty());
}
