use bloom_bot::pagination::{PageEntry, PageType, Paginator};

#[test]
fn test_update_page_number() {
    let test_data = Paginator {
        page_data: vec![],
        page_count: 4,
        title: "title".to_string(),
    };

    assert_eq!(Paginator::update_page_number(&test_data, 1, -2), 3);
    assert_eq!(Paginator::update_page_number(&test_data, 3, -1), 2);
    assert_eq!(Paginator::update_page_number(&test_data, 3, 2), 1);
    assert_eq!(Paginator::update_page_number(&test_data, 1, 2), 3);
}

fn entries(n: usize) -> Vec<PageEntry> {
    (0..n)
        .map(|i| PageEntry::new(format!("t{i}"), format!("b{i}")))
        .collect()
}

#[test]
fn paginator_splits_in_order() {
    let p = Paginator::new("List", &entries(7), 3);
    assert_eq!(p.get_page_count(), 3);
    assert_eq!(p.get_last_page_number(), 2);
    let sizes: Vec<usize> = p.page_data.iter().map(|pg| pg.entries.len()).collect();
    assert_eq!(sizes, vec![3, 3, 1]);
    assert_eq!(p.get_page(2).unwrap().entries[0].body, "b6");
    assert!(p.get_page(3).is_none());
}

#[test]
fn empty_list_has_one_empty_page() {
    let p = Paginator::new("Empty", &entries(0), 10);
    assert_eq!(p.get_page_count(), 1);
    assert!(p.get_page(0).unwrap().is_empty());
    let e = p.create_page_embed(0, PageType::Standard);
    assert_eq!(e.title, "Empty");
    assert_eq!(e.description, "No entries have been added yet.");
    assert!(e.fields.is_empty());
}

#[test]
fn page_embed_lists_entries_and_counts() {
    let p = Paginator::new("List", &entries(7), 3);
    let e = p.create_page_embed(1, PageType::Alternate);
    assert_eq!(e.description, "Showing entries 4 to 6.");
    assert_eq!(e.fields.len(), 3);
    assert_eq!(e.fields[0], ("t3".to_string(), "b3".to_string()));
    assert_eq!(e.footer, Some("Page 2 of 3".to_string()));
    let missing = p.create_page_embed(9, PageType::Standard);
    assert_eq!(missing.description, "This page does not exist.");
}

#[test]
fn navigation_wraps_around_both_ends() {
    let p = Paginator::new("List", &entries(7), 3);
    assert_eq!(p.update_page_number(2, 1), 0);
    assert_eq!(p.update_page_number(0, -1), 2);
    assert_eq!(p.update_page_number(1, 0), 1);
}

#[test]
fn initial_page_clamps_to_last() {
    let p = Paginator::new("List", &entries(7), 3);
    assert_eq!(p.initial_page(None), 0);
    assert_eq!(p.initial_page(Some(2)), 1);
    assert_eq!(p.initial_page(Some(0)), 0);
    assert_eq!(p.initial_page(Some(40)), 2);
}
