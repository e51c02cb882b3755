use wikcli::catalog::build_working_set;
use wikcli::catalog::working_set;
use wikcli::error::MissingField;
use wikcli::error::WikiError;
use wikcli::queries::ListAllPages;
use wikcli::queries::PageListItem;
use wikcli::queries::PageQuery;

fn page(id: i32, path: &str) -> PageListItem {
    PageListItem { id, path: path.to_string(), tags: None, title: None }
}

#[test]
fn working_set_sorts_and_filters() {
    let raw = vec![
        page(3, "/docs/old/c"),
        page(1, "/docs/old/a"),
        page(9, "/other/x"),
        page(2, "/docs/old/b"),
    ];
    let ws = working_set(&raw, "/docs/old");
    let paths: Vec<&str> = ws.iter().map(|p| p.path.as_str()).collect();
    assert_eq!(paths, vec!["/docs/old/a", "/docs/old/b", "/docs/old/c"]);
    assert!(ws.iter().all(|p| p.path.starts_with("/docs/old")));
    let ids: Vec<i32> = ws.iter().map(|p| p.id).collect();
    assert_eq!(ids, vec![1, 2, 3]);
}

#[test]
fn working_set_empty_prefix_keeps_everything() {
    let raw = vec![page(2, "b"), page(1, "a")];
    let ws = working_set(&raw, "");
    let paths: Vec<&str> = ws.iter().map(|p| p.path.as_str()).collect();
    assert_eq!(paths, vec!["a", "b"]);
}

#[test]
fn working_set_no_match_is_empty() {
    let raw = vec![page(1, "/docs/a"), page(2, "/docs/b")];
    let ws = working_set(&raw, "/elsewhere");
    assert!(ws.is_empty());
}

#[test]
fn build_working_set_counts_raw_listing() {
    let reply = Some(ListAllPages {
        pages: Some(PageQuery {
            list: vec![page(1, "/docs/old/a"), page(2, "/misc"), page(3, "/docs/old/b")],
        }),
    });
    let ls = build_working_set(reply, "/docs/old").unwrap();
    assert_eq!(ls.pages_returned, 3);
    assert_eq!(ls.pages.len(), 2);
    assert_eq!(ls.pages[0].path, "/docs/old/a");
    assert_eq!(ls.pages[1].path, "/docs/old/b");
}

#[test]
fn build_working_set_missing_data_is_contract_error() {
    let r = build_working_set(None, "/docs");
    assert_eq!(r.unwrap_err(), WikiError::BackendContract(MissingField::Data));
}

#[test]
fn build_working_set_missing_pages_is_contract_error() {
    let r = build_working_set(Some(ListAllPages { pages: None }), "/docs");
    assert_eq!(r.unwrap_err(), WikiError::BackendContract(MissingField::Pages));
}

#[test]
fn working_set_keeps_duplicate_paths() {
    let raw = vec![page(2, "/d/x"), page(1, "/d/x")];
    let ws = working_set(&raw, "/d");
    assert_eq!(ws.len(), 2);
    assert!(ws.iter().all(|p| p.path == "/d/x"));
    let mut ids: Vec<i32> = ws.iter().map(|p| p.id).collect();
    ids.sort();
    assert_eq!(ids, vec![1, 2]);
}
