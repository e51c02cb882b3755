use wikcli::dispatch::build_move_ops;
use wikcli::dispatch::build_tag_ops;
use wikcli::dispatch::classify_outcomes;
use wikcli::dispatch::tags_to_apply;
use wikcli::error::BatchPhase;
use wikcli::error::WikiError;
use wikcli::queries::PageListItem;
use wikcli::strutil::replace_prefix;

fn page(id: i32, path: &str, title: Option<&str>) -> PageListItem {
    PageListItem { id, path: path.to_string(), tags: None, title: title.map(|t| t.to_string()) }
}

#[test]
fn move_ops_substitute_prefix() {
    let pages = vec![page(1, "/docs/old/a", None), page(2, "/docs/old/b/c", None)];
    let ops = build_move_ops(&pages, "/docs/old", "/docs/new");
    assert_eq!(ops.len(), 2);
    assert_eq!(ops[0].id, 1);
    assert_eq!(ops[0].destination_path, "/docs/new/a");
    assert_eq!(ops[1].id, 2);
    assert_eq!(ops[1].destination_path, "/docs/new/b/c");
}

#[test]
fn move_ops_keep_remainder_exactly() {
    let pages = vec![page(7, "/docs/old", None)];
    let ops = build_move_ops(&pages, "/docs/old", "/docs/new");
    assert_eq!(ops[0].destination_path, "/docs/new");
}

#[test]
fn replace_prefix_round_trips() {
    let moved = replace_prefix("/docs/old/a/b", "/docs/old", "/docs/new");
    assert_eq!(moved, "/docs/new/a/b");
    let back = replace_prefix(&moved, "/docs/new", "/docs/old");
    assert_eq!(back, "/docs/old/a/b");
}

#[test]
fn all_transport_successes_proceed() {
    let outcomes = vec![true, true, true];
    assert!(classify_outcomes(&outcomes, BatchPhase::Transport).is_ok());
}

#[test]
fn no_outcomes_proceed() {
    let outcomes: Vec<bool> = vec![];
    assert!(classify_outcomes(&outcomes, BatchPhase::Transport).is_ok());
}

#[test]
fn all_transport_failures_are_fatal() {
    let outcomes = vec![false, false];
    assert_eq!(
        classify_outcomes(&outcomes, BatchPhase::Transport).unwrap_err(),
        WikiError::AllRequestsFailed(BatchPhase::Transport)
    );
}

#[test]
fn mixed_transport_failures_flag_partial_batch() {
    // five dispatched requests, two fail at the network layer
    let outcomes = vec![true, false, true, true, false];
    assert_eq!(
        classify_outcomes(&outcomes, BatchPhase::Transport).unwrap_err(),
        WikiError::PartialRequestFailure(BatchPhase::Transport)
    );
}

#[test]
fn decode_failures_carry_their_phase() {
    let outcomes = vec![false, true];
    assert_eq!(
        classify_outcomes(&outcomes, BatchPhase::Decode).unwrap_err(),
        WikiError::PartialRequestFailure(BatchPhase::Decode)
    );
    let outcomes = vec![false];
    assert_eq!(
        classify_outcomes(&outcomes, BatchPhase::Decode).unwrap_err(),
        WikiError::AllRequestsFailed(BatchPhase::Decode)
    );
}

#[test]
fn tag_ops_are_the_flat_cross_product() {
    let pages = vec![page(1, "/a", Some("A")), page(2, "/b", None)];
    let tags = vec!["safety".to_string(), "extra".to_string()];
    let ops = build_tag_ops(&pages, &tags);
    assert_eq!(ops.len(), 4);
    assert_eq!((ops[0].id, ops[0].tag.as_str(), ops[0].title.as_str()), (1, "safety", "A"));
    assert_eq!((ops[1].id, ops[1].tag.as_str(), ops[1].title.as_str()), (1, "extra", "A"));
    assert_eq!((ops[2].id, ops[2].tag.as_str(), ops[2].title.as_str()), (2, "safety", ""));
    assert_eq!((ops[3].id, ops[3].tag.as_str(), ops[3].title.as_str()), (2, "extra", ""));
}

#[test]
fn tags_to_apply_puts_safety_tag_first() {
    let safety = "tag123".to_string();
    let extra = vec!["one".to_string(), "two".to_string()];
    let all = tags_to_apply(&safety, &extra);
    assert_eq!(all, vec!["tag123".to_string(), "one".to_string(), "two".to_string()]);
}
