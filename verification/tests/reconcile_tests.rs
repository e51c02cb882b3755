use wikcli::queries::DefaultResponse;
use wikcli::queries::MoveSinglePage;
use wikcli::queries::PageMutation;
use wikcli::queries::ResponseStatus;
use wikcli::reconcile::reconcile;
use wikcli::reconcile::reconcile_tag_replies;
use wikcli::reconcile::PageTagMutation;
use wikcli::reconcile::TagSinglePage;

fn status(succeeded: bool, code: i32, slug: &str, message: Option<&str>) -> ResponseStatus {
    ResponseStatus {
        error_code: code,
        message: message.map(|m| m.to_string()),
        slug: slug.to_string(),
        succeeded,
    }
}

fn move_reply(st: ResponseStatus) -> Option<MoveSinglePage> {
    Some(MoveSinglePage {
        pages: Some(PageMutation {
            move_: Some(DefaultResponse { response_result: Some(st) }),
        }),
    })
}

fn tag_reply(st: ResponseStatus) -> Option<TagSinglePage> {
    Some(TagSinglePage {
        pages: Some(PageTagMutation {
            update: Some(DefaultResponse { response_result: Some(st) }),
        }),
    })
}

#[test]
fn all_successes_give_clean_report() {
    let replies = vec![
        move_reply(status(true, 0, "ok", None)),
        move_reply(status(true, 0, "ok", None)),
        move_reply(status(true, 0, "ok", None)),
    ];
    let report = reconcile(&replies);
    assert_eq!(report.success_count, 3);
    assert!(report.failures.is_none());
}

#[test]
fn one_application_failure_is_listed() {
    // three requests transport-succeed; one reports failure with code 403
    let replies = vec![
        move_reply(status(true, 0, "a", None)),
        move_reply(status(false, 403, "b", Some("forbidden"))),
        move_reply(status(true, 0, "c", None)),
    ];
    let report = reconcile(&replies);
    assert_eq!(report.success_count, 2);
    let fails = report.failures.unwrap();
    assert_eq!(fails.len(), 1);
    assert_eq!(fails[0].error_code, 403);
    assert_eq!(fails[0].slug, "b");
    assert_eq!(fails[0].message.as_deref(), Some("forbidden"));
    assert!(!fails[0].succeeded);
}

#[test]
fn failures_keep_reply_order_and_values() {
    let replies = vec![
        move_reply(status(false, 500, "x", None)),
        move_reply(status(true, 0, "y", None)),
        move_reply(status(false, 404, "z", Some("gone"))),
    ];
    let report = reconcile(&replies);
    assert_eq!(report.success_count, 1);
    let fails = report.failures.unwrap();
    assert_eq!(fails.len(), 2);
    assert_eq!(fails[0].error_code, 500);
    assert_eq!(fails[1].error_code, 404);
    assert_eq!(fails[1].message.as_deref(), Some("gone"));
}

#[test]
fn statusless_replies_are_dropped_from_both_counts() {
    let replies = vec![
        None,
        Some(MoveSinglePage { pages: None }),
        Some(MoveSinglePage { pages: Some(PageMutation { move_: None }) }),
        Some(MoveSinglePage {
            pages: Some(PageMutation {
                move_: Some(DefaultResponse { response_result: None }),
            }),
        }),
        move_reply(status(true, 0, "ok", None)),
    ];
    let report = reconcile(&replies);
    assert_eq!(report.success_count, 1);
    assert!(report.failures.is_none());
}

#[test]
fn empty_batch_reconciles_clean() {
    let report = reconcile(&vec![]);
    assert_eq!(report.success_count, 0);
    assert!(report.failures.is_none());
}

#[test]
fn tag_report_carries_tag_list_and_safety_tag() {
    let replies = vec![
        tag_reply(status(true, 0, "a", None)),
        tag_reply(status(false, 403, "b", None)),
    ];
    let tags = vec!["safety123".to_string(), "extra".to_string()];
    let report = reconcile_tag_replies(&replies, "safety123".to_string(), tags.clone());
    assert_eq!(report.success_count, 1);
    assert_eq!(report.failures.as_ref().unwrap().len(), 1);
    assert_eq!(report.failures.unwrap()[0].error_code, 403);
    assert_eq!(report.safety_tag, "safety123");
    assert_eq!(report.tags_applied, tags);
}
