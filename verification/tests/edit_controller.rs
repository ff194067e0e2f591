use expr_edit::controller::{DeleteOutcome, EditController, EditPhase, SaveOutcome};
use expr_edit::locator::ColumnLocator;
use expr_edit::session::{MetadataEntry, Session, ViewConfig, ViewConfigUpdate};

fn make_session(expressions: Vec<&str>, metadata: Vec<(&str, &str)>) -> Session {
    Session::new(
        ViewConfig {
            expressions: expressions.into_iter().map(String::from).collect(),
        },
        metadata
            .into_iter()
            .map(|(alias, text)| MetadataEntry {
                alias: alias.to_string(),
                text: text.to_string(),
            })
            .collect(),
    )
}

fn dispatched_list(outcome: SaveOutcome) -> Vec<String> {
    match outcome {
        SaveOutcome::Dispatched(update) => update.expressions.expect("patch sets the list"),
        _ => panic!("expected a dispatched patch"),
    }
}

fn deleted_list(outcome: DeleteOutcome) -> Vec<String> {
    match outcome {
        DeleteOutcome::Dispatched(update) => update.expressions.expect("patch sets the list"),
        _ => panic!("expected a dispatched patch"),
    }
}

#[test]
fn editor_shown_only_for_new_and_existing() {
    assert!(!ColumnLocator::NoExpression.is_editor_shown());
    assert!(ColumnLocator::NewExpression.is_editor_shown());
    assert!(ColumnLocator::ExistingExpression("alias1".to_string()).is_editor_shown());
}

#[test]
fn editor_alias_prefill() {
    assert_eq!(ColumnLocator::NoExpression.editor_alias(), None);
    assert_eq!(ColumnLocator::NewExpression.editor_alias(), None);
    assert_eq!(
        ColumnLocator::ExistingExpression("alias1".to_string()).editor_alias(),
        Some("alias1".to_string())
    );
}

#[test]
fn fresh_controller_state() {
    let editing = EditController::new(ColumnLocator::NewExpression);
    assert!(!editing.is_valid);
    assert_eq!(editing.close_count, 0);
    assert!(matches!(editing.phase, EditPhase::Editing));

    let idle = EditController::new(ColumnLocator::NoExpression);
    assert!(matches!(idle.phase, EditPhase::Idle));
}

#[test]
fn save_new_appends_to_list() {
    let session = make_session(vec!["B"], vec![]);
    let mut controller = EditController::new(ColumnLocator::NewExpression);
    let outcome = controller.on_save("A".to_string(), &session);
    assert_eq!(dispatched_list(outcome), vec!["B".to_string(), "A".to_string()]);
    assert!(matches!(controller.phase, EditPhase::Closed));
}

#[test]
fn save_new_dedups_before_append() {
    let session = make_session(vec!["B", "A"], vec![]);
    let mut controller = EditController::new(ColumnLocator::NewExpression);
    let outcome = controller.on_save("A".to_string(), &session);
    assert_eq!(dispatched_list(outcome), vec!["B".to_string(), "A".to_string()]);
}

#[test]
fn save_twice_same_text_is_idempotent() {
    let mut session = make_session(vec!["B"], vec![]);
    let mut first = EditController::new(ColumnLocator::NewExpression);
    let outcome = first.on_save("A".to_string(), &session);
    let SaveOutcome::Dispatched(update) = outcome else {
        panic!("expected a dispatched patch");
    };
    session.apply_update(update);
    let once = session.get_view_config().expressions.clone();

    let mut second = EditController::new(ColumnLocator::NewExpression);
    let outcome = second.on_save("A".to_string(), &session);
    assert_eq!(dispatched_list(outcome), once);
    assert_eq!(once, vec!["B".to_string(), "A".to_string()]);
}

#[test]
fn save_new_into_empty_list() {
    let session = make_session(vec![], vec![]);
    let mut controller = EditController::new(ColumnLocator::NewExpression);
    let outcome = controller.on_save("A".to_string(), &session);
    assert_eq!(dispatched_list(outcome), vec!["A".to_string()]);
}

#[test]
fn save_existing_forwards_replace_request() {
    let session = make_session(vec!["X", "Y"], vec![("alias1", "X")]);
    let mut controller =
        EditController::new(ColumnLocator::ExistingExpression("alias1".to_string()));
    let outcome = controller.on_save("Z".to_string(), &session);
    let SaveOutcome::ReplaceRequested(request) = outcome else {
        panic!("expected a replace request");
    };
    assert_eq!(request.alias, "alias1".to_string());
    assert_eq!(request.new_text, "Z".to_string());
}

#[test]
fn replace_update_keeps_length_and_order() {
    let session = make_session(vec!["X", "Y"], vec![("alias1", "X")]);
    let update = session
        .create_replace_expression_update(&"alias1".to_string(), &"Z".to_string())
        .expect("alias has metadata");
    let list = update.expressions.expect("patch sets the list");
    assert_eq!(list, vec!["Z".to_string(), "Y".to_string()]);
    assert_eq!(list.len(), 2);
}

#[test]
fn replace_update_unknown_alias_yields_nothing() {
    let session = make_session(vec!["X"], vec![("alias1", "X")]);
    let update = session.create_replace_expression_update(&"other".to_string(), &"Z".to_string());
    assert!(update.is_none());
}

#[test]
fn save_without_selection_is_a_logic_error() {
    let session = make_session(vec!["X"], vec![]);
    let mut controller = EditController::new(ColumnLocator::NoExpression);
    let outcome = controller.on_save("A".to_string(), &session);
    assert!(matches!(outcome, SaveOutcome::InvalidState));
    assert_eq!(controller.close_count, 1);
}

#[test]
fn delete_removes_aliased_entry() {
    let session = make_session(vec!["X", "Y"], vec![("alias1", "X")]);
    let mut controller =
        EditController::new(ColumnLocator::ExistingExpression("alias1".to_string()));
    let outcome = controller.on_delete(&session);
    assert_eq!(deleted_list(outcome), vec!["Y".to_string()]);
    assert!(matches!(controller.phase, EditPhase::Closed));
}

#[test]
fn delete_missing_metadata_dispatches_nothing_and_still_closes() {
    let session = make_session(vec!["X", "Y"], vec![("alias1", "X")]);
    let mut controller =
        EditController::new(ColumnLocator::ExistingExpression("aliasMissing".to_string()));
    let outcome = controller.on_delete(&session);
    assert!(matches!(outcome, DeleteOutcome::MissingMetadata));
    assert_eq!(controller.close_count, 1);
}

#[test]
fn delete_without_existing_expression_is_noop_but_closes() {
    let session = make_session(vec!["X"], vec![]);
    let mut controller = EditController::new(ColumnLocator::NewExpression);
    let outcome = controller.on_delete(&session);
    assert!(matches!(outcome, DeleteOutcome::NotApplicable));
    assert_eq!(controller.close_count, 1);
}

#[test]
fn validate_last_write_wins() {
    let mut controller = EditController::new(ColumnLocator::NewExpression);
    controller.on_validate(true);
    controller.on_validate(false);
    assert!(!controller.is_valid);
    controller.on_validate(false);
    controller.on_validate(true);
    assert!(controller.is_valid);
}

#[test]
fn close_fires_exactly_once_per_save_or_delete() {
    let session = make_session(vec!["X"], vec![("alias1", "X")]);
    let mut controller =
        EditController::new(ColumnLocator::ExistingExpression("alias1".to_string()));
    assert_eq!(controller.close_count, 0);
    controller.on_save("Z".to_string(), &session);
    assert_eq!(controller.close_count, 1);
    controller.on_delete(&session);
    assert_eq!(controller.close_count, 2);
    controller.on_validate(true);
    assert_eq!(controller.close_count, 2);

    let mut bad = EditController::new(ColumnLocator::NoExpression);
    bad.on_save("Z".to_string(), &session);
    bad.on_delete(&session);
    assert_eq!(bad.close_count, 2);
}

#[test]
fn metadata_lookup_finds_first_entry() {
    let session = make_session(
        vec!["X"],
        vec![("alias1", "X"), ("alias2", "Y"), ("alias1", "Z")],
    );
    assert_eq!(
        session.get_expression_by_alias(&"alias1".to_string()),
        Some("X".to_string())
    );
    assert_eq!(
        session.get_expression_by_alias(&"alias2".to_string()),
        Some("Y".to_string())
    );
    assert_eq!(session.get_expression_by_alias(&"alias3".to_string()), None);
}

#[test]
fn apply_update_overwrites_only_set_fields() {
    let mut session = make_session(vec!["X"], vec![("alias1", "X")]);
    session.apply_update(ViewConfigUpdate::empty());
    assert_eq!(session.get_view_config().expressions, vec!["X".to_string()]);

    session.apply_update(ViewConfigUpdate {
        expressions: Some(vec!["Y".to_string()]),
    });
    assert_eq!(session.get_view_config().expressions, vec!["Y".to_string()]);
}
