use vstd::prelude::*;

use crate::expressions::{save_text, saved_texts, remove_matching, remove_text};
use crate::locator::ColumnLocator;
use crate::session::{alias_lookup, Session, ViewConfigUpdate};

verus! {

/// The phase of one controller instance.  A fresh instance is `Idle` or
/// `Editing` depending on the locator; a save or delete closes the panel and
/// makes the instance `Closed`, terminal for this instance, while the
/// dispatched apply-and-render work continues independently.
pub enum EditPhase {
    Idle,
    Editing,
    Closed,
}

/// An alias-based replace request, forwarded to the session for translation
/// into a configuration patch.
pub struct ReplaceExpressionRequest {
    pub alias: String,
    pub new_text: String,
}

/// What a save decided.  The controller never awaits the pipeline: it hands
/// the outcome to the host, which runs the asynchronous apply-and-render work
/// and reports that work's failures on its own diagnostics channel.
pub enum SaveOutcome {
    /// A configuration patch to dispatch to the apply-and-render pipeline.
    Dispatched(ViewConfigUpdate),
    /// An alias-based replace request for the session to translate and the
    /// host to dispatch.
    ReplaceRequested(ReplaceExpressionRequest),
    /// Save fired with no expression column selected: a logic defect, to be
    /// reported to internal diagnostics; nothing is dispatched.
    InvalidState,
}

/// What a delete decided.
pub enum DeleteOutcome {
    /// A configuration patch to dispatch to the apply-and-render pipeline.
    Dispatched(ViewConfigUpdate),
    /// The locator's alias has no backing metadata entry: a precondition
    /// violation, to be reported to internal diagnostics; nothing is
    /// dispatched.
    MissingMetadata,
    /// The locator is not an existing expression: the delete is a no-op
    /// apart from closing the panel.
    NotApplicable,
}

/// The edit controller for one expression-editing session: it resolves the
/// selected column's locator, tracks the editor's validity signal, and turns
/// the editor's save and delete callbacks into pipeline work, closing the
/// panel exactly once per save or delete.
pub struct EditController {
    /// The column supplied for this edit session.
    pub locator: ColumnLocator,
    /// The editor's last-reported validity; it gates only the host's
    /// save-button presentation, never the save itself.
    pub is_valid: bool,
    /// How many times the panel-close callback has been asked to fire.
    pub close_count: u64,
    /// Where this instance stands in its lifecycle.
    pub phase: EditPhase,
}

/// The controller after a validity signal: the flag is overwritten
/// unconditionally and nothing else moves.
pub open spec fn validated(controller: EditController, is_valid: bool) -> EditController {
    EditController { is_valid, ..controller }
}

impl EditController {
    /// The phase agrees with the locator: inert exactly when no expression
    /// column is selected, editing only while the editor is shown.
    pub open spec fn wf(&self) -> bool {
        &&& (self.phase is Idle ==> self.locator is NoExpression)
        &&& (self.phase is Editing ==> self.locator.editor_shown())
    }

    /// A fresh controller for the supplied column: validation flag down, no
    /// close fired yet, editing exactly when the editor is shown.
    pub fn new(locator: ColumnLocator) -> (controller: EditController)
        ensures
            controller.locator == locator,
            controller.is_valid == false,
            controller.close_count == 0,
            controller.phase is Editing <==> locator.editor_shown(),
            controller.phase is Idle <==> !locator.editor_shown(),
            controller.wf(),
    {
        let phase = if locator.is_editor_shown() {
            EditPhase::Editing
        } else {
            EditPhase::Idle
        };
        EditController { locator, is_valid: false, close_count: 0, phase }
    }

    /// The editor reported validity: last write wins, with no hysteresis and
    /// no effect on anything but the flag.
    pub fn on_validate(&mut self, is_valid: bool)
        ensures
            *final(self) == validated(*old(self), is_valid),
            final(self).is_valid == is_valid,
    {
        self.is_valid = is_valid;
    }

    /// The editor asked to save `text`.  Branching on the locator: a new
    /// expression yields a patch whose list is the current one with any entry
    /// equal to `text` removed and `text` appended; an existing expression
    /// yields a replace request carrying its alias and `text`; no selected
    /// expression is a logic defect and dispatches nothing.  Whatever the
    /// branch, the panel-close callback fires exactly once, synchronously,
    /// before any dispatched work can have completed.
    pub fn on_save(&mut self, text: String, session: &Session) -> (outcome: SaveOutcome)
        requires
            old(self).close_count < u64::MAX,
        ensures
            final(self).close_count == old(self).close_count + 1,
            final(self).is_valid == old(self).is_valid,
            final(self).locator == old(self).locator,
            final(self).phase is Closed,
            match old(self).locator {
                ColumnLocator::NewExpression => match outcome {
                    SaveOutcome::Dispatched(update) => update.expressions_spec() == Some(
                        saved_texts(session.config.expressions.deep_view(), text@),
                    ),
                    _ => false,
                },
                ColumnLocator::ExistingExpression(alias) => match outcome {
                    SaveOutcome::ReplaceRequested(request) => request.alias@ == alias@
                        && request.new_text@ == text@,
                    _ => false,
                },
                ColumnLocator::NoExpression => outcome is InvalidState,
            },
    {
        let outcome = match &self.locator {
            ColumnLocator::NewExpression => {
                let saved = save_text(&session.config.expressions, text);
                SaveOutcome::Dispatched(ViewConfigUpdate { expressions: Some(saved) })
            },
            ColumnLocator::ExistingExpression(alias) => SaveOutcome::ReplaceRequested(
                ReplaceExpressionRequest { alias: alias.clone(), new_text: text },
            ),
            ColumnLocator::NoExpression => SaveOutcome::InvalidState,
        };
        self.close_count = self.close_count + 1;
        self.phase = EditPhase::Closed;
        outcome
    }

    /// The editor asked to delete.  Only an existing expression deletes: its
    /// alias is resolved through the session's metadata — an alias with no
    /// entry is a precondition violation and dispatches nothing — and the
    /// resolved text's entry is removed from the current list as a patch.
    /// Any other locator is a no-op.  Whatever the branch, the panel-close
    /// callback fires exactly once, synchronously.
    pub fn on_delete(&mut self, session: &Session) -> (outcome: DeleteOutcome)
        requires
            old(self).close_count < u64::MAX,
        ensures
            final(self).close_count == old(self).close_count + 1,
            final(self).is_valid == old(self).is_valid,
            final(self).locator == old(self).locator,
            final(self).phase is Closed,
            match old(self).locator {
                ColumnLocator::ExistingExpression(alias) => match alias_lookup(
                    session.metadata@,
                    alias@,
                ) {
                    Some(old_text) => match outcome {
                        DeleteOutcome::Dispatched(update) => update.expressions_spec() == Some(
                            remove_text(session.config.expressions.deep_view(), old_text),
                        ),
                        _ => false,
                    },
                    None => outcome is MissingMetadata,
                },
                _ => outcome is NotApplicable,
            },
    {
        let outcome = match &self.locator {
            ColumnLocator::ExistingExpression(alias) => {
                match session.get_expression_by_alias(alias) {
                    Some(old_text) => {
                        let removed = remove_matching(&session.config.expressions, &old_text);
                        DeleteOutcome::Dispatched(ViewConfigUpdate { expressions: Some(removed) })
                    },
                    None => DeleteOutcome::MissingMetadata,
                }
            },
            _ => DeleteOutcome::NotApplicable,
        };
        self.close_count = self.close_count + 1;
        self.phase = EditPhase::Closed;
        outcome
    }
}

/// Last write wins for the validation flag: after two validity signals the
/// flag holds the second value, whatever the first was, and the rest of the
/// controller is what a single signal with the second value leaves.
pub proof fn lemma_validate_last_write_wins(
    controller: EditController,
    first: bool,
    second: bool,
)
    ensures
        validated(validated(controller, first), second).is_valid == second,
        validated(validated(controller, first), second) == validated(controller, second),
{
}

} // verus!
