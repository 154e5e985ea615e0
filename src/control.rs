use vstd::prelude::*;
use vstd::string::*;

verus! {

/// Why a restart or restore action failed.
pub enum ActionError {
    /// Extracting the backup failed; the container was not restarted.
    Backup(String),
    /// The restart failed (after a restore: the backup was already applied).
    Restart(String),
}

/// What the action handler does next.
pub enum Control {
    /// Ask the runtime to restart the managed container.
    Restart,
    /// Record the restart time and return to the dashboard.
    Stamp,
    /// Stop and report the error.
    Fail(ActionError),
}

/// After extracting a backup: restart only when the extraction succeeded.
pub fn after_extraction(extraction: Result<(), String>) -> (r: Control)
    ensures
        match extraction {
            Ok(()) => r is Restart,
            Err(e) => r == Control::Fail(ActionError::Backup(e)),
        },
{
    match extraction {
        Ok(()) => Control::Restart,
        Err(e) => Control::Fail(ActionError::Backup(e)),
    }
}

/// After a restart: record its time only when it succeeded.
pub fn after_restart(restart: Result<(), String>) -> (r: Control)
    ensures
        match restart {
            Ok(()) => r is Stamp,
            Err(e) => r == Control::Fail(ActionError::Restart(e)),
        },
{
    match restart {
        Ok(()) => Control::Stamp,
        Err(e) => Control::Fail(ActionError::Restart(e)),
    }
}

/// The steps of restoring a backup.
pub enum RestoreStep {
    Extracting,
    Restarting,
    Done,
    Failed,
}

/// What was reported of the step under way.
pub enum RestoreEvent {
    Extracted(Result<(), String>),
    Restarted(Result<(), String>),
}

/// The restore sequence: extract, then restart, then record the time. An
/// event that does not belong to the current step ends the sequence with
/// no action (`None`).
pub open spec fn restore_next(step: RestoreStep, event: RestoreEvent) -> (RestoreStep, Option<
    Control,
>) {
    match (step, event) {
        (RestoreStep::Extracting, RestoreEvent::Extracted(Ok(()))) => (
            RestoreStep::Restarting,
            Some(Control::Restart),
        ),
        (RestoreStep::Extracting, RestoreEvent::Extracted(Err(e))) => (
            RestoreStep::Failed,
            Some(Control::Fail(ActionError::Backup(e))),
        ),
        (RestoreStep::Restarting, RestoreEvent::Restarted(Ok(()))) => (
            RestoreStep::Done,
            Some(Control::Stamp),
        ),
        (RestoreStep::Restarting, RestoreEvent::Restarted(Err(e))) => (
            RestoreStep::Failed,
            Some(Control::Fail(ActionError::Restart(e))),
        ),
        _ => (RestoreStep::Failed, None),
    }
}

/// One step of the restore sequence.
pub fn restore_step(step: RestoreStep, event: RestoreEvent) -> (r: (RestoreStep, Option<Control>))
    ensures
        r == restore_next(step, event),
{
    match (step, event) {
        (RestoreStep::Extracting, RestoreEvent::Extracted(x)) => {
            let c = after_extraction(x);
            match c {
                Control::Restart => (RestoreStep::Restarting, Some(c)),
                _ => (RestoreStep::Failed, Some(c)),
            }
        },
        (RestoreStep::Restarting, RestoreEvent::Restarted(x)) => {
            let c = after_restart(x);
            match c {
                Control::Stamp => (RestoreStep::Done, Some(c)),
                _ => (RestoreStep::Failed, Some(c)),
            }
        },
        _ => (RestoreStep::Failed, None),
    }
}

/// A failed extraction never leads to a restart, and the sequence then
/// accepts no further event; a failed restart after a good extraction is
/// reported as a restart failure, never as a backup failure.
pub proof fn lemma_restore_ordering(e: String, x: RestoreEvent)
    ensures
        restore_next(RestoreStep::Extracting, RestoreEvent::Extracted(Err(e))).1 != Some(
            Control::Restart,
        ),
        restore_next(RestoreStep::Extracting, RestoreEvent::Extracted(Err(e))).0 is Failed,
        restore_next(RestoreStep::Failed, x).1 is None,
        restore_next(RestoreStep::Restarting, RestoreEvent::Restarted(Err(e))).1 == Some(
            Control::Fail(ActionError::Restart(e)),
        ),
        restore_next(RestoreStep::Extracting, RestoreEvent::Extracted(Err(e))).1 == Some(
            Control::Fail(ActionError::Backup(e)),
        ),
{
}

/// The text shown for an action error.
pub open spec fn action_error_text(e: ActionError) -> Seq<char> {
    match e {
        ActionError::Backup(m) => "Failed restoring backup: "@ + m@,
        ActionError::Restart(m) => "Failed restarting container: "@ + m@,
    }
}

impl ActionError {
    /// The text shown for this error.
    pub fn message(&self) -> (r: String)
        ensures
            r@ == action_error_text(*self),
    {
        let mut out = String::new();
        match self {
            ActionError::Backup(m) => {
                out.append("Failed restoring backup: ");
                out.append(m.as_str());
            },
            ActionError::Restart(m) => {
                out.append("Failed restarting container: ");
                out.append(m.as_str());
            },
        }
        out
    }
}

} // verus!
