use vstd::prelude::*;

verus! {

/// Name of the `H2O` custom resource definition.
pub open spec fn schema_name() -> Seq<char> {
    "h2os.h2o.ai"@
}

/// One condition of the schema's status, as the platform reports it.
pub struct SchemaCondition {
    pub type_: String,
    pub status: String,
}

/// The kind of a change notification.
#[derive(PartialEq, Eq, Structural, Clone, Copy, Debug)]
pub enum WatchEventKind {
    Added,
    Modified,
    Deleted,
    Bookmark,
    Error,
}

/// A change notification for the schema: its kind and the conditions of the
/// schema's status, when the status reports any.
pub struct SchemaEvent {
    pub kind: WatchEventKind,
    pub conditions: Option<Vec<SchemaCondition>>,
}

/// The first condition of type `NamesAccepted` says `True`.
pub open spec fn names_accepted(conds: Seq<SchemaCondition>) -> bool {
    exists|i: int|
        0 <= i < conds.len() && conds[i].type_@ == "NamesAccepted"@ && conds[i].status@ == "True"@
            && forall|j: int| 0 <= j < i ==> (#[trigger] conds[j]).type_@ != "NamesAccepted"@
}

/// The notification reports that the platform accepted the schema's names.
pub open spec fn event_accepts_names(e: SchemaEvent) -> bool {
    e.kind == WatchEventKind::Modified && match e.conditions {
        Some(c) => names_accepted(c@),
        None => false,
    }
}

/// Where the installation of the schema stands.
#[derive(PartialEq, Eq, Structural, Clone, Copy, Debug)]
pub enum SchemaInstallationState {
    Absent,
    Installing,
    NamesAccepted,
    TimedOut,
    Failed,
}

/// What happens to the schema's installation.
#[derive(PartialEq, Eq, Structural, Clone, Copy, Debug)]
pub enum InstallationEvent {
    /// Registration of the schema was requested.
    InstallRequested,
    /// A notification reported that the schema's names were accepted.
    NamesAcceptedObserved,
    /// The deadline passed without such a notification.
    DeadlinePassed,
    /// The transport failed.
    Fault,
}

/// The installation lifecycle: a request moves an absent schema to installing;
/// an installing schema becomes accepted on the awaited notification, timed out
/// at the deadline, failed on a fault; other events change nothing.
pub open spec fn next_installation_state(
    s: SchemaInstallationState,
    e: InstallationEvent,
) -> SchemaInstallationState {
    match (s, e) {
        (SchemaInstallationState::Absent, InstallationEvent::InstallRequested) => {
            SchemaInstallationState::Installing
        },
        (SchemaInstallationState::Absent, InstallationEvent::Fault) => SchemaInstallationState::Failed,
        (SchemaInstallationState::Installing, InstallationEvent::NamesAcceptedObserved) => {
            SchemaInstallationState::NamesAccepted
        },
        (SchemaInstallationState::Installing, InstallationEvent::DeadlinePassed) => {
            SchemaInstallationState::TimedOut
        },
        (SchemaInstallationState::Installing, InstallationEvent::Fault) => {
            SchemaInstallationState::Failed
        },
        _ => s,
    }
}

/// The installation state after `event`.
pub fn installation_step(state: SchemaInstallationState, event: InstallationEvent) -> (r:
    SchemaInstallationState)
    ensures
        r == next_installation_state(state, event),
{
    match (state, event) {
        (SchemaInstallationState::Absent, InstallationEvent::InstallRequested) => {
            SchemaInstallationState::Installing
        },
        (SchemaInstallationState::Absent, InstallationEvent::Fault) => SchemaInstallationState::Failed,
        (SchemaInstallationState::Installing, InstallationEvent::NamesAcceptedObserved) => {
            SchemaInstallationState::NamesAccepted
        },
        (SchemaInstallationState::Installing, InstallationEvent::DeadlinePassed) => {
            SchemaInstallationState::TimedOut
        },
        (SchemaInstallationState::Installing, InstallationEvent::Fault) => {
            SchemaInstallationState::Failed
        },
        _ => state,
    }
}

/// The name of the schema.
pub fn schema_resource_name() -> (r: String)
    ensures
        r@ == schema_name(),
{
    String::from_str("h2os.h2o.ai")
}

/// The field selector that narrows a subscription to the schema itself.
pub fn schema_field_selector() -> (r: String)
    ensures
        r@ == "metadata.name="@ + schema_name(),
{
    String::from_str("metadata.name=").concat("h2os.h2o.ai")
}

/// Whether the conditions say that the schema's names were accepted.
pub fn conditions_accept_names(conds: &Vec<SchemaCondition>) -> (r: bool)
    ensures
        r == names_accepted(conds@),
{
    let wanted = String::from_str("NamesAccepted");
    let yes = String::from_str("True");
    let mut i: usize = 0;
    while i < conds.len()
        invariant
            i <= conds@.len(),
            wanted@ == "NamesAccepted"@,
            yes@ == "True"@,
            forall|j: int| 0 <= j < i ==> (#[trigger] conds@[j]).type_@ != "NamesAccepted"@,
        decreases conds@.len() - i,
    {
        if conds[i].type_ == wanted {
            let ok = conds[i].status == yes;
            proof {
                if !ok && names_accepted(conds@) {
                    let k = choose|k: int|
                        0 <= k < conds@.len() && conds@[k].type_@ == "NamesAccepted"@
                            && conds@[k].status@ == "True"@ && forall|j: int|
                            0 <= j < k ==> (#[trigger] conds@[j]).type_@ != "NamesAccepted"@;
                    if k < i {
                    } else if k > i {
                        assert(conds@[i as int].type_@ != "NamesAccepted"@);
                    }
                }
            }
            return ok;
        }
        i = i + 1;
    }
    false
}

/// Whether a change notification says that the schema is ready.
pub fn schema_event_ready(event: &SchemaEvent) -> (r: bool)
    ensures
        r == event_accepts_names(*event),
{
    if event.kind != WatchEventKind::Modified {
        return false;
    }
    match &event.conditions {
        Some(c) => conditions_accept_names(c),
        None => false,
    }
}

} // verus!
