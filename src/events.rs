//! Classifying the daemon's change notifications.
use vstd::prelude::*;

verus! {

/// The subsystem a change notification is about.
#[derive(Debug, Clone, Copy, PartialEq, Eq, Structural)]
pub enum Facility {
    /// A capture source.
    Source,
    /// The server, whose settings name the default source.
    Server,
    /// Anything else the daemon reports.
    Other,
}

/// What happened to a capture source.
#[derive(Debug, Clone, Copy, PartialEq, Eq, Structural)]
pub enum Operation {
    New,
    Changed,
    Removed,
}

/// What a notification asks the reconciler to refresh.
#[derive(Debug, Clone, Copy, PartialEq, Eq, Structural)]
pub enum ChangeClassification {
    /// A source changed: the catalog is read again.
    DeviceDomainChanged,
    /// The server changed: the default source is resolved again, then the
    /// catalog is read again.
    ServerDomainChanged,
}

/// The classification of a notification, or `None` when it triggers nothing:
/// a changed source and any server event are passed on; a source that was
/// added or removed, and every other subsystem, are not. A newly added source
/// thus stays out of the catalog until some other event refreshes it, by
/// design.
pub open spec fn classification(facility: Facility, operation: Operation) -> Option<
    ChangeClassification,
> {
    match facility {
        Facility::Source => match operation {
            Operation::Changed => Some(ChangeClassification::DeviceDomainChanged),
            _ => None,
        },
        Facility::Server => Some(ChangeClassification::ServerDomainChanged),
        Facility::Other => None,
    }
}

/// Classifies one notification; see [`classification`].
pub fn classify_event(facility: Facility, operation: Operation) -> (r: Option<ChangeClassification>)
    ensures
        r == classification(facility, operation),
{
    match facility {
        Facility::Source => match operation {
            Operation::Changed => Some(ChangeClassification::DeviceDomainChanged),
            Operation::New => None,
            Operation::Removed => None,
        },
        Facility::Server => Some(ChangeClassification::ServerDomainChanged),
        Facility::Other => None,
    }
}

} // verus!
