use vstd::prelude::*;

verus! {

/// The five levels of the structured-logging framework, lowest first.
#[derive(Clone, Copy, Debug, PartialEq, Eq, Structural)]
pub enum Severity {
    Trace,
    Debug,
    Info,
    Warn,
    Error,
}

/// What becomes of a log event in the reporting service.
#[derive(Clone, Copy, Debug, PartialEq, Eq, Structural)]
pub enum EventClass {
    /// Reported as an event of its own.
    Event,
    /// Kept as a breadcrumb: context for later events, not an incident.
    Breadcrumb,
    /// Dropped.
    Ignore,
}

/// The classification of log events by level.
pub open spec fn class_of(level: Severity) -> EventClass {
    match level {
        Severity::Error => EventClass::Event,
        Severity::Debug | Severity::Info | Severity::Warn => EventClass::Breadcrumb,
        Severity::Trace => EventClass::Ignore,
    }
}

/// How a log event of this level is reported: errors as events, debug,
/// info and warning entries as breadcrumbs, trace entries not at all.
pub fn classify_event(level: Severity) -> (r: EventClass)
    ensures
        r == class_of(level),
{
    match level {
        Severity::Error => EventClass::Event,
        Severity::Debug | Severity::Info | Severity::Warn => EventClass::Breadcrumb,
        Severity::Trace => EventClass::Ignore,
    }
}

/// Whether spans of this level are recorded: all but trace-level ones.
pub fn keeps_span(level: Severity) -> (r: bool)
    ensures
        r == (level != Severity::Trace),
{
    match level {
        Severity::Trace => false,
        _ => true,
    }
}

} // verus!
