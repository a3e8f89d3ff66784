//! Run events of the application's event loop, as Python sees them.

use vstd::prelude::*;

verus! {

/// A run event as the event loop reports it, holding the fields that are
/// shown to Python.
#[derive(Debug, Clone, PartialEq, Eq)]
pub enum RunEventData {
    /// The event loop has exited.
    Exit,
    /// An exit was requested, with the exit code if one was given.
    ExitRequested { code: Option<i32> },
    /// An event of the window with this label.
    WindowEvent { label: String },
    /// An event of the web view with this label.
    WebviewEvent { label: String },
    /// The application is ready.
    Ready,
    /// The application was resumed.
    Resumed,
    /// All queued events were handled.
    MainEventsCleared,
    /// A menu item was activated.
    MenuEvent,
    /// An event kind that is not shown to Python (tray-icon, reopen and
    /// URL-open events).
    Unsupported,
}

/// The Python-side view of a run event.
#[derive(Debug, Clone, PartialEq, Eq)]
pub enum RunEventEnum {
    Exit(),
    #[non_exhaustive]
    ExitRequested { code: Option<i32> },
    #[non_exhaustive]
    WindowEvent { label: String },
    #[non_exhaustive]
    WebviewEvent { label: String },
    Ready(),
    Resumed(),
    MainEventsCleared(),
    MenuEvent(),
}

/// A run event that Python can match on.
pub struct RunEvent(pub RunEventData);

/// Whether Python can be shown an event of this kind.
pub open spec fn is_supported(event: RunEventData) -> bool {
    !(event is Unsupported)
}

/// The Python-side view of a supported run event: the same kind, with the
/// exit code or label it carries.
pub open spec fn run_event_view(event: RunEventData) -> RunEventEnum
    recommends
        is_supported(event),
{
    match event {
        RunEventData::Exit => RunEventEnum::Exit(),
        RunEventData::ExitRequested { code } => RunEventEnum::ExitRequested { code },
        RunEventData::WindowEvent { label } => RunEventEnum::WindowEvent { label },
        RunEventData::WebviewEvent { label } => RunEventEnum::WebviewEvent { label },
        RunEventData::Ready => RunEventEnum::Ready(),
        RunEventData::Resumed => RunEventEnum::Resumed(),
        RunEventData::MainEventsCleared => RunEventEnum::MainEventsCleared(),
        RunEventData::MenuEvent => RunEventEnum::MenuEvent(),
        RunEventData::Unsupported => RunEventEnum::Exit(),
    }
}

/// Law: every supported event is shown as the event of the same kind,
/// carrying the same exit code or label, for every code and label.
pub proof fn lemma_run_event_view_preserves(code: Option<i32>, label: String)
    ensures
        run_event_view(RunEventData::ExitRequested { code }) == (RunEventEnum::ExitRequested {
            code,
        }),
        run_event_view(RunEventData::WindowEvent { label }) == (RunEventEnum::WindowEvent {
            label,
        }),
        run_event_view(RunEventData::WebviewEvent { label }) == (RunEventEnum::WebviewEvent {
            label,
        }),
        run_event_view(RunEventData::Exit) == RunEventEnum::Exit(),
        run_event_view(RunEventData::Ready) == RunEventEnum::Ready(),
        run_event_view(RunEventData::Resumed) == RunEventEnum::Resumed(),
        run_event_view(RunEventData::MainEventsCleared) == RunEventEnum::MainEventsCleared(),
        run_event_view(RunEventData::MenuEvent) == RunEventEnum::MenuEvent(),
{
}

impl RunEvent {
    /// Wraps a run event for Python.
    pub fn new(run_event: RunEventData) -> (r: Self)
        ensures
            r.0 == run_event,
    {
        RunEvent(run_event)
    }

    /// The Python-side view of this event; only supported kinds are shown.
    pub fn match_ref(&self) -> (r: RunEventEnum)
        requires
            is_supported(self.0),
        ensures
            r == run_event_view(self.0),
    {
        match &self.0 {
            RunEventData::Exit => RunEventEnum::Exit(),
            RunEventData::ExitRequested { code } => RunEventEnum::ExitRequested { code: *code },
            RunEventData::WindowEvent { label } => RunEventEnum::WindowEvent { label: label.clone() },
            RunEventData::WebviewEvent { label } => RunEventEnum::WebviewEvent {
                label: label.clone(),
            },
            RunEventData::Ready => RunEventEnum::Ready(),
            RunEventData::Resumed => RunEventEnum::Resumed(),
            RunEventData::MainEventsCleared => RunEventEnum::MainEventsCleared(),
            RunEventData::MenuEvent => RunEventEnum::MenuEvent(),
            RunEventData::Unsupported => {
                proof {
                    assert(false);
                }
                RunEventEnum::Exit()
            },
        }
    }
}

} // verus!
