//! The panic/backtrace capture subsystem: a process-wide slot holding at most
//! one captured stack trace, written by the panic hook while capture is
//! enabled, read and cleared exactly once per failure by the raise paths.

use vstd::prelude::*;

verus! {

/// The subsystem's two states: initially no hook captures anything; once
/// capture is enabled, every panic's trace is stored in the slot.
#[derive(Clone, Copy, PartialEq, Eq, Structural, Debug)]
pub enum CaptureState {
    Disabled,
    Capturing,
}

/// The backtrace slot: the capture lifecycle state together with the most
/// recently captured, not yet consumed, trace text. One slot exists per
/// thread for the process's whole lifetime.
#[derive(Debug)]
pub struct BacktraceSlot {
    pub state: CaptureState,
    pub trace: Option<String>,
}

impl BacktraceSlot {
    /// The slot after capture is enabled: the hook is installed; a trace
    /// already stored stays until a raise path consumes it.
    pub open spec fn spec_enabled(self) -> BacktraceSlot {
        BacktraceSlot { state: CaptureState::Capturing, trace: self.trace }
    }

    /// The slot after capture is disabled: the hook is a no-op again.
    pub open spec fn spec_disabled(self) -> BacktraceSlot {
        BacktraceSlot { state: CaptureState::Disabled, trace: self.trace }
    }

    /// The slot after a panic: while capturing, the new trace overwrites any
    /// prior uncollected one; while disabled, nothing is recorded.
    pub open spec fn spec_recorded(self, trace: String) -> BacktraceSlot {
        if self.state is Capturing {
            BacktraceSlot { state: self.state, trace: Some(trace) }
        } else {
            self
        }
    }

    /// The slot after a raise path consumed it.
    pub open spec fn spec_cleared(self) -> BacktraceSlot {
        BacktraceSlot { state: self.state, trace: None }
    }

    /// The stored trace text, if any.
    pub open spec fn trace_view(self) -> Option<Seq<char>> {
        match self.trace {
            Some(t) => Some(t@),
            None => None,
        }
    }

    /// A fresh slot: capture disabled, nothing stored.
    pub fn new() -> (s: BacktraceSlot)
        ensures
            s == (BacktraceSlot { state: CaptureState::Disabled, trace: None::<String> }),
    {
        BacktraceSlot { state: CaptureState::Disabled, trace: None }
    }

    /// Enable capture: install the capturing panic hook.
    pub fn enable(&mut self)
        ensures
            *final(self) == old(self).spec_enabled(),
    {
        self.state = CaptureState::Capturing;
    }

    /// Disable capture: replace the hook with a no-op.
    pub fn disable(&mut self)
        ensures
            *final(self) == old(self).spec_disabled(),
    {
        self.state = CaptureState::Disabled;
    }

    /// What the installed hook does when a panic unwinds: while capturing,
    /// force-capture the trace and store it, overwriting any prior
    /// uncollected one; while disabled, do nothing.
    pub fn record_panic_trace(&mut self, trace: String)
        ensures
            *final(self) == old(self).spec_recorded(trace),
    {
        match self.state {
            CaptureState::Capturing => {
                self.trace = Some(trace);
            },
            CaptureState::Disabled => {},
        }
    }

    /// Read and clear the slot; each stored trace is consumed at most once.
    pub fn take_trace(&mut self) -> (t: Option<String>)
        ensures
            t == old(self).trace,
            *final(self) == old(self).spec_cleared(),
    {
        self.trace.take()
    }
}

/// The exception payload text: the cause, prefixed, followed by the captured
/// trace or by the "not captured" marker.
pub open spec fn spec_exception_message(cause: Seq<char>, trace: Option<Seq<char>>) -> Seq<char> {
    match trace {
        None => "Polars panicked: "@ + cause + "\nbacktrace not captured"@,
        Some(t) => "Polars panicked: "@ + cause + "\nBacktrace:\n"@ + t,
    }
}

/// Build the exception payload for a cause and an optional captured trace.
pub fn exception_message(cause: &String, trace: &Option<String>) -> (m: String)
    ensures
        m@ == spec_exception_message(
            cause@,
            match trace {
                Some(t) => Some(t@),
                None => None,
            },
        ),
{
    let mut m = String::from_str("Polars panicked: ");
    m.append(cause.as_str());
    match trace {
        None => {
            m.append("\nbacktrace not captured");
        },
        Some(t) => {
            m.append("\nBacktrace:\n");
            m.append(t.as_str());
        },
    }
    proof {
        assert(m@ =~= spec_exception_message(
            cause@,
            match trace {
                Some(t) => Some(t@),
                None => None,
            },
        ));
    }
    m
}

/// Raise path for a propagated error: read and clear the slot and build the
/// payload embedding the cause and, if one was captured, the trace. The
/// returned payload is handed to the foreign runtime's raise, which never
/// returns; the raise itself stands outside this model.
pub fn raise_from_error(slot: &mut BacktraceSlot, cause: &String) -> (payload: String)
    ensures
        payload@ == spec_exception_message(cause@, old(slot).trace_view()),
        *final(slot) == old(slot).spec_cleared(),
{
    let trace = slot.take_trace();
    exception_message(cause, &trace)
}

/// What a caught panic carries, as the extraction path tells the kinds
/// apart: a string-slice payload, an owned-string payload, or any other
/// payload already put through the generic debug rendering.
#[derive(Debug)]
pub enum PanicPayload {
    StrSlice(String),
    OwnedString(String),
    Rendered(String),
}

/// The message a panic payload yields: each kind yields its content exactly.
pub open spec fn spec_extracted(p: PanicPayload) -> Seq<char> {
    match p {
        PanicPayload::StrSlice(s) => s@,
        PanicPayload::OwnedString(s) => s@,
        PanicPayload::Rendered(d) => d@,
    }
}

/// Extract a panic payload's message: a string-slice downcast is tried
/// first, an owned-string downcast second, and the debug rendering is the
/// fallback; whichever applies is returned whole, with no truncation.
pub fn extract_panic_message(p: &PanicPayload) -> (m: String)
    ensures
        m@ == spec_extracted(*p),
{
    match p {
        PanicPayload::StrSlice(s) => s.clone(),
        PanicPayload::OwnedString(s) => s.clone(),
        PanicPayload::Rendered(d) => d.clone(),
    }
}

/// Raise path for a caught panic: extract the message from the payload and
/// raise it like a propagated error, trace and all.
pub fn raise_from_panic(slot: &mut BacktraceSlot, payload: &PanicPayload) -> (m: String)
    ensures
        m@ == spec_exception_message(spec_extracted(*payload), old(slot).trace_view()),
        *final(slot) == old(slot).spec_cleared(),
{
    let cause = extract_panic_message(payload);
    raise_from_error(slot, &cause)
}

/// Enabling capture twice in a row leaves the slot exactly as enabling it
/// once does, and disabling an already disabled slot changes nothing.
pub proof fn lemma_enable_idempotent(s: BacktraceSlot)
    ensures
        s.spec_enabled().spec_enabled() == s.spec_enabled(),
        s.state is Disabled ==> s.spec_disabled() == s,
{
}

/// Disabling when already disabled is a no-op: the state stays disabled, the
/// stored trace is untouched, and a panic stores nothing. When no trace is
/// pending, a subsequent raise renders the "not captured" fallback; a trace
/// still pending from before capture was disabled is delivered once instead,
/// since disabling replaces only the hook and leaves the slot alone.
pub proof fn lemma_disable_when_disabled(s: BacktraceSlot, trace: String, cause: Seq<char>)
    requires
        s.state is Disabled,
    ensures
        s.spec_disabled() == s,
        s.spec_disabled().spec_recorded(trace) == s,
        s.trace is None ==> spec_exception_message(cause, s.spec_disabled().trace_view())
            == "Polars panicked: "@ + cause + "\nbacktrace not captured"@,
{
}

/// A captured trace is consumed by the raise path that reads it: the slot is
/// left empty, and a second raise immediately after, with no intervening
/// panic, renders the "not captured" fallback, never a stale trace.
pub proof fn lemma_trace_read_once(s: BacktraceSlot, cause: Seq<char>)
    ensures
        s.spec_cleared().trace_view() is None,
        spec_exception_message(cause, s.spec_cleared().trace_view()) == "Polars panicked: "@
            + cause + "\nbacktrace not captured"@,
{
}

} // verus!
