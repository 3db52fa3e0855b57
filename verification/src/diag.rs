//! Diagnostics: a sink that records the reports the bridge emits, and the
//! process-wide panic-hook installer.

use vstd::prelude::*;

verus! {

/// One report category emitted by the bridge or the sizing policy.
///
/// `SizingFallback` is informational: the hardware-parallelism query was
/// unavailable and the fallback count was used.  The other two accompany a
/// failure that aborts pool construction.
#[derive(Clone, Copy, PartialEq, Eq, Structural, Debug)]
pub enum Diagnostic {
    SizingFallback,
    ProvisionFailed,
    SubmitFailed,
}

impl Diagnostic {
    /// The human-readable text of this report.
    pub open spec fn spec_message(self) -> Seq<char> {
        match self {
            Diagnostic::SizingFallback => "failed to get hardware concurrency from the host; falling back to the documented minimum"@,
            Diagnostic::ProvisionFailed => "failed to provision the agent pool; all partially created agents were torn down"@,
            Diagnostic::SubmitFailed => "an agent rejected a work submission; pool construction aborted"@,
        }
    }

    /// The human-readable text of this report.
    pub fn message(&self) -> (r: &'static str)
        ensures
            r@ == self.spec_message(),
    {
        match self {
            Diagnostic::SizingFallback => "failed to get hardware concurrency from the host; falling back to the documented minimum",
            Diagnostic::ProvisionFailed => "failed to provision the agent pool; all partially created agents were torn down",
            Diagnostic::SubmitFailed => "an agent rejected a work submission; pool construction aborted",
        }
    }
}

/// The diagnostics sink: an ordered record of the reports emitted so far,
/// plus whether the panic hook has been installed.
///
/// The embedding code forwards each recorded report to the host's logging
/// surface; this type holds what was written and in which order.
pub struct DiagnosticsSink {
    pub messages: Vec<Diagnostic>,
    pub hook_installed: bool,
}

/// How one call of [`init_panic_hook`] changes the sink: the hook is
/// installed afterwards and the recorded reports are untouched.
pub open spec fn install_step(pre: DiagnosticsSink, post: DiagnosticsSink) -> bool {
    &&& post.hook_installed == true
    &&& post.messages == pre.messages
}

impl DiagnosticsSink {
    /// A fresh sink: nothing recorded, hook not installed.
    pub fn new() -> (s: DiagnosticsSink)
        ensures
            s.messages@ == Seq::<Diagnostic>::empty(),
            !s.hook_installed,
    {
        DiagnosticsSink { messages: Vec::new(), hook_installed: false }
    }

    /// Record one report.  Never fails and never blocks.
    pub fn log(&mut self, d: Diagnostic)
        ensures
            final(self).messages@ == old(self).messages@.push(d),
            final(self).hook_installed == old(self).hook_installed,
    {
        self.messages.push(d);
    }

    /// How many reports have been recorded.
    pub fn message_count(&self) -> (n: usize)
        ensures
            n == self.messages@.len(),
    {
        self.messages.len()
    }

    /// The `i`-th recorded report, oldest first.
    pub fn message_at(&self, i: usize) -> (d: Diagnostic)
        requires
            i < self.messages@.len(),
        ensures
            d == self.messages@[i as int],
    {
        self.messages[i]
    }
}

/// Relies on `console_error_panic_hook::set_once`: installs the process-wide
/// panic-to-log hook the first time it is called; subsequent calls do
/// nothing.  It never fails and installs nothing else.
#[verifier::external_body]
fn set_once_host() {
    console_error_panic_hook::set_once();
}

/// Install the process-wide panic hook, so that a panic inside agent-hosted
/// work is converted to a host-visible log message instead of being lost.
///
/// Idempotent: a second call leaves the sink in the same state as the first
/// (see [`lemma_init_panic_hook_idempotent`]), and the underlying host hook
/// is installed at most once.
pub fn init_panic_hook(sink: &mut DiagnosticsSink)
    ensures
        install_step(*old(sink), *final(sink)),
        final(sink).hook_installed,
        final(sink).messages == old(sink).messages,
{
    set_once_host();
    sink.hook_installed = true;
}

/// Law: installing the panic hook twice has the same observable effect as
/// installing it once.  If `b` is the sink after one installation on `a`,
/// and `c` the sink after another installation on `b`, then `b` and `c`
/// agree on everything the sink exposes.
pub proof fn lemma_init_panic_hook_idempotent(
    a: DiagnosticsSink,
    b: DiagnosticsSink,
    c: DiagnosticsSink,
)
    requires
        install_step(a, b),
        install_step(b, c),
    ensures
        c.hook_installed == b.hook_installed,
        c.messages == b.messages,
{
}

} // verus!
