//! Starting a listener: the once-only guard and the steps of installation.
//!
//! The library decides; its caller acts. A start function answers with a
//! [`StartProgress`]: a step for the caller to perform, or the outcome of
//! the start. After each step the caller reports whether it succeeded and
//! is told how to go on.

use vstd::prelude::*;

verus! {

/// Why a listener could not be started.
#[derive(Debug, Clone, Copy, PartialEq, Eq, Structural)]
pub enum CaptureError {
    /// The operating system refused the hook, or the hook's dispatch loop
    /// came back.
    HookInstallationFailed,
    /// The window whose messages are to be watched does not exist.
    WindowNotFound,
    /// The operating system refused the registration for raw mouse input.
    RawInputRegistrationFailed,
}

impl CaptureError {
    /// The text of [`CaptureError::description`].
    pub open spec fn description_text(self) -> Seq<char> {
        match self {
            CaptureError::HookInstallationFailed => "Failed to install the input hook"@,
            CaptureError::WindowNotFound => "Window not found"@,
            CaptureError::RawInputRegistrationFailed => "Failed to register for raw input"@,
        }
    }

    /// A sentence that says what went wrong, for the caller of a start.
    pub fn description(&self) -> (text: String)
        ensures
            text@ == self.description_text(),
    {
        match self {
            CaptureError::HookInstallationFailed => "Failed to install the input hook".to_owned(),
            CaptureError::WindowNotFound => "Window not found".to_owned(),
            CaptureError::RawInputRegistrationFailed => "Failed to register for raw input".to_owned(),
        }
    }
}

/// One action of the operating system that installing a listener needs.
#[derive(Debug, Clone, Copy, PartialEq, Eq, Structural)]
pub enum InstallStep {
    /// Bind the callback to the system-wide input hook and run its dispatch
    /// loop. The loop blocks; it comes back only when the hook fails.
    BindListener,
    /// Resolve the native handle of the window to watch.
    ResolveWindow,
    /// Register that window for raw mouse input.
    RegisterRawInput,
    /// Install the message hook on the thread that owns the window.
    InstallHook,
}

/// How a start goes on.
#[derive(Debug, Clone, Copy, PartialEq, Eq, Structural)]
pub enum StartProgress {
    /// The caller performs this step and reports its outcome to
    /// [`step_finished`].
    Perform(InstallStep),
    /// The start succeeded; nothing is left to do.
    Started,
    /// The start failed, with this error. It is not tried again.
    Failed(CaptureError),
}

/// The error that a failed step ends the start with.
pub open spec fn failure_of(step: InstallStep) -> CaptureError {
    match step {
        InstallStep::BindListener => CaptureError::HookInstallationFailed,
        InstallStep::ResolveWindow => CaptureError::WindowNotFound,
        InstallStep::RegisterRawInput => CaptureError::RawInputRegistrationFailed,
        InstallStep::InstallHook => CaptureError::HookInstallationFailed,
    }
}

/// How a start goes on once `step` has been performed.
///
/// A failed step ends the start with that step's error, and no later step
/// is performed. A successful one leads to the next step of its listener,
/// or to the end.
pub open spec fn after_step(step: InstallStep, succeeded: bool) -> StartProgress {
    if !succeeded {
        StartProgress::Failed(failure_of(step))
    } else {
        match step {
            InstallStep::BindListener => StartProgress::Started,
            InstallStep::ResolveWindow => StartProgress::Perform(InstallStep::RegisterRawInput),
            InstallStep::RegisterRawInput => StartProgress::Perform(InstallStep::InstallHook),
            InstallStep::InstallHook => StartProgress::Started,
        }
    }
}

/// What a start answers: success at once where a listener was started
/// before, else the first step of an installation.
pub open spec fn start_progress(listening: bool, first: InstallStep) -> StartProgress {
    if listening {
        StartProgress::Started
    } else {
        StartProgress::Perform(first)
    }
}

/// Whether this process has started a listener.
///
/// The flag is clear when the process begins and is set by the first start.
/// Nothing clears it: a start whose installation fails is not tried again
/// in the same process.
#[derive(Debug)]
pub struct ListeningState {
    listening: bool,
}

impl View for ListeningState {
    type V = bool;

    closed spec fn view(&self) -> bool {
        self.listening
    }
}

impl Default for ListeningState {
    /// The state of a process that has started no listener.
    fn default() -> (state: Self)
        ensures
            !state@,
    {
        ListeningState::new()
    }
}

impl ListeningState {
    /// The state of a process that has started no listener.
    pub fn new() -> (state: Self)
        ensures
            !state@,
    {
        ListeningState { listening: false }
    }

    /// Whether a listener has been started.
    pub fn is_listening(&self) -> (listening: bool)
        ensures
            listening == self@,
    {
        self.listening
    }

    /// Sets the flag and answers what the start that set it has to do. The
    /// test and the set are one step: the exclusive borrow keeps every
    /// other start out until both are done.
    fn begin(&mut self, first: InstallStep) -> (progress: StartProgress)
        ensures
            final(self)@,
            progress == start_progress(old(self)@, first),
    {
        let was_listening: bool = self.listening;
        self.listening = true;
        if was_listening {
            StartProgress::Started
        } else {
            StartProgress::Perform(first)
        }
    }
}

/// Starts the listener that binds one callback to the system-wide input
/// hook.
///
/// The first start of a process is told to bind the listener; every later
/// one succeeds at once and installs nothing.
pub fn start_device_listening(state: &mut ListeningState) -> (progress: StartProgress)
    ensures
        final(state)@,
        progress == start_progress(old(state)@, InstallStep::BindListener),
{
    state.begin(InstallStep::BindListener)
}

/// Starts the listener that reads raw mouse input through a message hook.
///
/// The first start of a process is told to resolve the window, the first of
/// three steps; every later one succeeds at once and installs nothing.
pub fn start_raw_input(state: &mut ListeningState) -> (progress: StartProgress)
    ensures
        final(state)@,
        progress == start_progress(old(state)@, InstallStep::ResolveWindow),
{
    state.begin(InstallStep::ResolveWindow)
}

/// Tells how a start goes on once `step` has been performed and has
/// succeeded or failed.
pub fn step_finished(step: InstallStep, succeeded: bool) -> (progress: StartProgress)
    ensures
        progress == after_step(step, succeeded),
{
    if !succeeded {
        let error: CaptureError = match step {
            InstallStep::BindListener => CaptureError::HookInstallationFailed,
            InstallStep::ResolveWindow => CaptureError::WindowNotFound,
            InstallStep::RegisterRawInput => CaptureError::RawInputRegistrationFailed,
            InstallStep::InstallHook => CaptureError::HookInstallationFailed,
        };
        StartProgress::Failed(error)
    } else {
        match step {
            InstallStep::BindListener => StartProgress::Started,
            InstallStep::ResolveWindow => StartProgress::Perform(InstallStep::RegisterRawInput),
            InstallStep::RegisterRawInput => StartProgress::Perform(InstallStep::InstallHook),
            InstallStep::InstallHook => StartProgress::Started,
        }
    }
}

/// How many installations `calls` starts in a row begin, the first of them
/// made with the flag at `listening`.
pub open spec fn installations_begun(listening: bool, calls: nat, first: InstallStep) -> nat
    decreases calls,
{
    if calls == 0 {
        0
    } else {
        let begun: nat = if start_progress(listening, first) is Perform {
            1
        } else {
            0
        };
        begun + installations_begun(true, (calls - 1) as nat, first)
    }
}

/// How a start ends when it begins with `progress` and its steps have the
/// outcomes `outcomes`, in order. Outcomes that are left over once the
/// start has ended are not looked at.
pub open spec fn run(progress: StartProgress, outcomes: Seq<bool>) -> StartProgress
    decreases outcomes.len(),
{
    match progress {
        StartProgress::Perform(step) if outcomes.len() > 0 => run(
            after_step(step, outcomes[0]),
            outcomes.drop_first(),
        ),
        _ => progress,
    }
}

/// Once the flag is set, starts begin no installation, however many there
/// are.
pub proof fn lemma_no_installation_once_listening(calls: nat, first: InstallStep)
    ensures
        installations_begun(true, calls, first) == 0,
    decreases calls,
{
    if calls > 0 {
        lemma_no_installation_once_listening((calls - 1) as nat, first);
    }
}

/// Of any number of starts in a fresh process exactly one begins an
/// installation, the first; each of the others succeeds at once.
pub proof fn lemma_exactly_one_installation(calls: nat, first: InstallStep)
    requires
        calls > 0,
    ensures
        installations_begun(false, calls, first) == 1,
        start_progress(false, first) == StartProgress::Perform(first),
        start_progress(true, first) == StartProgress::Started,
{
    lemma_no_installation_once_listening((calls - 1) as nat, first);
}

/// The raw input listener is armed when its three steps succeed; it fails
/// with the error of the first step that fails, and the steps after that
/// one have no say.
pub proof fn lemma_raw_input_setup(resolved: bool, registered: bool, hooked: bool)
    ensures
        run(
            StartProgress::Perform(InstallStep::ResolveWindow),
            seq![resolved, registered, hooked],
        ) == if !resolved {
            StartProgress::Failed(CaptureError::WindowNotFound)
        } else if !registered {
            StartProgress::Failed(CaptureError::RawInputRegistrationFailed)
        } else if !hooked {
            StartProgress::Failed(CaptureError::HookInstallationFailed)
        } else {
            StartProgress::Started
        },
{
    let outcomes = seq![resolved, registered, hooked];
    let second = outcomes.drop_first();
    let third = second.drop_first();
    assert(third.drop_first().len() == 0);
    reveal_with_fuel(run, 4);
}

/// The listener on the system-wide hook succeeds if its dispatch loop comes
/// back without an error, and fails with `HookInstallationFailed` if the
/// loop comes back with one.
pub proof fn lemma_device_listening_setup(bound: bool)
    ensures
        run(StartProgress::Perform(InstallStep::BindListener), seq![bound]) == if bound {
            StartProgress::Started
        } else {
            StartProgress::Failed(CaptureError::HookInstallationFailed)
        },
{
    let outcomes = seq![bound];
    assert(outcomes.drop_first().len() == 0);
    reveal_with_fuel(run, 2);
}

/// A start that fails is not tried again. Where the window cannot be
/// resolved, the raw input start fails with `WindowNotFound`, whatever the
/// steps after it would have come to. The flag that the start has set stays
/// set, so each of the starts that follow, of either listener, succeeds at
/// once, and none of them begins an installation.
pub proof fn lemma_failed_start_is_not_retried(rest: Seq<bool>, later: nat, first: InstallStep)
    ensures
        run(start_progress(false, InstallStep::ResolveWindow), seq![false] + rest)
            == StartProgress::Failed(CaptureError::WindowNotFound),
        start_progress(true, first) == StartProgress::Started,
        installations_begun(true, later, first) == 0,
{
    let outcomes = seq![false] + rest;
    assert(outcomes.len() > 0 && !outcomes[0]);
    reveal_with_fuel(run, 2);
    lemma_no_installation_once_listening(later, first);
}

} // verus!
