use input_capture::listener::{
    start_device_listening, start_raw_input, step_finished, CaptureError, InstallStep,
    ListeningState, StartProgress,
};

/// Drives a start to its end, with the given outcome for each step that it
/// is told to perform. Returns the end and the steps performed.
fn drive(mut progress: StartProgress, outcomes: &[bool]) -> (StartProgress, Vec<InstallStep>) {
    let mut performed = Vec::new();
    let mut outcomes = outcomes.iter();
    while let StartProgress::Perform(step) = progress {
        performed.push(step);
        let succeeded = *outcomes.next().expect("an outcome for every step");
        progress = step_finished(step, succeeded);
    }
    (progress, performed)
}

#[test]
fn a_fresh_process_is_not_listening() {
    assert!(!ListeningState::new().is_listening());
    assert!(!ListeningState::default().is_listening());
}

#[test]
fn first_device_start_binds_the_listener() {
    let mut state = ListeningState::new();
    assert_eq!(
        start_device_listening(&mut state),
        StartProgress::Perform(InstallStep::BindListener)
    );
    assert!(state.is_listening());
}

#[test]
fn first_raw_input_start_resolves_the_window() {
    let mut state = ListeningState::new();
    assert_eq!(start_raw_input(&mut state), StartProgress::Perform(InstallStep::ResolveWindow));
    assert!(state.is_listening());
}

#[test]
fn second_start_succeeds_at_once() {
    let mut state = ListeningState::new();
    start_device_listening(&mut state);
    assert_eq!(start_device_listening(&mut state), StartProgress::Started);
    assert!(state.is_listening());

    let mut state = ListeningState::new();
    start_raw_input(&mut state);
    assert_eq!(start_raw_input(&mut state), StartProgress::Started);
    assert!(state.is_listening());
}

#[test]
fn of_many_starts_exactly_one_installs() {
    let mut state = ListeningState::new();
    let mut installations = 0;
    let mut successes = 0;
    for _ in 0..25 {
        match drive(start_raw_input(&mut state), &[true, true, true]) {
            (StartProgress::Started, performed) => {
                successes += 1;
                if !performed.is_empty() {
                    installations += 1;
                }
            },
            (other, _) => panic!("a start ended with {:?}", other),
        }
    }
    assert_eq!(installations, 1);
    assert_eq!(successes, 25);
}

#[test]
fn one_state_guards_both_start_functions() {
    let mut state = ListeningState::new();
    assert_eq!(
        start_device_listening(&mut state),
        StartProgress::Perform(InstallStep::BindListener)
    );
    assert_eq!(start_raw_input(&mut state), StartProgress::Started);
}

#[test]
fn successful_steps_lead_to_the_next() {
    assert_eq!(step_finished(InstallStep::BindListener, true), StartProgress::Started);
    assert_eq!(
        step_finished(InstallStep::ResolveWindow, true),
        StartProgress::Perform(InstallStep::RegisterRawInput)
    );
    assert_eq!(
        step_finished(InstallStep::RegisterRawInput, true),
        StartProgress::Perform(InstallStep::InstallHook)
    );
    assert_eq!(step_finished(InstallStep::InstallHook, true), StartProgress::Started);
}

#[test]
fn failed_steps_end_the_start_with_their_error() {
    assert_eq!(
        step_finished(InstallStep::BindListener, false),
        StartProgress::Failed(CaptureError::HookInstallationFailed)
    );
    assert_eq!(
        step_finished(InstallStep::ResolveWindow, false),
        StartProgress::Failed(CaptureError::WindowNotFound)
    );
    assert_eq!(
        step_finished(InstallStep::RegisterRawInput, false),
        StartProgress::Failed(CaptureError::RawInputRegistrationFailed)
    );
    assert_eq!(
        step_finished(InstallStep::InstallHook, false),
        StartProgress::Failed(CaptureError::HookInstallationFailed)
    );
}

#[test]
fn raw_input_setup_runs_three_steps_in_order() {
    let mut state = ListeningState::new();
    let (end, performed) = drive(start_raw_input(&mut state), &[true, true, true]);
    assert_eq!(end, StartProgress::Started);
    assert_eq!(
        performed,
        vec![InstallStep::ResolveWindow, InstallStep::RegisterRawInput, InstallStep::InstallHook]
    );
}

#[test]
fn raw_input_setup_stops_at_the_first_failure() {
    let mut state = ListeningState::new();
    let (end, performed) = drive(start_raw_input(&mut state), &[false]);
    assert_eq!(end, StartProgress::Failed(CaptureError::WindowNotFound));
    assert_eq!(performed, vec![InstallStep::ResolveWindow]);

    let mut state = ListeningState::new();
    let (end, performed) = drive(start_raw_input(&mut state), &[true, false]);
    assert_eq!(end, StartProgress::Failed(CaptureError::RawInputRegistrationFailed));
    assert_eq!(performed, vec![InstallStep::ResolveWindow, InstallStep::RegisterRawInput]);

    let mut state = ListeningState::new();
    let (end, performed) = drive(start_raw_input(&mut state), &[true, true, false]);
    assert_eq!(end, StartProgress::Failed(CaptureError::HookInstallationFailed));
    assert_eq!(performed.len(), 3);
}

#[test]
fn device_listening_fails_when_the_dispatch_loop_comes_back_with_an_error() {
    let mut state = ListeningState::new();
    let (end, performed) = drive(start_device_listening(&mut state), &[false]);
    assert_eq!(end, StartProgress::Failed(CaptureError::HookInstallationFailed));
    assert_eq!(performed, vec![InstallStep::BindListener]);
}

#[test]
fn a_start_that_failed_on_the_window_is_not_retried() {
    let mut state = ListeningState::new();
    let (end, _) = drive(start_raw_input(&mut state), &[false]);
    assert_eq!(end, StartProgress::Failed(CaptureError::WindowNotFound));
    assert!(state.is_listening());
    // The window may exist by now; the next start does not look for it.
    let (end, performed) = drive(start_raw_input(&mut state), &[true, true, true]);
    assert_eq!(end, StartProgress::Started);
    assert!(performed.is_empty());
    assert!(state.is_listening());
}

#[test]
fn errors_describe_themselves() {
    assert_eq!(
        CaptureError::HookInstallationFailed.description(),
        "Failed to install the input hook"
    );
    assert_eq!(CaptureError::WindowNotFound.description(), "Window not found");
    assert_eq!(
        CaptureError::RawInputRegistrationFailed.description(),
        "Failed to register for raw input"
    );
}
