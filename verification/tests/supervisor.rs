use mosquitto_supervisor::command::{bundled_binary, mosquitto};
use mosquitto_supervisor::mosquitto::{Mosquitto, MosquittoStateValues};

const MISSING: &str = "No such file or directory (os error 2)";

fn failure() -> Result<u32, String> {
    Err(MISSING.to_string())
}

#[test]
fn fresh_supervisor_is_stopped() {
    let supervisor: Mosquitto<u32> = Mosquitto::new();
    assert_eq!(supervisor.get_state(), MosquittoStateValues::Stopped);
    assert!(!supervisor.has_process());
    assert_eq!(supervisor.process(), None);
}

#[test]
fn successful_start_is_running() {
    let mut supervisor: Mosquitto<u32> = Mosquitto::new();
    let message = supervisor.start_mosquitto(Ok(4711));
    assert_eq!(message, "Mosquitto started");
    assert_eq!(supervisor.get_state(), MosquittoStateValues::Running);
    assert!(supervisor.has_process());
    assert_eq!(supervisor.process(), Some(&4711));
}

#[test]
fn failed_start_is_stopped_with_error() {
    let mut supervisor: Mosquitto<u32> = Mosquitto::new();
    let message = supervisor.start_mosquitto(failure());
    assert_eq!(message, "Error starting mosquitto: No such file or directory (os error 2)");
    assert_eq!(supervisor.get_state(), MosquittoStateValues::StoppedWithError);
    assert!(!supervisor.has_process());
    assert_eq!(supervisor.process(), None);
}

#[test]
fn start_after_failure_can_succeed() {
    let mut supervisor: Mosquitto<u32> = Mosquitto::new();
    supervisor.start_mosquitto(failure());
    assert_eq!(supervisor.get_state(), MosquittoStateValues::StoppedWithError);
    let message = supervisor.start_mosquitto(Ok(7));
    assert_eq!(message, "Mosquitto started");
    assert_eq!(supervisor.get_state(), MosquittoStateValues::Running);
    assert_eq!(supervisor.process(), Some(&7));
}

#[test]
fn failure_after_success_clears_the_handle() {
    let mut supervisor: Mosquitto<u32> = Mosquitto::new();
    supervisor.start_mosquitto(Ok(7));
    supervisor.start_mosquitto(Err("Permission denied (os error 13)".to_string()));
    assert_eq!(supervisor.get_state(), MosquittoStateValues::StoppedWithError);
    assert_eq!(supervisor.process(), None);
}

#[test]
fn last_attempt_wins() {
    let mut supervisor: Mosquitto<u32> = Mosquitto::new();
    supervisor.start_mosquitto(Ok(1));
    supervisor.start_mosquitto(Ok(2));
    assert_eq!(supervisor.get_state(), MosquittoStateValues::Running);
    assert_eq!(supervisor.process(), Some(&2));
    let mut other: Mosquitto<u32> = Mosquitto::new();
    other.start_mosquitto(failure());
    other.start_mosquitto(Ok(2));
    assert_eq!(other.get_state(), supervisor.get_state());
    assert_eq!(other.process(), supervisor.process());
}

#[test]
fn running_exactly_when_a_handle_is_held() {
    let outcomes: Vec<Result<u32, String>> =
        vec![Ok(1), failure(), failure(), Ok(2), Ok(3), failure(), Ok(4)];
    let mut supervisor: Mosquitto<u32> = Mosquitto::new();
    assert_eq!(supervisor.get_state() == MosquittoStateValues::Running, supervisor.has_process());
    for outcome in outcomes {
        supervisor.start_mosquitto(outcome);
        assert_eq!(
            supervisor.get_state() == MosquittoStateValues::Running,
            supervisor.has_process()
        );
        assert_ne!(supervisor.get_state(), MosquittoStateValues::Stopped);
    }
}

#[test]
fn reading_the_state_changes_nothing() {
    let mut supervisor: Mosquitto<u32> = Mosquitto::new();
    for _ in 0..5 {
        assert_eq!(supervisor.get_state(), MosquittoStateValues::Stopped);
    }
    supervisor.start_mosquitto(Ok(9));
    for _ in 0..5 {
        assert_eq!(supervisor.get_state(), MosquittoStateValues::Running);
        assert_eq!(supervisor.process(), Some(&9));
    }
    supervisor.start_mosquitto(failure());
    for _ in 0..5 {
        assert_eq!(supervisor.get_state(), MosquittoStateValues::StoppedWithError);
        assert_eq!(supervisor.process(), None);
    }
}

#[test]
fn empty_error_description_still_gives_the_prefix() {
    let mut supervisor: Mosquitto<u32> = Mosquitto::new();
    let message = supervisor.start_mosquitto(Err(String::new()));
    assert_eq!(message, "Error starting mosquitto: ");
}

#[test]
fn supervisor_holds_any_handle_type() {
    let mut supervisor: Mosquitto<String> = Mosquitto::new();
    supervisor.start_mosquitto(Ok("handle".to_string()));
    assert_eq!(supervisor.process().map(|handle| handle.as_str()), Some("handle"));
}

#[test]
fn states_have_their_labels() {
    assert_eq!(MosquittoStateValues::Running.to_string(), "RUNNING");
    assert_eq!(MosquittoStateValues::StoppedWithError.to_string(), "STOPPED_WITH_ERROR");
    assert_eq!(MosquittoStateValues::Stopped.to_string(), "STOPPED");
}

#[test]
fn state_is_copied_out() {
    let state = MosquittoStateValues::Running;
    let copy = state.clone();
    assert_eq!(state, copy);
    assert_ne!(copy, MosquittoStateValues::Stopped);
}

#[test]
fn command_confirms_a_spawn() {
    assert_eq!(mosquitto(Ok::<u32, String>(1)), Ok("Child process spawned successfully".to_string()));
}

#[test]
fn command_reports_a_failed_spawn() {
    assert_eq!(
        mosquitto(failure()),
        Err("Failed to spawn child process: No such file or directory (os error 2)".to_string())
    );
}

#[test]
fn command_runs_the_bundled_binary() {
    assert_eq!(bundled_binary(), "binaries/mosquitto-x86_64-unknown-linux-gnu");
}
