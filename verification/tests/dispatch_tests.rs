use webhook_relay::codec::Action;
use webhook_relay::dispatch::{DispatchError, Dispatcher, SendOutcome};
use webhook_relay::registry::ClientConfig;

fn client(permissions: Vec<Action>) -> ClientConfig {
    ClientConfig {
        secret: String::from("s3cret"),
        project: String::from("site"),
        permissions,
    }
}

#[test]
fn permitted_client_yields_exactly_one_wire_line() {
    let d = Dispatcher::new(String::from("/tmp/pipe"));
    let line = d.plan(&client(vec![Action::Deploy]), Action::Deploy);
    assert_eq!(line.unwrap(), "deploy site\n");
}

#[test]
fn unpermitted_client_yields_no_write() {
    let d = Dispatcher::new(String::from("/tmp/pipe"));
    assert!(d.plan(&client(vec![]), Action::Deploy).is_none());
}

#[test]
fn dispatcher_keeps_its_pipe_path() {
    let d = Dispatcher::new(String::from("/run/deploy.pipe"));
    assert_eq!(d.pipe, "/run/deploy.pipe");
}

#[test]
fn elapsed_deadline_concludes_as_timeout() {
    assert_eq!(
        Dispatcher::conclude(Some(SendOutcome::DeadlineElapsed)),
        Err(DispatchError::Timeout)
    );
}

#[test]
fn transport_failure_concludes_as_bad_pipe() {
    assert_eq!(
        Dispatcher::conclude(Some(SendOutcome::WriteFailed)),
        Err(DispatchError::BadPipe)
    );
}

#[test]
fn completed_send_concludes_ok() {
    assert_eq!(Dispatcher::conclude(Some(SendOutcome::Completed)), Ok(()));
}

#[test]
fn skipped_send_concludes_ok_like_a_served_one() {
    assert_eq!(Dispatcher::conclude(None), Ok(()));
}
