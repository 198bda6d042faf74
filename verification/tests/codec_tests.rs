use webhook_relay::codec::{Action, Command};

#[test]
fn action_token_is_lowercase_deploy() {
    assert_eq!(Action::Deploy.token(), "deploy");
}

#[test]
fn encode_joins_action_and_project_with_one_space() {
    let c = Command { action: Action::Deploy, project: String::from("site") };
    assert_eq!(c.encode(), "deploy site");
}

#[test]
fn decode_splits_at_first_space() {
    let c = Command::decode("deploy site").unwrap();
    assert_eq!(c.action, Action::Deploy);
    assert_eq!(c.project, "site");
}

#[test]
fn decode_keeps_later_spaces_in_project() {
    let c = Command::decode("deploy a b").unwrap();
    assert_eq!(c.project, "a b");
}

#[test]
fn decode_accepts_empty_project() {
    let c = Command::decode("deploy ").unwrap();
    assert_eq!(c.project, "");
}

#[test]
fn line_without_separator_is_rejected() {
    assert!(Command::decode("deploy").is_err());
    assert!(Command::decode("").is_err());
}

#[test]
fn unknown_action_token_is_rejected() {
    assert!(Command::decode("restart site").is_err());
    assert!(Command::decode("Deploy site").is_err());
}

#[test]
fn round_trip_preserves_command() {
    let c = Command { action: Action::Deploy, project: String::from("my-site.v2") };
    let back = Command::decode(c.encode().as_str()).unwrap();
    assert_eq!(back.action, c.action);
    assert_eq!(back.project, c.project);
}

#[test]
fn round_trip_preserves_project_with_inner_spaces() {
    let c = Command { action: Action::Deploy, project: String::from("a b c") };
    let back = Command::decode(c.encode().as_str()).unwrap();
    assert_eq!(back.project, "a b c");
}
