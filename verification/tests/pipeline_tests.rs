//! End-to-end receiver scenarios: authentication, the permission gate, and
//! what (if anything) reaches the wire.

use webhook_relay::codec::Action;
use webhook_relay::dispatch::Dispatcher;
use webhook_relay::executor::{executor_step, StepOutcome};
use webhook_relay::registry::{ClientConfig, ClientEntry, Config, DispatchConfig, WebHookConfig};

fn config_with(permissions: Vec<Action>) -> Config {
    Config {
        webhooks: WebHookConfig {
            pipe: String::from("/run/deploy.pipe"),
            listen_addr: String::from("0.0.0.0"),
            listen_port: 8080,
        },
        dispatch: DispatchConfig {
            pipe: String::from("/run/deploy.pipe"),
            scripts_dir: String::from("/srv/scripts"),
        },
        clients: vec![ClientEntry {
            name: String::from("acme"),
            client: ClientConfig {
                secret: String::from("s3cret"),
                project: String::from("site"),
                permissions,
            },
        }],
    }
}

fn hex(bytes: &[u8]) -> String {
    let mut s = String::new();
    for b in bytes {
        s.push_str(&format!("{:02x}", b));
    }
    s
}

fn sign(secret: &str, body: &[u8]) -> String {
    format!("sha256={}", hex(&hmac_sha256::HMAC::mac(body, secret.as_bytes())))
}

#[test]
fn signed_permitted_deploy_reaches_the_channel_as_one_line() {
    let config = config_with(vec![Action::Deploy]);
    let auth = format!("Basic {}", base64::encode(b"acme:"));
    let sig = sign("s3cret", b"");

    let client = config.authenticate(Some(&auth), Some(&sig), b"").expect("must authenticate");
    let dispatcher = Dispatcher::new(config.webhooks.pipe.clone());
    let line = dispatcher.plan(client, Action::Deploy).expect("must be permitted");
    assert_eq!(line, "deploy site\n");

    // The reading side accepts exactly that line (its newline stripped by
    // line framing) and resolves the configured script.
    let projects = config.projects();
    let step = executor_step(&projects, config.dispatch.scripts_dir.as_str(), "deploy site");
    assert_eq!(step, StepOutcome::Execute { path: String::from("/srv/scripts/site/deploy") });
}

#[test]
fn omitted_signature_never_reaches_dispatch() {
    let config = config_with(vec![Action::Deploy]);
    let auth = format!("Basic {}", base64::encode(b"acme:"));

    // The credential is valid, yet without a signature header the request
    // stays unauthenticated; the serving layer answers 401 and no channel
    // write occurs.
    assert!(config.authenticate(Some(&auth), None, b"").is_none());
}

#[test]
fn authenticated_but_unpermitted_dispatch_is_a_silent_no_op() {
    let config = config_with(vec![]);
    let auth = format!("Basic {}", base64::encode(b"acme:"));
    let sig = sign("s3cret", b"");

    let client = config.authenticate(Some(&auth), Some(&sig), b"").expect("must authenticate");
    let dispatcher = Dispatcher::new(config.webhooks.pipe.clone());
    // No line is produced, and the caller still sees success.
    assert!(dispatcher.plan(client, Action::Deploy).is_none());
    assert_eq!(Dispatcher::conclude(None), Ok(()));
}
