use secmon::integrations::discord::{
    parse_node_update, test_webhook, webhook_for, Embed, EmbedField,
};
use secmon::models::hub::Node;
use secmon::models::node::{AuthLog, AuthLogDetail, NodeDataError, NodeUpdate, Timestamp};

fn node() -> Node {
    Node {
        serial: 1,
        address: "10.0.0.1:5000".to_string(),
        hostname: "alpha".to_string(),
        sessions: Ok(vec![]),
        wg_peers: Ok(vec![]),
        last_state_update: Timestamp::epoch(),
        connected: true,
    }
}

fn field(name: &str, value: &str) -> EmbedField {
    EmbedField { name: name.to_string(), value: value.to_string(), inline: true }
}

fn log(detail: AuthLogDetail) -> NodeUpdate {
    NodeUpdate {
        sessions: None,
        wg_peers: None,
        auth_log: Some(Ok(AuthLog {
            time: Timestamp::epoch(),
            process: "su[42]".to_string(),
            user: "bob".to_string(),
            detail,
        })),
    }
}

#[test]
fn new_embed_is_empty() {
    let e = Embed::new();
    assert_eq!(e, Embed { title: String::new(), description: String::new(), fields: vec![] });
}

#[test]
fn ssh_failure_embed() {
    let e = parse_node_update(
        &node(),
        &log(AuthLogDetail::SshFailPassword(("1.2.3.4".to_string(), 2222))),
    )
    .unwrap();
    assert_eq!(e.title, ":warning: FAILED SSH PASSWORD LOGIN");
    assert_eq!(e.description, "**alpha** (`10.0.0.1:5000`)");
    assert_eq!(e.fields, vec![field("User", "bob"), field("Origin", "`1.2.3.4:2222`")]);
}

#[test]
fn su_embed_has_pid() {
    let e = parse_node_update(&node(), &log(AuthLogDetail::SuFail("root".to_string()))).unwrap();
    assert_eq!(e.title, ":warning: FAILED SU SESSION OPEN");
    assert_eq!(
        e.fields,
        vec![field("User", "bob"), field("Target", "root"), field("PID", "`4`")]
    );
}

#[test]
fn error_embed_and_nothing_to_post() {
    let u = NodeUpdate {
        sessions: None,
        wg_peers: None,
        auth_log: Some(Err(NodeDataError::Initializing)),
    };
    let e = parse_node_update(&node(), &u).unwrap();
    assert_eq!(e.title, "ERROR");
    assert_eq!(e.description, "**alpha** (`10.0.0.1:5000`)\n\n`Initializing");
    assert!(e.fields.is_empty());
    let u = NodeUpdate { sessions: None, wg_peers: Some(Ok(vec![])), auth_log: None };
    assert_eq!(parse_node_update(&node(), &u), None);
}

#[test]
fn webhook_bodies() {
    let w = test_webhook("hi".to_string());
    assert_eq!(w.content, "hi");
    assert_eq!(w.embeds.len(), 1);
    assert_eq!(w.embeds[0].title, "Test Webhook");
    assert_eq!(w.embeds[0].description, "This is a test webhook.");
    let w = webhook_for(String::new(), Embed::new());
    assert_eq!(w.embeds, vec![Embed::new()]);
}
