use secmon::clock::Zone;
use secmon::integrations::telegram::{
    check_allowlist, handle_message, parse_node, parse_node_list, parse_node_update,
    parse_result, update_pid_usable, BotRequest,
};
use secmon::integrations::{has_pid, pid_of};
use secmon::models::hub::Node;
use secmon::models::node::{
    AuthLog, AuthLogDetail, NodeDataError, NodeUpdate, Session, Timestamp, WgPeer,
};
use secmon::models::packet::ResultStatus;
use secmon::node::exec::AllowlistSource;

fn ts(secs: i64) -> Timestamp {
    Timestamp::new(secs, 0).unwrap()
}

fn node() -> Node {
    Node {
        serial: 1,
        address: "10.0.0.1:5000".to_string(),
        hostname: "alpha".to_string(),
        sessions: Ok(vec![
            Session { user: "root".to_string(), from: Some("1.2.3.4".to_string()), login: ts(3600) },
            Session { user: "al".to_string(), from: None, login: ts(7260) },
        ]),
        wg_peers: Ok(vec![WgPeer {
            interface: "wg0".to_string(),
            peer: "KEY".to_string(),
            endpoint: Some("5.6.7.8:51820".to_string()),
            latest_handshake: Some(ts(86400)),
        }]),
        last_state_update: ts(0),
        connected: true,
    }
}

fn log(detail: AuthLogDetail) -> NodeUpdate {
    NodeUpdate {
        sessions: None,
        wg_peers: None,
        auth_log: Some(Ok(AuthLog {
            time: ts(0),
            process: "su[1234]".to_string(),
            user: "bob".to_string(),
            detail,
        })),
    }
}

#[test]
fn pid_is_taken_between_brackets_without_last_character() {
    assert!(has_pid("su[1234]"));
    assert_eq!(pid_of("su[1234]"), "123");
    assert!(!has_pid("su"));
    assert!(!has_pid("su[]"));
    assert!(!has_pid("su]1["));
}

#[test]
fn updates_without_auth_log_are_not_sent() {
    let u = NodeUpdate { sessions: Some(Ok(vec![])), wg_peers: None, auth_log: None };
    assert!(update_pid_usable(&u));
    assert_eq!(parse_node_update(&node(), &u), None);
}

#[test]
fn auth_log_updates_are_described() {
    let u = log(AuthLogDetail::SshConnect(("1.2.3.4".to_string(), 22), "publickey".to_string()));
    assert_eq!(
        parse_node_update(&node(), &u).unwrap(),
        "<b>alpha</b> (<code>10.0.0.1:5000</code>)\n[SSH] <code>bob</code> connected from <code>1.2.3.4:22</code> using publickey.\n"
    );
    let u = log(AuthLogDetail::SuOpen("root".to_string()));
    assert!(update_pid_usable(&u));
    assert_eq!(
        parse_node_update(&node(), &u).unwrap(),
        "<b>alpha</b> (<code>10.0.0.1:5000</code>)\n[SU] <code>bob</code> opened session for <code>root</code> (pid=<code>123</code>).\n"
    );
    let u = log(AuthLogDetail::SuClose("root".to_string()));
    assert_eq!(
        parse_node_update(&node(), &u).unwrap(),
        "<b>alpha</b> (<code>10.0.0.1:5000</code>)\n[SU] A session for <code>root</code> was closed (pid=<code>123</code>).\n"
    );
    let u = NodeUpdate {
        sessions: None,
        wg_peers: None,
        auth_log: Some(Err(NodeDataError::Message("broken".to_string()))),
    };
    assert_eq!(
        parse_node_update(&node(), &u).unwrap(),
        "<b>alpha</b> (<code>10.0.0.1:5000</code>)\n[ERROR] Message(message=\"broken\")"
    );
}

#[test]
fn node_message_in_utc() {
    let tz = Zone::parse("UTC").unwrap();
    assert_eq!(
        parse_node(&tz, &node()),
        "✅ <b>alpha</b> (<code>10.0.0.1:5000</code>)\nsessions:\n  <code>root  </code><code>01:00  </code><code>(1.2.3.4)</code>\n  <code>al    </code><code>02:01  </code><code>(/)</code>\nwg peers:\n  <code>wg0</code>  <code>5.6.7.8:51820</code>  <code>1970-01-02 00:00:00</code>\n"
    );
}

#[test]
fn node_message_shows_errors_and_disconnection() {
    let tz = Zone::parse("Europe/Paris").unwrap();
    let mut n = node();
    n.connected = false;
    n.sessions = Err(NodeDataError::Initializing);
    n.wg_peers = Err(NodeDataError::Message("wg missing".to_string()));
    assert_eq!(
        parse_node(&tz, &n),
        "❌ <b>alpha</b> (<code>10.0.0.1:5000</code>)\nsessions: Initializing\nwg peers: wg missing\n"
    );
    n.wg_peers = Err(NodeDataError::NotMonitored);
    n.sessions = Ok(vec![]);
    assert_eq!(parse_node(&tz, &n), "❌ <b>alpha</b> (<code>10.0.0.1:5000</code>)\n");
}

#[test]
fn unknown_zone_is_refused() {
    assert!(Zone::parse("Mars/Olympus").is_none());
}

#[test]
fn node_list_is_trimmed_and_empty_list_gives_nothing() {
    let tz = Zone::parse("UTC").unwrap();
    assert_eq!(parse_node_list(&tz, &vec![]), None);
    let mut n = node();
    n.sessions = Ok(vec![]);
    n.wg_peers = Ok(vec![]);
    let mut m = node();
    m.hostname = "beta".to_string();
    m.sessions = Ok(vec![]);
    m.wg_peers = Ok(vec![]);
    assert_eq!(
        parse_node_list(&tz, &vec![n, m]).unwrap(),
        "✅ <b>alpha</b> (<code>10.0.0.1:5000</code>)\n\n✅ <b>beta</b> (<code>10.0.0.1:5000</code>)"
    );
}

#[test]
fn results_are_described() {
    let n = node();
    assert_eq!(
        parse_result(&n, &(ResultStatus::Success, "done".to_string())),
        "<b>alpha</b> (<code>10.0.0.1:5000</code>)\n✅ Success: \n<code>done</code>"
    );
    assert_eq!(
        parse_result(&n, &(ResultStatus::Failure, "  \n".to_string())),
        "<b>alpha</b> (<code>10.0.0.1:5000</code>)\n❌ Failure: <i>No output</i>"
    );
    assert_eq!(
        parse_result(&n, &(ResultStatus::Timeout, String::new())),
        "<b>alpha</b> (<code>10.0.0.1:5000</code>)\n⏰ Timeout: <i>No output</i>"
    );
    assert_eq!(
        parse_result(&n, &(ResultStatus::Pending, "x".to_string())),
        "<b>alpha</b> (<code>10.0.0.1:5000</code>)\n"
    );
}

#[test]
fn messages_are_understood() {
    assert_eq!(handle_message(true, "list"), BotRequest::ListNodes);
    assert_eq!(handle_message(true, " - "), BotRequest::ListNodes);
    assert_eq!(
        handle_message(true, "alpha"),
        BotRequest::ShowNode { query: "alpha".to_string() }
    );
    assert_eq!(
        handle_message(true, "alpha  apt   update"),
        BotRequest::Execute { node: "alpha".to_string(), label: "apt update".to_string() }
    );
    assert_eq!(
        handle_message(false, "alpha update"),
        BotRequest::Reply("Remote command execution is not enabled".to_string())
    );
    assert_eq!(
        handle_message(true, "  "),
        BotRequest::Reply("Unknown command: <code>  </code>".to_string())
    );
}

#[test]
fn bot_allowlist_matches_whole_lines() {
    let src = AllowlistSource::Lines(vec!["update".to_string(), "reboot".to_string()]);
    assert_eq!(check_allowlist("reboot", &src), Ok(()));
    assert_eq!(
        check_allowlist("upd", &src),
        Err("'upd' is not an allowed command".to_string())
    );
    assert_eq!(
        check_allowlist("x", &AllowlistSource::NotSet),
        Err("Command allowlist not set (Missing env var: COMMAND_ALLOWLIST_FILE)".to_string())
    );
}
