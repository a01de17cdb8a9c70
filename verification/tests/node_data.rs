use secmon::models::node::{AuthLog, AuthLogDetail, NodeDataError, NodeUpdate, Timestamp, WgPeer};
use secmon::models::NodeConfig;
use secmon::node::data::{
    get_report, get_sessions, get_wg_peers, journal_entry, journal_line_usable,
    parse_journal_line, parse_journalctl_log, parse_who_line, report_from, session_from_placement, wg_outputs_usable,
    WhoLine,
};
use secmon::node::handler::{
    auth_log_update, initial_node_state, journal_failure_update, journal_stderr_update,
    journalctl_args, update_node_state,
};

#[test]
fn who_output_gives_sessions() {
    let out = "root     + pts/0        2024-01-15 12:00 (10.1.2.3)\nbob      - tty1         2024-01-15 13:30\n";
    let s = get_sessions(out).unwrap();
    assert_eq!(s.len(), 2);
    assert_eq!(s[0].user, "root");
    assert_eq!(s[0].from, Some("10.1.2.3".to_string()));
    assert_eq!(s[1].user, "bob");
    assert_eq!(s[1].from, None);
    assert_eq!(s[1].login.secs() - s[0].login.secs(), 5400);
}

#[test]
fn who_errors() {
    assert_eq!(
        get_sessions("root pts/0\n"),
        Err("command 'who' did not produce a valid output".to_string())
    );
    let e = get_sessions("root pts/0 yesterday noon\n").unwrap_err();
    assert!(e.starts_with("unable to parse login time: "));
    assert_eq!(get_sessions(""), Ok(vec![]));
}

#[test]
fn wg_output_gives_peers() {
    let endpoints = "wg0\tKEY1\t1.2.3.4:51820\nwg0\tKEY2\t(none)\n";
    let handshakes = "wg0\tKEY1\t1700000000\nwg0\tKEY2\t0\n";
    let p = get_wg_peers(endpoints, handshakes).unwrap();
    assert_eq!(
        p,
        vec![
            WgPeer {
                interface: "wg0".to_string(),
                peer: "KEY1".to_string(),
                endpoint: Some("1.2.3.4:51820".to_string()),
                latest_handshake: Timestamp::new(1700000000, 0),
            },
            WgPeer {
                interface: "wg0".to_string(),
                peer: "KEY2".to_string(),
                endpoint: None,
                latest_handshake: None,
            },
        ]
    );
    assert_eq!(
        get_wg_peers("wg0 KEY1\n", ""),
        Err("command 'wg' did not produce a valid output".to_string())
    );
}

#[test]
fn report_combines_both() {
    let r = get_report("", "wg0 K (none)\n", "").unwrap();
    assert!(r.0.is_empty());
    assert_eq!(r.1.len(), 1);
    assert!(get_report("x\n", "", "").is_err());
}

#[test]
fn journal_lines() {
    let line = "2024-05-01T10:00:00+0000 host sshd[123]: Accepted publickey for alice from 1.2.3.4 port 5000 ssh2: ED25519";
    assert!(journal_line_usable(line));
    let log = parse_journalctl_log(line).unwrap().unwrap();
    assert_eq!(
        log,
        AuthLog {
            time: Timestamp::new(1714557600, 0).unwrap(),
            process: "sshd[123]".to_string(),
            user: "alice".to_string(),
            detail: AuthLogDetail::SshConnect(("1.2.3.4".to_string(), 5000), "publickey".to_string()),
        }
    );
    let su = "2024-05-01T10:00:00+0200 host su[77]: pam_unix(su:session): session opened for user root(uid=0) by bob(uid=1000)";
    let log = parse_journalctl_log(su).unwrap().unwrap();
    assert_eq!(log.user, "bob");
    assert_eq!(log.detail, AuthLogDetail::SuOpen("root".to_string()));
    assert_eq!(log.time, Timestamp::new(1714550400, 0).unwrap());
    let fail = "2024-05-01T10:00:00+0000 host su[78]: FAILED SU (to root) bob on pts/4";
    assert_eq!(
        parse_journalctl_log(fail).unwrap().unwrap().detail,
        AuthLogDetail::SuFail("root".to_string())
    );
    let other = "2024-05-01T10:00:00+0000 host cron[1]: something else";
    assert_eq!(parse_journalctl_log(other), Ok(None));
    let bad_port = "2024-05-01T10:00:00+0000 host sshd[1]: Failed password for x from h port 99999 ssh2";
    assert_eq!(
        parse_journalctl_log(bad_port),
        Err("number too large to fit in target type".to_string())
    );
    assert!(parse_journalctl_log("garbage host sshd[1]: Accepted").is_err());
    assert!(!journal_line_usable("only two"));
}

#[test]
fn node_state_updates_report_changes_only() {
    let config = NodeConfig { reconnect: false, enable_sessions: true, enable_wg_peers: true, enable_auth_log: false };
    let mut state = initial_node_state();
    assert_eq!(state.sessions, Err(NodeDataError::Initializing));
    let (changed, u) = update_node_state(config, &mut state, Ok(vec![]), Err("no wg".to_string()));
    assert!(changed);
    assert_eq!(u.sessions, Some(Ok(vec![])));
    assert_eq!(u.wg_peers, Some(Err(NodeDataError::Message("no wg".to_string()))));
    assert_eq!(u.auth_log, None);
    let (changed, u) = update_node_state(config, &mut state, Ok(vec![]), Err("no wg".to_string()));
    assert!(!changed);
    assert_eq!(u, NodeUpdate { sessions: None, wg_peers: None, auth_log: None });
    let disabled = NodeConfig { enable_wg_peers: false, ..config };
    let (changed, u) = update_node_state(disabled, &mut state, Ok(vec![]), Ok(vec![]));
    assert!(changed);
    assert_eq!(u.wg_peers, Some(Err(NodeDataError::NotMonitored)));
    assert_eq!(state.wg_peers, Err(NodeDataError::NotMonitored));
}

#[test]
fn journal_watch_helpers() {
    let auth = NodeConfig { reconnect: false, enable_sessions: false, enable_wg_peers: false, enable_auth_log: true };
    assert_eq!(
        journalctl_args(auth),
        vec!["-f", "-n", "0", "-o", "short-iso", "-q", "-t", "sshd", "-t", "sshd-session", "-t", "su"]
    );
    let none = NodeConfig { enable_auth_log: false, ..auth };
    assert_eq!(journalctl_args(none), vec!["-f", "-n", "0", "-o", "short-iso", "-q"]);
    assert_eq!(journal_stderr_update(" \n"), None);
    assert_eq!(
        journal_stderr_update("boom"),
        Some(NodeUpdate {
            sessions: None,
            wg_peers: None,
            auth_log: Some(Err(NodeDataError::Message("Error executing journalctl: boom".to_string()))),
        })
    );
    assert_eq!(
        journal_failure_update("oops"),
        NodeUpdate {
            sessions: None,
            wg_peers: None,
            auth_log: Some(Err(NodeDataError::Message("Error processing journalctl data: oops".to_string()))),
        }
    );
    let u = auth_log_update(Err(NodeDataError::NotMonitored));
    assert_eq!(u.auth_log, Some(Err(NodeDataError::NotMonitored)));
}

fn who_line() -> WhoLine {
    WhoLine {
        user: "eve".to_string(),
        from: Some("host".to_string()),
        login: (2024, 1, 1, 0, 0, 0, 0),
    }
}

#[test]
fn placed_login_times_make_sessions() {
    let s = session_from_placement(who_line(), Some((1704067200, 0))).unwrap();
    assert_eq!(s.user, "eve");
    assert_eq!(s.from, Some("host".to_string()));
    assert_eq!(s.login, Timestamp::new(1704067200, 0).unwrap());
    let not_local = "unable to place login time in the local time zone".to_string();
    assert_eq!(session_from_placement(who_line(), None), Err(not_local));
    let leap = session_from_placement(who_line(), Some((1704067199, 1_500_000_000))).unwrap();
    assert_eq!(leap.login, Timestamp::new(1704067200, 500_000_000).unwrap());
    let far = session_from_placement(who_line(), Some((300_000_000_000, 0))).unwrap();
    assert_eq!(far.login.secs(), 300_000_000_000);
}

#[test]
fn who_lines_keep_their_login_fields() {
    let line: Vec<char> = "root     + pts/0        2024-01-15 12:34 (10.1.2.3)".chars().collect();
    let w = parse_who_line(&line).unwrap();
    assert_eq!(w.user, "root");
    assert_eq!(w.from, Some("10.1.2.3".to_string()));
    assert_eq!(w.login, (2024, 1, 15, 12, 34, 0, 0));
    let far: Vec<char> = "bob tty1 +12024-03-02 01:05".chars().collect();
    assert_eq!(parse_who_line(&far).unwrap().login, (12024, 3, 2, 1, 5, 0, 0));
}

#[test]
fn reports_follow_the_collected_sessions() {
    let s = get_sessions("").unwrap();
    let r = report_from(Ok(s), "wg0 K 1.2.3.4:1\n", "wg0 K 42\n").unwrap();
    assert!(r.0.is_empty());
    assert_eq!(r.1[0].latest_handshake, Timestamp::new(42, 0));
    assert_eq!(report_from(Err("who failed".to_string()), "", ""), Err("who failed".to_string()));
    assert_eq!(
        report_from(Ok(vec![]), "wg0\n", ""),
        Err("command 'wg' did not produce a valid output".to_string())
    );
}

#[test]
fn far_handshakes_are_kept() {
    let endpoints = "wg0 K (none)\nwg0 L (none)\n";
    let handshakes = "wg0 K 300000000000\nwg0 L 9223372036854775807\n";
    assert!(wg_outputs_usable(endpoints, handshakes));
    let p = get_wg_peers(endpoints, handshakes).unwrap();
    assert_eq!(p[0].latest_handshake, Timestamp::new(300_000_000_000, 0));
    assert_eq!(p[1].latest_handshake, Timestamp::new(i64::MAX, 0));
    assert!(p[0].displayable());
    assert!(!p[1].displayable());
}

#[test]
fn unrepresentable_handshakes_are_found() {
    let endpoints = "wg0 K (none)\n";
    assert!(!wg_outputs_usable(endpoints, "wg0 K 9223372036854775808\n"));
    assert!(wg_outputs_usable(endpoints, "wg0 Z 9223372036854775808\n"));
    assert!(wg_outputs_usable(endpoints, "wg0\nwg0 K 9223372036854775808\n"));
    assert!(!wg_outputs_usable(endpoints, "wg0 K 9223372036854775808\nwg0\n"));
    assert!(wg_outputs_usable(endpoints, "wg0 K 18446744073709551616\n"));
    assert!(wg_outputs_usable("wg0 K\n", "wg0 K 9223372036854775808\n"));
}

#[test]
fn journal_times_are_read_before_the_entry() {
    let line = "2024-05-01T10:00:00+0000 host sshd[123]: Failed password for bob from 5.6.7.8 port 22 ssh2";
    let e = journal_entry(line, Ok((1714557600, 0))).unwrap().unwrap();
    assert_eq!(e.time, Timestamp::new(1714557600, 0).unwrap());
    assert_eq!(e.user, "bob");
    let leap = journal_entry(line, Ok((1714557599, 1_250_000_000))).unwrap().unwrap();
    assert_eq!(leap.time, Timestamp::new(1714557600, 250_000_000).unwrap());
    assert_eq!(journal_entry(line, Err("bad time".to_string())), Err("bad time".to_string()));
    let far = "+12024-05-01T10:00:00+0000 host sshd[1]: Failed password for bob from 5.6.7.8 port 22 ssh2";
    assert!(journal_line_usable(far));
    let t = parse_journalctl_log(far).unwrap().unwrap().time;
    assert!(t.secs() > 253402300799);
}

#[test]
fn journal_time_errors_come_first() {
    let bad_time = "yesterday host prozeß Accepted publickey for a from h port 1 ssh2";
    assert!(!journal_line_usable(bad_time));
    let r = parse_journal_line(bad_time).unwrap();
    assert!(r.is_err());
    assert_eq!(parse_journalctl_log(bad_time), r);
    let good_time = "2024-05-01T10:00:00+0000 host prozeß x";
    assert_eq!(parse_journal_line(good_time), None);
    assert_eq!(parse_journal_line("   "), None);
    let ok = "2024-05-01T10:00:00+0000 host sshd[1]: hello";
    assert_eq!(parse_journal_line(ok), Some(Ok(None)));
}
