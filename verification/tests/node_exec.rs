use secmon::models::node::{NodeDataError, NodeState};
use secmon::models::packet::{Command, Response, ResultStatus};
use secmon::node::exec::{
    can_act_on, exec, execute_responses, handle_command, needs_allowlist, plan_for_words,
    resolve_execute, run_responses, AllowlistSource, ExecutePlan, NodeAction, RunOutcome,
};

fn lines(v: &[&str]) -> AllowlistSource {
    AllowlistSource::Lines(v.iter().map(|s| s.to_string()).collect())
}

fn run_plan(p: Option<ExecutePlan>) -> (String, Vec<String>) {
    match p {
        Some(ExecutePlan::Run { program, args }) => (program, args),
        _ => panic!("expected a run"),
    }
}

fn refusal(p: Option<ExecutePlan>) -> String {
    match p {
        Some(ExecutePlan::Refuse(m)) => m,
        _ => panic!("expected a refusal"),
    }
}

#[test]
fn allowlist_not_set_is_refused() {
    let p = resolve_execute("update", &AllowlistSource::NotSet);
    assert_eq!(
        refusal(p),
        "Command allowlist not set (Missing env var: COMMAND_ALLOWLIST_FILE)"
    );
}

#[test]
fn allowlist_unreadable_is_refused() {
    let src = AllowlistSource::Unreadable {
        file: "/etc/allow".to_string(),
        error: "NotFound".to_string(),
    };
    assert_eq!(
        refusal(resolve_execute("update", &src)),
        "Unable to read '/etc/allow' (COMMAND_ALLOWLIST_FILE): NotFound"
    );
}

#[test]
fn first_matching_label_is_run() {
    let src = lines(&["update=apt update -y", "reboot=shutdown -r", "update=echo second"]);
    let (program, args) = run_plan(resolve_execute("update", &src));
    assert_eq!(program, "apt");
    assert_eq!(args, vec!["update".to_string(), "-y".to_string()]);
}

#[test]
fn command_keeps_later_equal_signs_and_quotes() {
    let src = lines(&["set=env A=1 'B=two words'"]);
    let (program, args) = run_plan(resolve_execute("set", &src));
    assert_eq!(program, "env");
    assert_eq!(args, vec!["A=1".to_string(), "B=two words".to_string()]);
}

#[test]
fn unknown_label_is_not_allowed() {
    let src = lines(&["update=apt update -y"]);
    assert_eq!(
        refusal(resolve_execute("upd", &src)),
        "'upd' is not an allowed command"
    );
}

#[test]
fn unbalanced_quote_fails_to_parse() {
    let src = lines(&["bad=echo 'oops"]);
    assert_eq!(
        refusal(resolve_execute("bad", &src)),
        "Failed to parse command for 'bad'"
    );
}

#[test]
fn label_without_command_gives_no_plan() {
    let src = lines(&["empty="]);
    assert!(resolve_execute("empty", &src).is_none());
    let src = lines(&["empty"]);
    assert!(resolve_execute("empty", &src).is_none());
}

#[test]
fn plan_for_words_splits_program_and_arguments() {
    match plan_for_words("x", Some(vec!["ls".to_string(), "-l".to_string()])) {
        ExecutePlan::Run { program, args } => {
            assert_eq!(program, "ls");
            assert_eq!(args, vec!["-l".to_string()]);
        }
        _ => panic!("expected a run"),
    }
    match plan_for_words("x", None) {
        ExecutePlan::Refuse(m) => assert_eq!(m, "Failed to parse command for 'x'"),
        _ => panic!("expected a refusal"),
    }
}

#[test]
fn non_streaming_execution_answers_once() {
    let r = execute_responses(false, Ok("done\n".to_string()));
    assert_eq!(
        r,
        vec![Response::Result { status: ResultStatus::Success, output: "done\n".to_string() }]
    );
    let r = execute_responses(false, Err("bad".to_string()));
    assert_eq!(
        r,
        vec![Response::Result { status: ResultStatus::Failure, output: "bad".to_string() }]
    );
}

#[test]
fn streaming_execution_answers_per_line_then_closes() {
    let r = execute_responses(true, Ok("a\r\nb\n".to_string()));
    assert_eq!(
        r,
        vec![
            Response::ResultStream { status: ResultStatus::Pending, line: "a".to_string() },
            Response::ResultStream { status: ResultStatus::Pending, line: "b".to_string() },
            Response::ResultStream { status: ResultStatus::Success, line: String::new() },
        ]
    );
    let r = execute_responses(true, Err(String::new()));
    assert_eq!(
        r,
        vec![Response::ResultStream { status: ResultStatus::Failure, line: String::new() }]
    );
}

#[test]
fn state_request_is_answered_with_state() {
    let state = NodeState { sessions: Ok(vec![]), wg_peers: Err(NodeDataError::NotMonitored) };
    assert!(!needs_allowlist(&Command::NodeState));
    assert_eq!(
        handle_command(&Command::NodeState, &state, &AllowlistSource::NotSet),
        NodeAction::Reply(vec![Response::NodeState(state.clone())])
    );
}

#[test]
fn execution_without_allowlist_is_refused() {
    let state = NodeState { sessions: Ok(vec![]), wg_peers: Ok(vec![]) };
    let cmd = Command::Execute { command_label: "update".to_string(), stream: false };
    assert!(needs_allowlist(&cmd));
    assert_eq!(
        handle_command(&cmd, &state, &AllowlistSource::NotSet),
        NodeAction::Reply(vec![Response::Result {
            status: ResultStatus::Failure,
            output: "Command allowlist not set (Missing env var: COMMAND_ALLOWLIST_FILE)".to_string(),
        }])
    );
}

#[test]
fn execution_of_unknown_label_is_refused() {
    let state = NodeState { sessions: Ok(vec![]), wg_peers: Ok(vec![]) };
    let cmd = Command::Execute { command_label: "upd".to_string(), stream: true };
    assert_eq!(
        handle_command(&cmd, &state, &lines(&["update=apt update -y"])),
        NodeAction::Reply(vec![
            Response::ResultStream {
                status: ResultStatus::Pending,
                line: "'upd' is not an allowed command".to_string(),
            },
            Response::ResultStream { status: ResultStatus::Failure, line: String::new() },
        ])
    );
}

#[test]
fn execution_runs_first_matching_line() {
    let state = NodeState { sessions: Ok(vec![]), wg_peers: Ok(vec![]) };
    let cmd = Command::Execute { command_label: "update".to_string(), stream: true };
    let src = lines(&["update=apt update -y", "update=echo second"]);
    assert!(can_act_on(&cmd, &src));
    assert_eq!(
        handle_command(&cmd, &state, &src),
        NodeAction::Run {
            program: "apt".to_string(),
            args: vec!["update".to_string(), "-y".to_string()],
            stream: true,
        }
    );
    assert!(!can_act_on(&cmd, &lines(&["update="])));
    assert!(can_act_on(&Command::NodeState, &lines(&["update="])));
}

#[test]
fn run_outcomes_are_answered() {
    let ok = RunOutcome::Finished { success: true, stdout: b"up\n".to_vec(), stderr: vec![] };
    assert_eq!(
        run_responses("apt", false, ok),
        vec![Response::Result { status: ResultStatus::Success, output: "up\n".to_string() }]
    );
    assert_eq!(
        run_responses("apt", true, RunOutcome::SpawnFailed("No such file".to_string())),
        vec![
            Response::ResultStream {
                status: ResultStatus::Pending,
                line: "Failed to execute 'apt': No such file".to_string(),
            },
            Response::ResultStream { status: ResultStatus::Failure, line: String::new() },
        ]
    );
}

#[test]
fn exec_reports_each_outcome() {
    assert_eq!(
        exec("who", RunOutcome::SpawnFailed("No such file".to_string())),
        Err("Failed to execute 'who': No such file".to_string())
    );
    assert_eq!(
        exec(
            "wg",
            RunOutcome::Finished { success: false, stdout: vec![], stderr: b"  denied \n".to_vec() }
        ),
        Err("Command 'wg' did not succeed: denied".to_string())
    );
    assert_eq!(
        exec(
            "wg",
            RunOutcome::Finished { success: false, stdout: vec![], stderr: vec![0xff, 0xfe] }
        ),
        Err("Command 'wg' did not succeed: Unable to parse stderr".to_string())
    );
    assert_eq!(
        exec(
            "who",
            RunOutcome::Finished { success: true, stdout: "héllo\n".as_bytes().to_vec(), stderr: vec![] }
        ),
        Ok("héllo\n".to_string())
    );
    let bad = exec(
        "who",
        RunOutcome::Finished { success: true, stdout: vec![b'a', 0xc3], stderr: vec![] },
    );
    let msg = bad.unwrap_err();
    assert!(msg.starts_with("Unable to parse stdout: "));
    assert!(msg.len() > "Unable to parse stdout: ".len());
}
