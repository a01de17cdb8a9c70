//! Commands the hub sends to a node: answering a state request, and
//! resolving an `Execute` label against the node's command allowlist.
//!
//! An allowlist is a text file of `label=command line` lines; the first
//! line whose label (the text before its first `=`) is the requested label
//! gives the command line (the text after that `=`), which is split into
//! words as a POSIX shell would.
use vstd::prelude::*;

use crate::models::node::{NodeState, NodeStateView};
use crate::models::packet::{
    Command, CommandView, Response, ResponseView, ResultStatus, completion_status, response_result,
    spec_streamed_result, streamed_result,
};
use crate::search::{first_index, lemma_first_index_is, lemma_first_index_none};
use crate::text::{
    chars_before, chars_equal_str, chars_of, is_char, lines, owned, prefix_before, push_chars,
    push_str, string_from_chars,
};

verus! {

/// Reply when the allowlist file is not configured.
pub const ALLOWLIST_NOT_SET: &'static str =
    "Command allowlist not set (Missing env var: COMMAND_ALLOWLIST_FILE)";

/// Where the node's allowlist stands, as the node found it.
#[derive(Debug, PartialEq)]
pub enum AllowlistSource {
    /// No allowlist file is configured.
    NotSet,
    /// The configured file could not be read.
    Unreadable { file: String, error: String },
    /// The lines of the file, up to the first line that could not be read.
    Lines(Vec<String>),
}

/// Mathematical view of an [`AllowlistSource`].
pub enum AllowlistSourceView {
    NotSet,
    Unreadable { file: Seq<char>, error: Seq<char> },
    Lines(Seq<Seq<char>>),
}

impl View for AllowlistSource {
    type V = AllowlistSourceView;

    open spec fn view(&self) -> AllowlistSourceView {
        match self {
            AllowlistSource::NotSet => AllowlistSourceView::NotSet,
            AllowlistSource::Unreadable { file, error } => AllowlistSourceView::Unreadable {
                file: file@,
                error: error@,
            },
            AllowlistSource::Lines(ls) => AllowlistSourceView::Lines(ls.deep_view()),
        }
    }
}

/// What a node does about an `Execute` request.
#[derive(Debug, PartialEq)]
pub enum ExecutePlan {
    /// Refuse, with this reason as the failed result.
    Refuse(String),
    /// Run `program` with `args`.
    Run { program: String, args: Vec<String> },
}

/// Mathematical view of an [`ExecutePlan`].
pub enum ExecutePlanView {
    Refuse(Seq<char>),
    Run { program: Seq<char>, args: Seq<Seq<char>> },
}

impl View for ExecutePlan {
    type V = ExecutePlanView;

    open spec fn view(&self) -> ExecutePlanView {
        match self {
            ExecutePlan::Refuse(m) => ExecutePlanView::Refuse(m@),
            ExecutePlan::Run { program, args } => ExecutePlanView::Run {
                program: program@,
                args: args.deep_view(),
            },
        }
    }
}

/// The view of an optional plan.
pub open spec fn plan_option_view(p: Option<ExecutePlan>) -> Option<ExecutePlanView> {
    match p {
        Some(p) => Some(p@),
        None => None,
    }
}

/// The words a POSIX shell would split `line` into (quotes and escapes
/// resolved), or `None` where `line` is not well formed (an unclosed quote,
/// a trailing backslash), as `shlex::split` computes them.
pub uninterp spec fn shell_words(line: Seq<char>) -> Option<Seq<Seq<char>>>;

/// Splits `line` into shell words.
///
/// Trusted: calls `shlex::split`, whose result depends on `line` alone;
/// the contract names that result [`shell_words`] and says nothing more of
/// it.
#[verifier::external_body]
fn split_shell_words(line: &str) -> (r: Option<Vec<String>>)
    ensures
        r.deep_view() == shell_words(line@),
{
    shlex::split(line)
}

/// The text after the first `sep` of `s` (empty when it has none), as the
/// pieces after the first of `s.split(sep)` joined again by `sep` give it.
pub open spec fn suffix_after(s: Seq<char>, sep: char) -> Seq<char> {
    match first_index(s, is_char(sep)) {
        Some(i) => s.skip(i + 1),
        None => seq![],
    }
}

/// Whether an allowlist line carries `label`.
pub open spec fn has_label(label: Seq<char>) -> spec_fn(Seq<char>) -> bool {
    |line: Seq<char>| prefix_before(line, '=') == label
}

/// Reply when the allowlist file cannot be read.
pub open spec fn unreadable_message(file: Seq<char>, error: Seq<char>) -> Seq<char> {
    "Unable to read '"@ + file + "' (COMMAND_ALLOWLIST_FILE): "@ + error
}

/// Reply when a command line cannot be split into words.
pub open spec fn unparsable_message(label: Seq<char>) -> Seq<char> {
    "Failed to parse command for '"@ + label + "'"@
}

/// Reply when no allowlist line carries the label.
pub open spec fn not_allowed_message(label: Seq<char>) -> Seq<char> {
    "'"@ + label + "' is not an allowed command"@
}

/// The plan for the command line of `label`, given its shell words:
/// refuse when it could not be split, else run its first word with the
/// others as arguments.
pub open spec fn spec_plan_for_words(label: Seq<char>, words: Option<Seq<Seq<char>>>) -> ExecutePlanView
    recommends
        words matches Some(w) ==> w.len() > 0,
{
    match words {
        None => ExecutePlanView::Refuse(unparsable_message(label)),
        Some(w) => ExecutePlanView::Run { program: w[0], args: w.skip(1) },
    }
}

/// The plan for an `Execute` of `label` against the allowlist `source`;
/// `None` where the matching command line has no word at all, which gives
/// nothing to run.
pub open spec fn spec_execute_plan(label: Seq<char>, source: AllowlistSourceView) -> Option<
    ExecutePlanView,
> {
    match source {
        AllowlistSourceView::NotSet => Some(ExecutePlanView::Refuse(ALLOWLIST_NOT_SET@)),
        AllowlistSourceView::Unreadable { file, error } => Some(
            ExecutePlanView::Refuse(unreadable_message(file, error)),
        ),
        AllowlistSourceView::Lines(ls) => match first_index(ls, has_label(label)) {
            None => Some(ExecutePlanView::Refuse(not_allowed_message(label))),
            Some(i) => {
                let words = shell_words(suffix_after(ls[i], '='));
                if words is Some && words->0.len() == 0 {
                    None
                } else {
                    Some(spec_plan_for_words(label, words))
                }
            },
        },
    }
}

/// The text after the first `sep` of `s`.
pub fn chars_after(s: &Vec<char>, sep: char) -> (r: Vec<char>)
    ensures
        r@ == suffix_after(s@, sep),
{
    let mut i: usize = 0;
    while i < s.len()
        invariant
            i <= s@.len(),
            forall|j: int| 0 <= j < i ==> #[trigger] s@[j] != sep,
        decreases s@.len() - i,
    {
        if s[i] == sep {
            proof {
                lemma_first_index_is(s@, is_char(sep), i as int);
            }
            let mut r: Vec<char> = Vec::new();
            let mut k: usize = i + 1;
            while k < s.len()
                invariant
                    i + 1 <= k <= s@.len(),
                    r@ == s@.subrange(i + 1, k as int),
                decreases s@.len() - k,
            {
                r.push(s[k]);
                k = k + 1;
                assert(r@ == s@.subrange(i + 1, k as int));
            }
            return r;
        }
        i = i + 1;
    }
    proof {
        lemma_first_index_none(s@, is_char(sep));
    }
    Vec::new()
}

/// Returns the plan for the command line of `label` given its shell words
/// (`None` when the line could not be split): refuse, or run the first word
/// with the others as arguments.
pub fn plan_for_words(label: &str, words: Option<Vec<String>>) -> (r: ExecutePlan)
    requires
        words matches Some(w) ==> w@.len() > 0,
    ensures
        r@ == spec_plan_for_words(label@, words.deep_view()),
{
    match words {
        None => {
            let mut m: Vec<char> = Vec::new();
            push_str(&mut m, "Failed to parse command for '");
            push_str(&mut m, label);
            push_str(&mut m, "'");
            ExecutePlan::Refuse(string_from_chars(&m))
        },
        Some(w) => {
            let mut program = String::new();
            let mut args: Vec<String> = Vec::new();
            let mut i: usize = 0;
            while i < w.len()
                invariant
                    w@.len() > 0,
                    i <= w@.len(),
                    i > 0 ==> program@ == w@[0]@,
                    i > 0 ==> args.deep_view() == w.deep_view().subrange(1, i as int),
                    i == 0 ==> args@.len() == 0,
                decreases w@.len() - i,
            {
                if i == 0 {
                    program = w[0].clone();
                } else {
                    args.push(w[i].clone());
                    assert(args.deep_view() == w.deep_view().subrange(1, i + 1));
                }
                i = i + 1;
            }
            assert(w.deep_view().skip(1) == w.deep_view().subrange(1, w@.len() as int));
            ExecutePlan::Run { program, args }
        },
    }
}

/// Returns the plan for an `Execute` of `label` against the allowlist
/// `source`: the first line carrying `label` gives the command line, which
/// is split into shell words; `None` where those words are none at all
/// (nothing to run).
pub fn resolve_execute(label: &str, source: &AllowlistSource) -> (r: Option<ExecutePlan>)
    ensures
        plan_option_view(r) == spec_execute_plan(label@, source@),
{
    match source {
        AllowlistSource::NotSet => Some(ExecutePlan::Refuse(owned(ALLOWLIST_NOT_SET))),
        AllowlistSource::Unreadable { file, error } => {
            let mut m: Vec<char> = Vec::new();
            push_str(&mut m, "Unable to read '");
            push_str(&mut m, file.as_str());
            push_str(&mut m, "' (COMMAND_ALLOWLIST_FILE): ");
            push_str(&mut m, error.as_str());
            Some(ExecutePlan::Refuse(string_from_chars(&m)))
        },
        AllowlistSource::Lines(ls) => {
            let ghost lsv = ls.deep_view();
            let mut i: usize = 0;
            while i < ls.len()
                invariant
                    i <= ls@.len(),
                    lsv == ls.deep_view(),
                    source@ == AllowlistSourceView::Lines(lsv),
                    forall|j: int| 0 <= j < i ==> !(#[trigger] has_label(label@)(lsv[j])),
                decreases ls@.len() - i,
            {
                let line = chars_of(ls[i].as_str());
                let line_label = chars_before(&line, '=');
                if chars_equal_str(&line_label, label) {
                    proof {
                        assert(lsv[i as int] == ls@[i as int]@);
                        lemma_first_index_is(lsv, has_label(label@), i as int);
                    }
                    let command = string_from_chars(&chars_after(&line, '='));
                    let words = split_shell_words(command.as_str());
                    assert(command@ == suffix_after(lsv[i as int], '='));
                    let empty = match &words {
                        Some(w) => w.len() == 0,
                        None => false,
                    };
                    if empty {
                        return None;
                    }
                    return Some(plan_for_words(label, words));
                }
                assert(lsv[i as int] == ls@[i as int]@);
                i = i + 1;
            }
            proof {
                lemma_first_index_none(lsv, has_label(label@));
            }
            let mut m: Vec<char> = Vec::new();
            push_str(&mut m, "'");
            push_str(&mut m, label);
            push_str(&mut m, "' is not an allowed command");
            Some(ExecutePlan::Refuse(string_from_chars(&m)))
        },
    }
}

/// What a node does on a command from the hub.
#[derive(Debug, PartialEq)]
pub enum NodeAction {
    /// Send these responses, in order.
    Reply(Vec<Response>),
    /// Run `program` with `args`, then answer with what [`run_responses`]
    /// makes of how the run ended, in a stream of lines when `stream` is
    /// set.
    Run { program: String, args: Vec<String>, stream: bool },
}

/// Mathematical view of a [`NodeAction`].
pub enum NodeActionView {
    Reply(Seq<ResponseView>),
    Run { program: Seq<char>, args: Seq<Seq<char>>, stream: bool },
}

impl View for NodeAction {
    type V = NodeActionView;

    open spec fn view(&self) -> NodeActionView {
        match self {
            NodeAction::Reply(rs) => NodeActionView::Reply(rs@.map_values(|x: Response| x@)),
            NodeAction::Run { program, args, stream } => NodeActionView::Run {
                program: program@,
                args: args.deep_view(),
                stream: *stream,
            },
        }
    }
}

/// The view of the outcome of an execution.
pub open spec fn result_view(result: Result<String, String>) -> Result<Seq<char>, Seq<char>> {
    match result {
        Ok(o) => Ok(o@),
        Err(e) => Err(e@),
    }
}

/// The responses that answer an execution whose outcome is `result` (a
/// refusal counts as a failed run with the reason as its text): when
/// `stream` is set, one pending `ResultStream` per line of its text, then
/// an empty one with the final status; else a single `Result`.
pub open spec fn spec_execute_responses(stream: bool, result: Result<Seq<char>, Seq<char>>) -> Seq<
    ResponseView,
> {
    let status = completion_status(result is Ok);
    let text = match result {
        Ok(o) => o,
        Err(e) => e,
    };
    if stream {
        let ls = lines(text);
        Seq::new(
            ls.len(),
            |i: int| ResponseView::ResultStream { status: ResultStatus::Pending, line: ls[i] },
        ).push(ResponseView::ResultStream { status, line: seq![] })
    } else {
        seq![ResponseView::Result { status, output: text }]
    }
}

/// What a node does on `command` with state `state` and command allowlist
/// `source`: a state request is answered with the state; an execution is
/// refused with the allowlist's reason, or runs the program of the first
/// allowlist line carrying its label. (The allowlist is read for
/// executions only.)
pub open spec fn spec_node_action(
    command: CommandView,
    state: NodeStateView,
    source: AllowlistSourceView,
) -> NodeActionView {
    match command {
        CommandView::NodeState => NodeActionView::Reply(seq![ResponseView::NodeState(state)]),
        CommandView::Execute { command_label, stream } => match spec_execute_plan(
            command_label,
            source,
        ) {
            Some(ExecutePlanView::Refuse(reason)) => NodeActionView::Reply(
                spec_execute_responses(stream, Err(reason)),
            ),
            Some(ExecutePlanView::Run { program, args }) => NodeActionView::Run {
                program,
                args,
                stream,
            },
            None => NodeActionView::Reply(seq![]),
        },
    }
}

/// Whether a node can act on `command` with the allowlist `source`: not an
/// execution whose allowlist line gives no word to run.
pub open spec fn command_actionable(command: CommandView, source: AllowlistSourceView) -> bool {
    match command {
        CommandView::Execute { command_label, .. } => spec_execute_plan(command_label, source) is Some,
        CommandView::NodeState => true,
    }
}

/// Whether the node reads its command allowlist to act on `command`: only
/// for an execution.
pub fn needs_allowlist(command: &Command) -> (r: bool)
    ensures
        r == (command@ is Execute),
{
    match command {
        Command::Execute { .. } => true,
        Command::NodeState => false,
    }
}

/// Whether a node can act on `command` with the allowlist `source` (see
/// [`command_actionable`]).
pub fn can_act_on(command: &Command, source: &AllowlistSource) -> (r: bool)
    ensures
        r == command_actionable(command@, source@),
{
    match command {
        Command::Execute { command_label, .. } => resolve_execute(
            command_label.as_str(),
            source,
        ).is_some(),
        Command::NodeState => true,
    }
}

/// Handles a command from the hub: a state request is answered with the
/// current node state; an execution is resolved against the command
/// allowlist `source` into a refusal, answered at once, or a program to
/// run. `source` is not consulted for a state request.
pub fn handle_command(command: &Command, node_state: &NodeState, source: &AllowlistSource) -> (r:
    NodeAction)
    requires
        command_actionable(command@, source@),
    ensures
        r@ == spec_node_action(command@, node_state@, source@),
{
    match command {
        Command::NodeState => {
            let mut v: Vec<Response> = Vec::new();
            v.push(Response::NodeState(node_state.clone()));
            assert(v@.map_values(|x: Response| x@) =~= seq![ResponseView::NodeState(node_state@)]);
            NodeAction::Reply(v)
        },
        Command::Execute { command_label, stream } => {
            match resolve_execute(command_label.as_str(), source) {
                Some(ExecutePlan::Refuse(reason)) => NodeAction::Reply(
                    execute_responses(*stream, Err(reason)),
                ),
                Some(ExecutePlan::Run { program, args }) => NodeAction::Run {
                    program,
                    args,
                    stream: *stream,
                },
                None => NodeAction::Reply(Vec::new()),
            }
        },
    }
}

/// Returns the responses that answer an execution whose outcome is
/// `result`, streamed or not.
pub fn execute_responses(stream: bool, result: Result<String, String>) -> (r: Vec<Response>)
    ensures
        r@.map_values(|x: Response| x@) == spec_execute_responses(stream, result_view(result)),
{
    if stream {
        let r = streamed_result(result);
        assert(spec_streamed_result(result) =~= spec_execute_responses(stream, result_view(result)));
        r
    } else {
        let mut r: Vec<Response> = Vec::new();
        r.push(response_result(result));
        assert(r@.map_values(|x: Response| x@) =~= spec_execute_responses(stream, result_view(result)));
        r
    }
}

/// Returns the responses that answer the run of `program` that ended with
/// `outcome`: its result (see [`exec`]), streamed or not.
pub fn run_responses(program: &str, stream: bool, outcome: RunOutcome) -> (r: Vec<Response>)
    ensures
        r@.map_values(|x: Response| x@) == spec_execute_responses(
            stream,
            spec_exec(program@, outcome@),
        ),
{
    let result = exec(program, outcome);
    assert(result_view(result) == spec_exec(program@, outcome@));
    execute_responses(stream, result)
}

/// How the error of `str::from_utf8` renders for `bytes`.
pub uninterp spec fn utf8_error_text(bytes: Seq<u8>) -> Seq<char>;

/// Decodes `bytes` as UTF-8 text.
///
/// Trusted: calls `std::str::from_utf8`, which, as its documentation
/// says, succeeds exactly on valid UTF-8 and then yields the encoded
/// characters; its error is rendered with `Display`, and that text is
/// named by [`utf8_error_text`].
#[verifier::external_body]
fn utf8_text(bytes: &Vec<u8>) -> (r: Result<String, String>)
    ensures
        match r {
            Ok(s) => vstd::utf8::valid_utf8(bytes@) && s@ == vstd::utf8::decode_utf8(bytes@),
            Err(e) => !vstd::utf8::valid_utf8(bytes@) && e@ == utf8_error_text(bytes@),
        },
{
    std::str::from_utf8(bytes.as_slice()).map(|s| s.to_owned()).map_err(|e| e.to_string())
}

/// How a run of a program ended, as the node saw it.
#[derive(Debug, PartialEq)]
pub enum RunOutcome {
    /// The program could not be started, for this reason.
    SpawnFailed(String),
    /// The program ran: whether it exited successfully, and what it printed
    /// on its standard output and error output.
    Finished { success: bool, stdout: Vec<u8>, stderr: Vec<u8> },
}

/// Mathematical view of a [`RunOutcome`].
pub enum RunOutcomeView {
    SpawnFailed(Seq<char>),
    Finished { success: bool, stdout: Seq<u8>, stderr: Seq<u8> },
}

impl View for RunOutcome {
    type V = RunOutcomeView;

    open spec fn view(&self) -> RunOutcomeView {
        match self {
            RunOutcome::SpawnFailed(e) => RunOutcomeView::SpawnFailed(e@),
            RunOutcome::Finished { success, stdout, stderr } => RunOutcomeView::Finished {
                success: *success,
                stdout: stdout@,
                stderr: stderr@,
            },
        }
    }
}

/// The result of running `program`: its standard output when it
/// succeeded, else the reason it failed (its trimmed error output, when
/// that is text).
pub open spec fn spec_exec(program: Seq<char>, outcome: RunOutcomeView) -> Result<Seq<char>, Seq<char>> {
    match outcome {
        RunOutcomeView::SpawnFailed(e) => Err("Failed to execute '"@ + program + "': "@ + e),
        RunOutcomeView::Finished { success, stdout, stderr } => if !success {
            Err(
                "Command '"@ + program + "' did not succeed: "@ + if vstd::utf8::valid_utf8(stderr) {
                    crate::text::trim(vstd::utf8::decode_utf8(stderr))
                } else {
                    "Unable to parse stderr"@
                },
            )
        } else if vstd::utf8::valid_utf8(stdout) {
            Ok(vstd::utf8::decode_utf8(stdout))
        } else {
            Err("Unable to parse stdout: "@ + utf8_error_text(stdout))
        },
    }
}

/// Returns the result of running `program`, from how its run ended.
pub fn exec(program: &str, outcome: RunOutcome) -> (r: Result<String, String>)
    ensures
        match spec_exec(program@, outcome@) {
            Ok(o) => r matches Ok(x) && x@ == o,
            Err(e) => r matches Err(x) && x@ == e,
        },
{
    match outcome {
        RunOutcome::SpawnFailed(e) => {
            let mut m: Vec<char> = Vec::new();
            push_str(&mut m, "Failed to execute '");
            push_str(&mut m, program);
            push_str(&mut m, "': ");
            push_str(&mut m, e.as_str());
            Err(string_from_chars(&m))
        },
        RunOutcome::Finished { success, stdout, stderr } => {
            if !success {
                let mut m: Vec<char> = Vec::new();
                push_str(&mut m, "Command '");
                push_str(&mut m, program);
                push_str(&mut m, "' did not succeed: ");
                match utf8_text(&stderr) {
                    Ok(t) => {
                        let c = chars_of(t.as_str());
                        let tr = crate::text::trim_chars(&c);
                        push_chars(&mut m, &tr);
                    },
                    Err(_) => push_str(&mut m, "Unable to parse stderr"),
                }
                Err(string_from_chars(&m))
            } else {
                match utf8_text(&stdout) {
                    Ok(t) => Ok(t),
                    Err(e) => {
                        let mut m: Vec<char> = Vec::new();
                        push_str(&mut m, "Unable to parse stdout: ");
                        push_str(&mut m, e.as_str());
                        Err(string_from_chars(&m))
                    },
                }
            }
        },
    }
}

} // verus!
