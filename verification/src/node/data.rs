//! Parsing what the node's data sources print: `who -w` for user sessions,
//! `wg show all endpoints` and `wg show all latest-handshakes` for
//! WireGuard peers, and `journalctl -o short-iso` lines for auth events.
use vstd::prelude::*;

use crate::clock::{
    NaiveFields, local_timestamp, naive_datetime_parse, offset_datetime_parse,
    parse_naive_datetime, parse_offset_datetime,
};
use crate::models::node::{
    AuthLog, AuthLogDetail, AuthLogDetailView, AuthLogView, Session, SessionView, Timestamp, WgPeer, WgPeerView, opt_str_view,
    session_list_view, wg_peer_list_view,
};
use crate::numbers::{parse_u16, parse_u64, u16_parse_error, unsigned_decimal};
use crate::search::{first_index, lemma_first_index_is, lemma_first_index_none};
use crate::text::{
    chars_before, chars_drop_last, chars_of, lemma_chars_deep_view, owned, prefix_before,
    word_is, word_string, lines, push_chars, push_str, split_lines, split_words,
    string_from_chars, words,
};

verus! {

/// The strftime format of login times in `who` output under `LC_ALL=C.UTF-8`.
pub const WHO_TIME_FORMAT: &'static str = "%Y-%m-%d %H:%M";

/// Error text for a `who` line with fewer than three fields.
pub const WHO_INVALID_OUTPUT: &'static str = "command 'who' did not produce a valid output";

/// Prefix of the error text for a login time that does not parse.
pub const LOGIN_TIME_ERROR_PREFIX: &'static str = "unable to parse login time: ";

/// Error text for a login time that does not denote a single instant in
/// the machine's time zone.
pub const LOGIN_TIME_NOT_LOCAL: &'static str = "unable to place login time in the local time zone";

/// The fields of a `who -w` line.
pub struct WhoFields {
    pub user: Seq<char>,
    pub from: Option<Seq<char>>,
    pub login_text: Seq<char>,
}

/// Whether a word is wrapped in parentheses, like the origin `(1.2.3.4)`.
pub open spec fn is_parenthesized(w: Seq<char>) -> bool {
    w.len() > 0 && w[0] == '(' && w.last() == ')'
}

/// The fields of a `who -w` line: the user is the first word; a last word in
/// parentheses is the origin; the two words before the origin (or the last
/// two words when there is none) are the login date and time. Fewer than
/// three words is no valid line.
pub open spec fn who_fields(line: Seq<char>) -> Option<WhoFields> {
    let p = words(line);
    if p.len() < 3 {
        None
    } else {
        let c = p[p.len() - 1];
        let paren = is_parenthesized(c);
        let r: int = if paren {
            2
        } else {
            1
        };
        Some(
            WhoFields {
                user: p[0],
                from: if paren {
                    Some(c.subrange(1, c.len() - 1))
                } else {
                    None
                },
                login_text: p[p.len() - r - 1] + seq![' '] + p[p.len() - r],
            },
        )
    }
}

/// The outcome of reading one `who -w` line, up to placing its login time
/// in the local time zone: its fields with the login date and time that
/// `chrono` parses from them, or the error that stops the parse.
pub open spec fn who_line_status(line: Seq<char>) -> Result<(WhoFields, NaiveFields), Seq<char>> {
    match who_fields(line) {
        None => Err(WHO_INVALID_OUTPUT@),
        Some(f) => match naive_datetime_parse(f.login_text, WHO_TIME_FORMAT@) {
            Err(e) => Err(LOGIN_TIME_ERROR_PREFIX@ + e),
            Ok(login) => Ok((f, login)),
        },
    }
}

/// Whether reading a `who -w` line fails before its login time is placed
/// in the local time zone.
pub open spec fn who_line_fails() -> spec_fn(Seq<char>) -> bool {
    |line: Seq<char>| who_line_status(line) is Err
}

/// A `who -w` line read up to its login time.
pub struct WhoLine {
    pub user: String,
    pub from: Option<String>,
    pub login: NaiveFields,
}

/// Reads one `who -w` line up to its login time, which is parsed but not
/// yet placed in a time zone.
pub fn parse_who_line(line: &Vec<char>) -> (r: Result<WhoLine, String>)
    ensures
        match r {
            Ok(w) => who_line_status(line@) matches Ok(f) && w.user@ == f.0.user && opt_str_view(
                w.from,
            ) == f.0.from && w.login == f.1,
            Err(e) => who_line_status(line@) == Err::<(WhoFields, NaiveFields), Seq<char>>(e@),
        },
{
    let parts = split_words(line);
    let n = parts.len();
    if n < 3 {
        return Err(owned(WHO_INVALID_OUTPUT));
    }
    proof {
        lemma_chars_deep_view(&parts@[0]);
        lemma_chars_deep_view(&parts@[n - 1]);
        lemma_chars_deep_view(&parts@[n - 2]);
        lemma_chars_deep_view(&parts@[n - 3]);
    }
    let ghost p = words(line@);
    assert(p[0] == parts@[0]@ && p[n - 1] == parts@[n - 1]@ && p[n - 2] == parts@[n - 2]@ && p[n
        - 3] == parts@[n - 3]@);
    let user = string_from_chars(&parts[0]);
    let comment = &parts[n - 1];
    let clen = comment.len();
    let mut roffset: usize = 1;
    let mut from: Option<String> = None;
    if clen > 0 && comment[0] == '(' && comment[clen - 1] == ')' {
        let end = clen - 1;
        let mut inner: Vec<char> = Vec::new();
        let mut k: usize = 1;
        while k < end
            invariant
                1 <= k <= end,
                end == clen - 1,
                clen == comment@.len(),
                inner@ == comment@.subrange(1, k as int),
            decreases end - k,
        {
            inner.push(comment[k]);
            k = k + 1;
            assert(inner@ == comment@.subrange(1, k as int));
        }
        from = Some(string_from_chars(&inner));
        roffset = 2;
    }
    assert(is_parenthesized(p[n - 1]) == (roffset == 2));
    let mut login_text: Vec<char> = Vec::new();
    push_chars(&mut login_text, &parts[n - roffset - 1]);
    login_text.push(' ');
    push_chars(&mut login_text, &parts[n - roffset]);
    let login_str = string_from_chars(&login_text);
    assert(login_str@ == p[n - roffset - 1] + seq![' '] + p[n - roffset]);
    assert(who_fields(line@) == Some(
        WhoFields { user: user@, from: opt_str_view(from), login_text: login_str@ },
    ));
    match parse_naive_datetime(login_str.as_str(), WHO_TIME_FORMAT) {
        Ok(login) => Ok(WhoLine { user, from, login }),
        Err(e) => {
            let mut msg: Vec<char> = Vec::new();
            push_str(&mut msg, LOGIN_TIME_ERROR_PREFIX);
            push_str(&mut msg, e.as_str());
            Err(string_from_chars(&msg))
        },
    }
}

/// Whether `sessions` are what the lines of a `who -w` output give, up to
/// the login times, which depend on the machine's time zone.
pub open spec fn sessions_match_who(sessions: Seq<SessionView>, ls: Seq<Seq<char>>) -> bool {
    &&& sessions.len() == ls.len()
    &&& forall|i: int|
        0 <= i < ls.len() ==> (who_line_status(#[trigger] ls[i]) matches Ok(f) && sessions[i].user
            == f.0.user && sessions[i].from == f.0.from)
}

/// Returns the session of a `who -w` line whose login time was placed in
/// the local time zone at `placed` (seconds since the epoch and
/// nanoseconds, a leap second's carried into the seconds), or
/// [`LOGIN_TIME_NOT_LOCAL`] when it could not be placed.
pub fn session_from_placement(w: WhoLine, placed: Option<(i64, u32)>) -> (r: Result<Session, String>)
    requires
        placed matches Some(v) ==> v.1 < 2_000_000_000 && v.0 < i64::MAX,
    ensures
        match placed {
            Some((secs, nanos)) => r matches Ok(s) && Timestamp::spec_carried(secs, nanos) matches Some(t)
                && s@ == (SessionView { user: w.user@, from: opt_str_view(w.from), login: t }),
            None => r matches Err(e) && e@ == LOGIN_TIME_NOT_LOCAL@,
        },
{
    let login = match placed {
        Some((secs, nanos)) => Timestamp::carried(secs, nanos),
        None => None,
    };
    match login {
        Some(login) => Ok(Session { user: w.user, from: w.from, login }),
        None => Err(owned(LOGIN_TIME_NOT_LOCAL)),
    }
}

/// Parses the output of `who -w` into user sessions.
///
/// The first line that has fewer than three fields, or whose login time
/// does not parse, makes the result that line's error. Login times are
/// placed in the machine's time zone; where that fails, the result is the
/// error [`LOGIN_TIME_NOT_LOCAL`].
pub fn get_sessions(output: &str) -> (r: Result<Vec<Session>, String>)
    ensures
        r matches Ok(v) ==> sessions_match_who(session_list_view(v@), lines(output@)),
        match first_index(lines(output@), who_line_fails()) {
            Some(i) => r matches Err(e) && (who_line_status(lines(output@)[i]) == Err::<
                (WhoFields, NaiveFields),
                Seq<char>,
            >(e@) || e@ == LOGIN_TIME_NOT_LOCAL@),
            None => r matches Err(e) ==> e@ == LOGIN_TIME_NOT_LOCAL@,
        },
        lines(output@).len() == 0 ==> (r matches Ok(v) && v@.len() == 0),
{
    let text = chars_of(output);
    let ls = split_lines(&text);
    let ghost spec_ls = lines(output@);
    let mut sessions: Vec<Session> = Vec::new();
    let mut i: usize = 0;
    while i < ls.len()
        invariant
            ls.deep_view() == spec_ls,
            spec_ls == lines(output@),
            i <= ls@.len(),
            sessions@.len() == i,
            forall|j: int|
                0 <= j < i ==> (who_line_status(#[trigger] spec_ls[j]) matches Ok(f)
                    && sessions@[j]@.user == f.0.user && sessions@[j]@.from == f.0.from),
        decreases ls@.len() - i,
    {
        proof {
            lemma_chars_deep_view(&ls@[i as int]);
            assert(spec_ls[i as int] == ls@[i as int]@);
        }
        match parse_who_line(&ls[i]) {
            Err(e) => {
                proof {
                    assert forall|j: int| 0 <= j < i implies !who_line_fails()(
                        #[trigger] spec_ls[j],
                    ) by {}
                    lemma_first_index_is(spec_ls, who_line_fails(), i as int);
                }
                return Err(e);
            },
            Ok(w) => {
                let placed = local_timestamp(&w.login);
                match session_from_placement(w, placed) {
                    Ok(session) => {
                        sessions.push(session);
                    },
                    Err(e) => {
                        return Err(e);
                    },
                }
            },
        }
        i = i + 1;
    }
    proof {
        assert forall|j: int| 0 <= j < spec_ls.len() implies !who_line_fails()(
            #[trigger] spec_ls[j],
        ) by {}
        lemma_first_index_none(spec_ls, who_line_fails());
    }
    Ok(sessions)
}

/// Completes the report of a node from its collected user sessions and
/// the outputs of `wg show all endpoints` and
/// `wg show all latest-handshakes`: an error in the sessions is the
/// report's error and the WireGuard outputs are not read; otherwise the
/// report holds the sessions and the peers, or the peers' error.
pub fn report_from(
    sessions: Result<Vec<Session>, String>,
    endpoints_output: &str,
    handshakes_output: &str,
) -> (r: Result<(Vec<Session>, Vec<WgPeer>), String>)
    requires
        sessions is Ok ==> !wg_panics(endpoints_output@, handshakes_output@),
    ensures
        match sessions {
            Err(e) => r matches Err(x) && x@ == e@,
            Ok(s) => match spec_wg_peers(endpoints_output@, handshakes_output@) {
                Ok(p) => r matches Ok((s2, p2)) && session_list_view(s2@) == session_list_view(s@)
                    && wg_peer_list_view(p2@) == p,
                Err(w) => r matches Err(x) && x@ == w,
            },
        },
{
    match sessions {
        Err(e) => Err(e),
        Ok(s) => match get_wg_peers(endpoints_output, handshakes_output) {
            Err(e) => Err(e),
            Ok(p) => Ok((s, p)),
        },
    }
}

/// Collects the report of a node: its user sessions from the output of
/// `who -w`, then its WireGuard peers from the outputs of
/// `wg show all endpoints` and `wg show all latest-handshakes`; the first
/// error ends it.
pub fn get_report(who_output: &str, endpoints_output: &str, handshakes_output: &str) -> (r: Result<
    (Vec<Session>, Vec<WgPeer>),
    String,
>)
    requires
        first_index(lines(who_output@), who_line_fails()) is None ==> !wg_panics(
            endpoints_output@,
            handshakes_output@,
        ),
    ensures
        r matches Ok((s, p)) ==> sessions_match_who(session_list_view(s@), lines(who_output@))
            && spec_wg_peers(endpoints_output@, handshakes_output@) == Ok::<
            Seq<WgPeerView>,
            Seq<char>,
        >(wg_peer_list_view(p@)),
        match first_index(lines(who_output@), who_line_fails()) {
            Some(i) => r matches Err(e) && (who_line_status(lines(who_output@)[i]) == Err::<
                (WhoFields, NaiveFields),
                Seq<char>,
            >(e@) || e@ == LOGIN_TIME_NOT_LOCAL@),
            None => match spec_wg_peers(endpoints_output@, handshakes_output@) {
                Ok(_) => r matches Err(e) ==> e@ == LOGIN_TIME_NOT_LOCAL@,
                Err(w) => r matches Err(e) && (e@ == w || e@ == LOGIN_TIME_NOT_LOCAL@),
            },
        },
        lines(who_output@).len() == 0 ==> match spec_wg_peers(endpoints_output@, handshakes_output@) {
            Ok(p) => (r matches Ok((s, q)) && s@.len() == 0 && wg_peer_list_view(q@) == p),
            Err(w) => (r matches Err(e) && e@ == w),
        },
{
    let sessions = get_sessions(who_output);
    report_from(sessions, endpoints_output, handshakes_output)
}

/// Error text for a `wg` line with fewer than three fields.
pub const WG_INVALID_OUTPUT: &'static str = "command 'wg' did not produce a valid output";

/// What `wg` prints for a peer without an endpoint.
pub const NO_ENDPOINT: &'static str = "(none)";

/// Whether a line has fewer than the three fields `wg show all` prints.
pub open spec fn short_line() -> spec_fn(Seq<char>) -> bool {
    |line: Seq<char>| words(line).len() < 3
}

/// The peer a line of `wg show all endpoints` describes:
/// `<interface> <peer> <endpoint or (none)>`.
pub open spec fn endpoint_peer(line: Seq<char>) -> WgPeerView {
    let p = words(line);
    WgPeerView {
        interface: p[0],
        peer: p[1],
        endpoint: if p[2] == NO_ENDPOINT@ {
            None
        } else {
            Some(p[2])
        },
        latest_handshake: None,
    }
}

/// The handshake time a `latest-handshakes` field denotes: a positive
/// number of seconds since the epoch; 0 (never) or a text that is not a
/// `u64` gives none. (A number past `i64::MAX` is no time a system clock
/// holds: see [`wg_panics`].)
pub open spec fn handshake_time(text: Seq<char>) -> Option<Timestamp> {
    match unsigned_decimal(text) {
        Some(n) => if 0 < n <= i64::MAX {
            Some(Timestamp::spec_new(n as i64, 0))
        } else {
            None
        },
        None => None,
    }
}

/// Peers after a line `<interface> <peer> <seconds>` of
/// `wg show all latest-handshakes`: every peer with that key takes the
/// handshake time, if the line gives one.
pub open spec fn apply_handshake_line(peers: Seq<WgPeerView>, line: Seq<char>) -> Seq<WgPeerView> {
    let p = words(line);
    match handshake_time(p[2]) {
        Some(t) => peers.map_values(|w: WgPeerView| stamp_peer(p[1], t, w)),
        None => peers,
    }
}

/// Peers after all lines of `wg show all latest-handshakes`, in order.
pub open spec fn apply_handshakes(peers: Seq<WgPeerView>, ls: Seq<Seq<char>>) -> Seq<WgPeerView>
    decreases ls.len(),
{
    if ls.len() == 0 {
        peers
    } else {
        apply_handshake_line(apply_handshakes(peers, ls.drop_last()), ls.last())
    }
}

/// The WireGuard peers described by the outputs of
/// `wg show all endpoints` and `wg show all latest-handshakes`, or the error
/// for a line with fewer than three fields in either.
pub open spec fn spec_wg_peers(endpoints: Seq<char>, handshakes: Seq<char>) -> Result<
    Seq<WgPeerView>,
    Seq<char>,
> {
    let el = lines(endpoints);
    let hl = lines(handshakes);
    if (exists|i: int| 0 <= i < el.len() && short_line()(#[trigger] el[i])) || (exists|i: int|
        0 <= i < hl.len() && short_line()(#[trigger] hl[i])) {
        Err(WG_INVALID_OUTPUT@)
    } else {
        Ok(apply_handshakes(el.map_values(|l: Seq<char>| endpoint_peer(l)), hl))
    }
}

/// Whether a line of `wg show all latest-handshakes` stamps a peer listed
/// by the endpoint lines `el` with a `u64` number of seconds past
/// `i64::MAX`, which no system clock holds: the line's handshake time
/// cannot be formed.
pub open spec fn handshake_overflows(el: Seq<Seq<char>>, line: Seq<char>) -> bool {
    let p = words(line);
    &&& p.len() >= 3
    &&& exists|j: int| 0 <= j < el.len() && #[trigger] words(el[j])[1] == p[1]
    &&& unsigned_decimal(p[2]) matches Some(n) && i64::MAX < n <= u64::MAX
}

/// Whether reading the handshake lines stops at `line`: it is too short,
/// or its time cannot be formed.
pub open spec fn wg_stop(el: Seq<Seq<char>>) -> spec_fn(Seq<char>) -> bool {
    |line: Seq<char>| short_line()(line) || handshake_overflows(el, line)
}

/// Whether the `wg` outputs hold a handshake time that no system clock
/// holds, met before any line with fewer than three fields: then no report
/// of the peers can be formed.
pub open spec fn wg_panics(endpoints: Seq<char>, handshakes: Seq<char>) -> bool {
    let el = lines(endpoints);
    let hl = lines(handshakes);
    &&& forall|i: int| 0 <= i < el.len() ==> !short_line()(#[trigger] el[i])
    &&& first_index(hl, wg_stop(el)) matches Some(k) && handshake_overflows(el, hl[k])
}

/// Whether `key` is one of `keys`.
fn key_listed(keys: &Vec<Vec<char>>, key: &Vec<char>) -> (r: bool)
    ensures
        r == exists|j: int| 0 <= j < keys@.len() && #[trigger] keys@[j]@ == key@,
{
    let mut k: usize = 0;
    while k < keys.len()
        invariant
            k <= keys@.len(),
            forall|j: int| 0 <= j < k ==> #[trigger] keys@[j]@ != key@,
        decreases keys@.len() - k,
    {
        if crate::text::chars_equal(&keys[k], key) {
            return true;
        }
        k = k + 1;
    }
    false
}

/// Whether the `wg` outputs can be read into peers (see [`wg_panics`]).
pub fn wg_outputs_usable(endpoints_output: &str, handshakes_output: &str) -> (r: bool)
    ensures
        r == !wg_panics(endpoints_output@, handshakes_output@),
{
    let ghost el = lines(endpoints_output@);
    let ghost hl = lines(handshakes_output@);
    let etext = chars_of(endpoints_output);
    let els = split_lines(&etext);
    let mut keys: Vec<Vec<char>> = Vec::new();
    let mut i: usize = 0;
    while i < els.len()
        invariant
            els.deep_view() == el,
            el == lines(endpoints_output@),
            i <= els@.len(),
            keys@.len() == i,
            forall|j: int| 0 <= j < i ==> !short_line()(#[trigger] el[j]),
            forall|j: int| 0 <= j < i ==> #[trigger] keys@[j]@ == words(el[j])[1],
        decreases els@.len() - i,
    {
        proof {
            lemma_chars_deep_view(&els@[i as int]);
            assert(el[i as int] == els@[i as int]@);
        }
        let parts = split_words(&els[i]);
        if parts.len() < 3 {
            proof {
                assert(short_line()(el[i as int]));
            }
            return true;
        }
        proof {
            lemma_chars_deep_view(&parts@[1]);
        }
        let mut key: Vec<char> = Vec::new();
        push_chars(&mut key, &parts[1]);
        keys.push(key);
        i = i + 1;
    }
    let htext = chars_of(handshakes_output);
    let hls = split_lines(&htext);
    let mut i: usize = 0;
    while i < hls.len()
        invariant
            hls.deep_view() == hl,
            el == lines(endpoints_output@),
            hl == lines(handshakes_output@),
            i <= hls@.len(),
            keys@.len() == el.len(),
            forall|j: int| 0 <= j < el.len() ==> !short_line()(#[trigger] el[j]),
            forall|j: int| 0 <= j < el.len() ==> #[trigger] keys@[j]@ == words(el[j])[1],
            forall|j: int| 0 <= j < i ==> !wg_stop(el)(#[trigger] hl[j]),
        decreases hls@.len() - i,
    {
        proof {
            lemma_chars_deep_view(&hls@[i as int]);
            assert(hl[i as int] == hls@[i as int]@);
        }
        let parts = split_words(&hls[i]);
        if parts.len() < 3 {
            proof {
                assert(wg_stop(el)(hl[i as int]));
                lemma_first_index_is(hl, wg_stop(el), i as int);
            }
            return true;
        }
        proof {
            lemma_chars_deep_view(&parts@[1]);
            lemma_chars_deep_view(&parts@[2]);
        }
        let n = string_from_chars(&parts[2]);
        let big = match parse_u64(n.as_str()) {
            Ok(v) => v > i64::MAX as u64,
            Err(_) => false,
        };
        if big && key_listed(&keys, &parts[1]) {
            proof {
                let j = choose|j: int| 0 <= j < keys@.len() && #[trigger] keys@[j]@ == parts@[1]@;
                assert(words(el[j])[1] == words(hl[i as int])[1]);
                assert(handshake_overflows(el, hl[i as int]));
                lemma_first_index_is(hl, wg_stop(el), i as int);
            }
            return false;
        }
        proof {
            if handshake_overflows(el, hl[i as int]) {
                let j = choose|j: int| 0 <= j < el.len() && #[trigger] words(el[j])[1] == words(hl[i as int])[1];
                assert(keys@[j]@ == parts@[1]@);
            }
            assert(!wg_stop(el)(hl[i as int]));
        }
        i = i + 1;
    }
    proof {
        lemma_first_index_none(hl, wg_stop(el));
    }
    true
}

/// The handshake time of a `latest-handshakes` field.
fn handshake_of(text: &Vec<char>) -> (r: Option<Timestamp>)
    ensures
        r == handshake_time(text@),
{
    let s = string_from_chars(text);
    match parse_u64(s.as_str()) {
        Ok(ts) => {
            if ts != 0 && ts <= i64::MAX as u64 {
                Timestamp::new(ts as i64, 0)
            } else {
                None
            }
        },
        Err(_) => None,
    }
}

/// Gives every peer whose key is `peer` the handshake time `t`.
fn set_handshakes(peers: &mut Vec<WgPeer>, peer: &String, t: Timestamp)
    ensures
        wg_peer_list_view(final(peers)@) == wg_peer_list_view(old(peers)@).map_values(
            |w: WgPeerView| stamp_peer(peer@, t, w),
        ),
{
    let ghost old_view = wg_peer_list_view(peers@);
    let mut k: usize = 0;
    while k < peers.len()
        invariant
            k <= peers@.len(),
            peers@.len() == old_view.len(),
            forall|j: int| 0 <= j < k ==> #[trigger] peers@[j]@ == stamp_peer(peer@, t, old_view[j]),
            forall|j: int| k <= j < peers@.len() ==> #[trigger] peers@[j]@ == old_view[j],
        decreases peers@.len() - k,
    {
        if peers[k].peer == *peer {
            let mut w = peers[k].clone();
            w.latest_handshake = Some(t);
            peers.set(k, w);
        }
        k = k + 1;
    }
    assert(wg_peer_list_view(peers@) =~= old_view.map_values(
        |w: WgPeerView| stamp_peer(peer@, t, w),
    ));
}

/// A peer, stamped with handshake time `t` when its key is `peer`.
pub open spec fn stamp_peer(peer: Seq<char>, t: Timestamp, w: WgPeerView) -> WgPeerView {
    if w.peer == peer {
        WgPeerView { latest_handshake: Some(t), ..w }
    } else {
        w
    }
}

/// Parses the outputs of `wg show all endpoints` and
/// `wg show all latest-handshakes` into WireGuard peers: one peer per
/// endpoint line, then each handshake line stamps the peers with its key.
pub fn get_wg_peers(endpoints_output: &str, handshakes_output: &str) -> (r: Result<
    Vec<WgPeer>,
    String,
>)
    requires
        !wg_panics(endpoints_output@, handshakes_output@),
    ensures
        match r {
            Ok(v) => spec_wg_peers(endpoints_output@, handshakes_output@) == Ok::<
                Seq<WgPeerView>,
                Seq<char>,
            >(wg_peer_list_view(v@)),
            Err(e) => spec_wg_peers(endpoints_output@, handshakes_output@) == Err::<
                Seq<WgPeerView>,
                Seq<char>,
            >(e@),
        },
{
    let ghost el = lines(endpoints_output@);
    let ghost hl = lines(handshakes_output@);
    let etext = chars_of(endpoints_output);
    let els = split_lines(&etext);
    let mut peers: Vec<WgPeer> = Vec::new();
    let mut i: usize = 0;
    while i < els.len()
        invariant
            els.deep_view() == el,
            el == lines(endpoints_output@),
            hl == lines(handshakes_output@),
            i <= els@.len(),
            forall|j: int| 0 <= j < i ==> !short_line()(#[trigger] el[j]),
            wg_peer_list_view(peers@) == el.take(i as int).map_values(
                |l: Seq<char>| endpoint_peer(l),
            ),
        decreases els@.len() - i,
    {
        proof {
            lemma_chars_deep_view(&els@[i as int]);
            assert(el[i as int] == els@[i as int]@);
        }
        let parts = split_words(&els[i]);
        if parts.len() < 3 {
            proof {
                assert(short_line()(el[i as int]));
            }
            return Err(owned(WG_INVALID_OUTPUT));
        }
        proof {
            lemma_chars_deep_view(&parts@[0]);
            lemma_chars_deep_view(&parts@[1]);
            lemma_chars_deep_view(&parts@[2]);
        }
        let endpoint = if crate::text::chars_equal_str(&parts[2], NO_ENDPOINT) {
            None
        } else {
            Some(string_from_chars(&parts[2]))
        };
        let peer = WgPeer {
            interface: string_from_chars(&parts[0]),
            peer: string_from_chars(&parts[1]),
            endpoint,
            latest_handshake: None,
        };
        assert(peer@ == endpoint_peer(el[i as int]));
        let ghost before = wg_peer_list_view(peers@);
        peers.push(peer);
        assert(wg_peer_list_view(peers@) =~= before.push(endpoint_peer(el[i as int])));
        assert(el.take(i + 1) == el.take(i as int).push(el[i as int]));
        assert(el.take(i + 1).map_values(|l: Seq<char>| endpoint_peer(l)) =~= el.take(
            i as int,
        ).map_values(|l: Seq<char>| endpoint_peer(l)).push(endpoint_peer(el[i as int])));
        i = i + 1;
    }
    assert(el.take(el.len() as int) == el);
    let ghost initial = el.map_values(|l: Seq<char>| endpoint_peer(l));
    let htext = chars_of(handshakes_output);
    let hls = split_lines(&htext);
    let mut i: usize = 0;
    assert(hl.take(0) =~= Seq::<Seq<char>>::empty());
    while i < hls.len()
        invariant
            hls.deep_view() == hl,
            el == lines(endpoints_output@),
            hl == lines(handshakes_output@),
            initial == el.map_values(|l: Seq<char>| endpoint_peer(l)),
            i <= hls@.len(),
            forall|j: int| 0 <= j < el.len() ==> !short_line()(#[trigger] el[j]),
            forall|j: int| 0 <= j < i ==> !short_line()(#[trigger] hl[j]),
            wg_peer_list_view(peers@) == apply_handshakes(initial, hl.take(i as int)),
        decreases hls@.len() - i,
    {
        proof {
            lemma_chars_deep_view(&hls@[i as int]);
            assert(hl[i as int] == hls@[i as int]@);
        }
        let parts = split_words(&hls[i]);
        if parts.len() < 3 {
            proof {
                assert(short_line()(hl[i as int]));
            }
            return Err(owned(WG_INVALID_OUTPUT));
        }
        proof {
            lemma_chars_deep_view(&parts@[1]);
            lemma_chars_deep_view(&parts@[2]);
            assert(hl.take(i + 1).drop_last() == hl.take(i as int));
        }
        match handshake_of(&parts[2]) {
            Some(t) => {
                let key = string_from_chars(&parts[1]);
                set_handshakes(&mut peers, &key, t);
            },
            None => {},
        }
        i = i + 1;
    }
    assert(hl.take(hl.len() as int) == hl);
    Ok(peers)
}

/// The strftime format of timestamps in `journalctl -o short-iso` output.
pub const JOURNAL_TIME_FORMAT: &'static str = "%Y-%m-%dT%H:%M:%S%z";

/// The tag `pam_unix` gives su session events.
pub const PAM_SU_SESSION: &'static str = "pam_unix(su:session):";

/// The lines `parse_journalctl_log` reads: at least three words (time,
/// host, process), the process word ending in an ASCII character (its last
/// character, a colon, is cut off), and so the target of a failed `su`
/// (which ends in a closing parenthesis).
pub open spec fn journal_line_ok(line: Seq<char>) -> bool {
    let p = words(line);
    &&& p.len() >= 3
    &&& (p[2].last() as u32) < 128
    &&& (p.len() >= 8 && p[3] == "FAILED"@ && p[4] == "SU"@ && p[5] == "(to"@ ==> (p[6].last() as u32)
        < 128)
}

/// Whether `line` can be parsed as a journal line (see
/// [`journal_line_ok`]).
pub fn journal_line_usable(line: &str) -> (r: bool)
    ensures
        r == journal_line_ok(line@),
{
    let chars = chars_of(line);
    let parts = split_words(&chars);
    let ghost p = words(line@);
    assert(parts.deep_view() == p);
    proof {
        crate::text::lemma_words_nonempty(line@);
    }
    if parts.len() < 3 {
        return false;
    }
    proof {
        lemma_chars_deep_view(&parts@[2]);
        assert(p[2].len() > 0);
        assert(parts.deep_view()[2] == parts@[2].deep_view());
    }
    let n2 = parts[2].len();
    if (parts[2][n2 - 1] as u32) >= 128 {
        return false;
    }
    if parts.len() >= 8 && word_is(&parts, 3, "FAILED") && word_is(&parts, 4, "SU") && word_is(&parts, 5, "(to") {
        proof {
            lemma_chars_deep_view(&parts@[6]);
            assert(p[6].len() > 0);
            assert(parts.deep_view()[6] == parts@[6].deep_view());
        }
        let n6 = parts[6].len();
        return (parts[6][n6 - 1] as u32) < 128;
    }
    true
}

/// A port number as `str::parse::<u16>` reads it.
pub open spec fn port_of(text: Seq<char>) -> Result<u16, Seq<char>> {
    match unsigned_decimal(text) {
        Some(n) => if n <= u16::MAX {
            Ok(n as u16)
        } else {
            Err(u16_parse_error(text))
        },
        None => Err(u16_parse_error(text)),
    }
}

/// An SSH entry `<user>` from `<host>` port `<port>` with the given detail.
pub open spec fn ssh_entry(
    time: Timestamp,
    process: Seq<char>,
    user: Seq<char>,
    port: Result<u16, Seq<char>>,
    detail: spec_fn(u16) -> AuthLogDetailView,
) -> Result<Option<AuthLogView>, Seq<char>> {
    match port {
        Ok(p) => Ok(Some(AuthLogView { time, process, user, detail: detail(p) })),
        Err(e) => Err(e),
    }
}

/// The auth event the words after the process describe, if any:
/// `Accepted <method> for <user> from <host> port <port> ..`,
/// `Failed password for <user> from <host> port <port> ..`,
/// `Disconnected from user <user> <host> port <port>`,
/// `pam_unix(su:session): session opened for user <target> by <user>`,
/// `FAILED SU (to <target>) <user> ..`, or
/// `pam_unix(su:session): session closed for user <target>`.
pub open spec fn journal_event(time: Timestamp, process: Seq<char>, rest: Seq<Seq<char>>) -> Result<
    Option<AuthLogView>,
    Seq<char>,
> {
    if rest.len() >= 8 && rest[0] == "Accepted"@ && rest[2] == "for"@ && rest[4] == "from"@
        && rest[6] == "port"@ {
        ssh_entry(
            time,
            process,
            rest[3],
            port_of(rest[7]),
            |p: u16| AuthLogDetailView::SshConnect(rest[5], p, rest[1]),
        )
    } else if rest.len() >= 8 && rest[0] == "Failed"@ && rest[1] == "password"@ && rest[2]
        == "for"@ && rest[4] == "from"@ && rest[6] == "port"@ {
        ssh_entry(
            time,
            process,
            rest[3],
            port_of(rest[7]),
            |p: u16| AuthLogDetailView::SshFailPassword(rest[5], p),
        )
    } else if rest.len() == 7 && rest[0] == "Disconnected"@ && rest[1] == "from"@ && rest[2]
        == "user"@ && rest[5] == "port"@ {
        ssh_entry(
            time,
            process,
            rest[3],
            port_of(rest[6]),
            |p: u16| AuthLogDetailView::SshDisconnect(rest[4], p),
        )
    } else if rest.len() == 8 && rest[0] == PAM_SU_SESSION@ && rest[1] == "session"@ && rest[2]
        == "opened"@ && rest[3] == "for"@ && rest[4] == "user"@ && rest[6] == "by"@ {
        Ok(
            Some(
                AuthLogView {
                    time,
                    process,
                    user: prefix_before(rest[7], '('),
                    detail: AuthLogDetailView::SuOpen(prefix_before(rest[5], '(')),
                },
            ),
        )
    } else if rest.len() >= 5 && rest[0] == "FAILED"@ && rest[1] == "SU"@ && rest[2] == "(to"@ {
        Ok(
            Some(
                AuthLogView {
                    time,
                    process,
                    user: rest[4],
                    detail: AuthLogDetailView::SuFail(rest[3].drop_last()),
                },
            ),
        )
    } else if rest.len() == 6 && rest[0] == PAM_SU_SESSION@ && rest[1] == "session"@ && rest[2]
        == "closed"@ && rest[3] == "for"@ && rest[4] == "user"@ {
        Ok(
            Some(
                AuthLogView {
                    time,
                    process,
                    user: Seq::<char>::empty(),
                    detail: AuthLogDetailView::SuClose(rest[5]),
                },
            ),
        )
    } else {
        Ok(None)
    }
}

/// What a line of `journalctl -o short-iso` output gives: the auth event it
/// records, `None` for a line of no interest, or the error met reading its
/// time or port.
pub open spec fn spec_journal_entry(line: Seq<char>) -> Result<Option<AuthLogView>, Seq<char>> {
    match offset_datetime_parse(words(line)[0], JOURNAL_TIME_FORMAT@) {
        Err(e) => Err(e),
        Ok((secs, nanos)) => journal_at(line, secs, nanos),
    }
}

/// What a line of `journalctl -o short-iso` output gives once its time
/// word has been read as the instant `secs`/`nanos` (a leap second's
/// nanoseconds carried into the seconds).
pub open spec fn journal_at(line: Seq<char>, secs: i64, nanos: u32) -> Result<
    Option<AuthLogView>,
    Seq<char>,
> {
    let p = words(line);
    journal_event(
        Timestamp::spec_carried(secs, nanos)->0,
        p[2].drop_last(),
        p.subrange(3, p.len() as int),
    )
}

/// View of a parsed journal line.
pub open spec fn journal_result_view(r: Result<Option<AuthLog>, String>) -> Result<
    Option<AuthLogView>,
    Seq<char>,
> {
    match r {
        Ok(Some(l)) => Ok(Some(l@)),
        Ok(None) => Ok(None),
        Err(e) => Err(e@),
    }
}

/// The port word `k` of `parts`.
fn port_word(parts: &Vec<Vec<char>>, k: usize) -> (r: Result<u16, String>)
    requires
        k < parts@.len(),
    ensures
        match r {
            Ok(p) => port_of(parts.deep_view()[k as int]) == Ok::<u16, Seq<char>>(p),
            Err(e) => port_of(parts.deep_view()[k as int]) == Err::<u16, Seq<char>>(e@),
        },
{
    let text = word_string(parts, k);
    parse_u16(text.as_str())
}

/// Word `k` of `parts` up to its first `(`.
fn word_before_paren(parts: &Vec<Vec<char>>, k: usize) -> (r: String)
    requires
        k < parts@.len(),
    ensures
        r@ == prefix_before(parts.deep_view()[k as int], '('),
{
    proof {
        lemma_chars_deep_view(&parts@[k as int]);
    }
    let v = chars_before(&parts[k], '(');
    string_from_chars(&v)
}

/// Word `k` of `parts` without its last character.
fn word_without_last(parts: &Vec<Vec<char>>, k: usize) -> (r: String)
    requires
        k < parts@.len(),
        parts.deep_view()[k as int].len() > 0,
    ensures
        r@ == parts.deep_view()[k as int].drop_last(),
{
    proof {
        lemma_chars_deep_view(&parts@[k as int]);
    }
    let v = chars_drop_last(&parts[k]);
    string_from_chars(&v)
}

/// Whether [`parse_journalctl_log`] can read `line`: it has a first word,
/// and, where that word parses as a time, the line is one
/// [`journal_line_ok`] admits.
pub open spec fn journal_line_readable(line: Seq<char>) -> bool {
    &&& words(line).len() >= 1
    &&& offset_datetime_parse(words(line)[0], JOURNAL_TIME_FORMAT@) is Ok ==> journal_line_ok(line)
}

/// Parses a single line of journalctl log (`journalctl -o short-iso`) and
/// returns the auth event it records, if any.
pub fn parse_journalctl_log(line: &str) -> (r: Result<Option<AuthLog>, String>)
    requires
        journal_line_readable(line@),
    ensures
        journal_result_view(r) == spec_journal_entry(line@),
{
    let chars = chars_of(line);
    let parts = split_words(&chars);
    let ghost p = words(line@);
    assert(parts.deep_view() == p);
    proof {
        crate::text::lemma_words_nonempty(line@);
    }
    let time_text = word_string(&parts, 0);
    let time = parse_offset_datetime(time_text.as_str(), JOURNAL_TIME_FORMAT);
    journal_entry(line, time)
}

/// Reads a line of journalctl log as [`parse_journalctl_log`] does, where
/// it can be read (see [`journal_line_readable`]); `None` for a line it
/// cannot read.
pub fn parse_journal_line(line: &str) -> (r: Option<Result<Option<AuthLog>, String>>)
    ensures
        r is Some <==> journal_line_readable(line@),
        r matches Some(x) ==> journal_result_view(x) == spec_journal_entry(line@),
{
    let chars = chars_of(line);
    let parts = split_words(&chars);
    assert(parts.deep_view() == words(line@));
    if parts.len() < 1 {
        return None;
    }
    let time_text = word_string(&parts, 0);
    let time = parse_offset_datetime(time_text.as_str(), JOURNAL_TIME_FORMAT);
    if time.is_ok() && !journal_line_usable(line) {
        return None;
    }
    Some(parse_journalctl_log(line))
}

/// Reads a line of `journalctl -o short-iso` output whose time word has
/// been parsed into `time` (seconds since the epoch and nanoseconds, or the
/// parse's error), and returns the auth event it records, if any.
pub fn journal_entry(line: &str, time: Result<(i64, u32), String>) -> (r: Result<
    Option<AuthLog>,
    String,
>)
    requires
        time is Ok ==> journal_line_ok(line@),
        time matches Ok(v) ==> v.1 < 2_000_000_000 && v.0 < i64::MAX,
    ensures
        match time {
            Err(e) => r matches Err(x) && x@ == e@,
            Ok((secs, nanos)) => journal_result_view(r) == journal_at(line@, secs, nanos),
        },
{
    let (secs, nanos) = match time {
        Ok(v) => v,
        Err(e) => return Err(e),
    };
    let time = Timestamp::carried(secs, nanos).unwrap();
    let chars = chars_of(line);
    let parts = split_words(&chars);
    let ghost p = words(line@);
    assert(parts.deep_view() == p);
    proof {
        crate::text::lemma_words_nonempty(line@);
    }
    let n = parts.len();
    let process = word_without_last(&parts, 2);
    let ghost rest = p.subrange(3, n as int);
    assert forall|k: int| 0 <= k < n - 3 implies #[trigger] rest[k] == parts.deep_view()[k + 3] by {}
    if n >= 11 && word_is(&parts, 3, "Accepted") && word_is(&parts, 5, "for") && word_is(
        &parts,
        7,
        "from",
    ) && word_is(&parts, 9, "port") {
        let port = match port_word(&parts, 10) {
            Ok(port) => port,
            Err(e) => return Err(e),
        };
        let detail = AuthLogDetail::SshConnect(
            (word_string(&parts, 8), port),
            word_string(&parts, 4),
        );
        return Ok(Some(AuthLog { time, process, user: word_string(&parts, 6), detail }));
    }
    if n >= 11 && word_is(&parts, 3, "Failed") && word_is(&parts, 4, "password") && word_is(
        &parts,
        5,
        "for",
    ) && word_is(&parts, 7, "from") && word_is(&parts, 9, "port") {
        let port = match port_word(&parts, 10) {
            Ok(port) => port,
            Err(e) => return Err(e),
        };
        let detail = AuthLogDetail::SshFailPassword((word_string(&parts, 8), port));
        return Ok(Some(AuthLog { time, process, user: word_string(&parts, 6), detail }));
    }
    if n == 10 && word_is(&parts, 3, "Disconnected") && word_is(&parts, 4, "from") && word_is(
        &parts,
        5,
        "user",
    ) && word_is(&parts, 8, "port") {
        let port = match port_word(&parts, 9) {
            Ok(port) => port,
            Err(e) => return Err(e),
        };
        let detail = AuthLogDetail::SshDisconnect((word_string(&parts, 7), port));
        return Ok(Some(AuthLog { time, process, user: word_string(&parts, 6), detail }));
    }
    if n == 11 && word_is(&parts, 3, PAM_SU_SESSION) && word_is(&parts, 4, "session") && word_is(
        &parts,
        5,
        "opened",
    ) && word_is(&parts, 6, "for") && word_is(&parts, 7, "user") && word_is(&parts, 9, "by") {
        let detail = AuthLogDetail::SuOpen(word_before_paren(&parts, 8));
        return Ok(Some(AuthLog { time, process, user: word_before_paren(&parts, 10), detail }));
    }
    if n >= 8 && word_is(&parts, 3, "FAILED") && word_is(&parts, 4, "SU") && word_is(
        &parts,
        5,
        "(to",
    ) {
        let detail = AuthLogDetail::SuFail(word_without_last(&parts, 6));
        return Ok(Some(AuthLog { time, process, user: word_string(&parts, 7), detail }));
    }
    if n == 9 && word_is(&parts, 3, PAM_SU_SESSION) && word_is(&parts, 4, "session") && word_is(
        &parts,
        5,
        "closed",
    ) && word_is(&parts, 6, "for") && word_is(&parts, 7, "user") {
        let detail = AuthLogDetail::SuClose(word_string(&parts, 8));
        return Ok(Some(AuthLog { time, process, user: String::new(), detail }));
    }
    Ok(None)
}

/// A journal line `<time> <host> <process>: Disconnected from user <user>
/// <host> port <port>` whose time parses and whose port is a `u16` reads as
/// that user's SSH connection from that host and port closing: the user is
/// the word after `user`, the host the word before `port`, and the process
/// the third word without its colon.
pub proof fn lemma_journal_disconnect_fields(line: Seq<char>)
    requires
        words(line).len() == 10,
        words(line)[3] == "Disconnected"@,
        words(line)[4] == "from"@,
        words(line)[5] == "user"@,
        words(line)[8] == "port"@,
        offset_datetime_parse(words(line)[0], JOURNAL_TIME_FORMAT@) is Ok,
        unsigned_decimal(words(line)[9]) matches Some(n) && n <= u16::MAX,
    ensures
        spec_journal_entry(line) matches Ok(Some(a)) && a.user == words(line)[6] && a.process
            == words(line)[2].drop_last() && a.detail == AuthLogDetailView::SshDisconnect(
            words(line)[7],
            unsigned_decimal(words(line)[9])->0 as u16,
        ),
{
    let p = words(line);
    let rest = p.subrange(3, p.len() as int);
    assert(rest[0] == p[3] && rest[1] == p[4] && rest[2] == p[5] && rest[3] == p[6] && rest[4]
        == p[7] && rest[5] == p[8] && rest[6] == p[9]);
}

/// The words after the process of a journal line.
pub open spec fn journal_rest(line: Seq<char>) -> Seq<Seq<char>> {
    words(line).subrange(3, words(line).len() as int)
}

proof fn lemma_journal_keywords_differ()
    ensures
        "Accepted"@ != "Failed"@,
        "Accepted"@ != "Disconnected"@,
        "Accepted"@ != "FAILED"@,
        "Accepted"@ != PAM_SU_SESSION@,
        "Failed"@ != "Disconnected"@,
        "Failed"@ != "FAILED"@,
        "Failed"@ != PAM_SU_SESSION@,
        "Disconnected"@ != "FAILED"@,
        "Disconnected"@ != PAM_SU_SESSION@,
        "FAILED"@ != PAM_SU_SESSION@,
{
    reveal_strlit("Accepted");
    reveal_strlit("Failed");
    reveal_strlit("Disconnected");
    reveal_strlit("FAILED");
    reveal_strlit("pam_unix(su:session):");
    assert("Failed"@[1] != "FAILED"@[1]);
    assert("Accepted"@.len() != "Failed"@.len());
    assert("Accepted"@.len() != "Disconnected"@.len());
    assert("Accepted"@.len() != "FAILED"@.len());
    assert("Accepted"@.len() != PAM_SU_SESSION@.len());
    assert("Failed"@.len() != "Disconnected"@.len());
    assert("Failed"@.len() != PAM_SU_SESSION@.len());
    assert("Disconnected"@.len() != "FAILED"@.len());
    assert("Disconnected"@.len() != PAM_SU_SESSION@.len());
    assert("FAILED"@.len() != PAM_SU_SESSION@.len());
}

/// Every auth event read from a journal line carries the instant its time
/// word gives (a leap second carried into the seconds) and, as its
/// process, the third word without its final colon.
pub proof fn lemma_journal_time_and_process(line: Seq<char>)
    requires
        words(line).len() >= 3,
        offset_datetime_parse(words(line)[0], JOURNAL_TIME_FORMAT@) is Ok,
    ensures
        ({
            let v = offset_datetime_parse(words(line)[0], JOURNAL_TIME_FORMAT@)->Ok_0;
            spec_journal_entry(line) matches Ok(Some(a)) ==> a.time == Timestamp::spec_carried(
                v.0,
                v.1,
            )->0 && a.process == words(line)[2].drop_last()
        }),
{
}

/// A journal line `.. Accepted <method> for <user> from <host> port <port>
/// ..` whose time parses reads as that user's SSH connection from that host
/// and port with that method; a port that is not a `u16` is the error of
/// reading it.
pub proof fn lemma_journal_accept_fields(line: Seq<char>)
    requires
        words(line).len() >= 11,
        words(line)[3] == "Accepted"@,
        words(line)[5] == "for"@,
        words(line)[7] == "from"@,
        words(line)[9] == "port"@,
        offset_datetime_parse(words(line)[0], JOURNAL_TIME_FORMAT@) is Ok,
    ensures
        unsigned_decimal(words(line)[10]) matches Some(n) && n <= u16::MAX ==> (spec_journal_entry(
            line,
        ) matches Ok(Some(a)) && a.user == words(line)[6] && a.detail
            == AuthLogDetailView::SshConnect(
            words(line)[8],
            unsigned_decimal(words(line)[10])->0 as u16,
            words(line)[4],
        )),
        !(unsigned_decimal(words(line)[10]) matches Some(n) && n <= u16::MAX) ==> spec_journal_entry(
            line,
        ) == Err::<Option<AuthLogView>, Seq<char>>(u16_parse_error(words(line)[10])),
{
    let rest = journal_rest(line);
    assert(rest[0] == words(line)[3] && rest[1] == words(line)[4] && rest[2] == words(line)[5]
        && rest[3] == words(line)[6] && rest[4] == words(line)[7] && rest[5] == words(line)[8]
        && rest[6] == words(line)[9] && rest[7] == words(line)[10]);
}

/// A journal line `.. Failed password for <user> from <host> port <port>
/// ..` whose time parses reads as a failed password login of that user from
/// that host and port; a port that is not a `u16` is the error of reading
/// it.
pub proof fn lemma_journal_failed_password_fields(line: Seq<char>)
    requires
        words(line).len() >= 11,
        words(line)[3] == "Failed"@,
        words(line)[4] == "password"@,
        words(line)[5] == "for"@,
        words(line)[7] == "from"@,
        words(line)[9] == "port"@,
        offset_datetime_parse(words(line)[0], JOURNAL_TIME_FORMAT@) is Ok,
    ensures
        unsigned_decimal(words(line)[10]) matches Some(n) && n <= u16::MAX ==> (spec_journal_entry(
            line,
        ) matches Ok(Some(a)) && a.user == words(line)[6] && a.detail
            == AuthLogDetailView::SshFailPassword(
            words(line)[8],
            unsigned_decimal(words(line)[10])->0 as u16,
        )),
        !(unsigned_decimal(words(line)[10]) matches Some(n) && n <= u16::MAX) ==> spec_journal_entry(
            line,
        ) == Err::<Option<AuthLogView>, Seq<char>>(u16_parse_error(words(line)[10])),
{
    lemma_journal_keywords_differ();
    let rest = journal_rest(line);
    assert(rest[0] == words(line)[3] && rest[1] == words(line)[4] && rest[2] == words(line)[5]
        && rest[3] == words(line)[6] && rest[4] == words(line)[7] && rest[5] == words(line)[8]
        && rest[6] == words(line)[9] && rest[7] == words(line)[10]);
}

/// A journal line `.. pam_unix(su:session): session opened for user
/// <target>(uid=..) by <user>(uid=..)` whose time parses reads as that
/// user opening a session for that target, each name cut at its `(`.
pub proof fn lemma_journal_su_open_fields(line: Seq<char>)
    requires
        words(line).len() == 11,
        words(line)[3] == PAM_SU_SESSION@,
        words(line)[4] == "session"@,
        words(line)[5] == "opened"@,
        words(line)[6] == "for"@,
        words(line)[7] == "user"@,
        words(line)[9] == "by"@,
        offset_datetime_parse(words(line)[0], JOURNAL_TIME_FORMAT@) is Ok,
    ensures
        spec_journal_entry(line) matches Ok(Some(a)) && a.user == prefix_before(words(line)[10], '(')
            && a.detail == AuthLogDetailView::SuOpen(prefix_before(words(line)[8], '(')),
{
    lemma_journal_keywords_differ();
    let rest = journal_rest(line);
    assert(rest[0] == words(line)[3] && rest[1] == words(line)[4] && rest[2] == words(line)[5]
        && rest[3] == words(line)[6] && rest[4] == words(line)[7] && rest[5] == words(line)[8]
        && rest[6] == words(line)[9] && rest[7] == words(line)[10]);
}

/// A journal line `.. FAILED SU (to <target>) <user> ..` whose time parses
/// reads as that user failing to open a session for that target (its
/// closing parenthesis cut off).
pub proof fn lemma_journal_su_fail_fields(line: Seq<char>)
    requires
        words(line).len() >= 8,
        words(line)[3] == "FAILED"@,
        words(line)[4] == "SU"@,
        words(line)[5] == "(to"@,
        offset_datetime_parse(words(line)[0], JOURNAL_TIME_FORMAT@) is Ok,
    ensures
        spec_journal_entry(line) matches Ok(Some(a)) && a.user == words(line)[7] && a.detail
            == AuthLogDetailView::SuFail(words(line)[6].drop_last()),
{
    lemma_journal_keywords_differ();
    let rest = journal_rest(line);
    assert(rest[0] == words(line)[3] && rest[1] == words(line)[4] && rest[2] == words(line)[5]
        && rest[3] == words(line)[6] && rest[4] == words(line)[7]);
}

/// A journal line `.. pam_unix(su:session): session closed for user
/// <target>` whose time parses reads as the session of that target closing,
/// with no user.
pub proof fn lemma_journal_su_close_fields(line: Seq<char>)
    requires
        words(line).len() == 9,
        words(line)[3] == PAM_SU_SESSION@,
        words(line)[4] == "session"@,
        words(line)[5] == "closed"@,
        words(line)[6] == "for"@,
        words(line)[7] == "user"@,
        offset_datetime_parse(words(line)[0], JOURNAL_TIME_FORMAT@) is Ok,
    ensures
        spec_journal_entry(line) matches Ok(Some(a)) && a.user.len() == 0 && a.detail
            == AuthLogDetailView::SuClose(words(line)[8]),
{
    lemma_journal_keywords_differ();
    let rest = journal_rest(line);
    assert(rest[0] == words(line)[3] && rest[1] == words(line)[4] && rest[2] == words(line)[5]
        && rest[3] == words(line)[6] && rest[4] == words(line)[7] && rest[5] == words(line)[8]);
}

} // verus!
