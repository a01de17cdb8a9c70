//! Discord webhook integration: the embeds it posts about node updates.
use vstd::prelude::*;

use crate::display::node_data_error_text;
use crate::integrations::{pid_of, pid_text};
use crate::integrations::telegram::{auth_log_pid_ok, origin_text, update_pid_ok};
use crate::models::hub::{Node, NodeView};
use crate::models::node::{AuthLogDetail, AuthLogDetailView, AuthLogView, NodeUpdate, NodeUpdateView};
use crate::text::{owned, push_decimal, push_str, string_from_chars};

verus! {

/// A field of an embed.
#[derive(Debug, PartialEq)]
pub struct EmbedField {
    pub name: String,
    pub value: String,
    pub inline: bool,
}

/// Mathematical view of an [`EmbedField`].
pub struct EmbedFieldView {
    pub name: Seq<char>,
    pub value: Seq<char>,
    pub inline: bool,
}

impl View for EmbedField {
    type V = EmbedFieldView;

    open spec fn view(&self) -> EmbedFieldView {
        EmbedFieldView { name: self.name@, value: self.value@, inline: self.inline }
    }
}

/// A Discord embed: a title, a description and fields.
#[derive(Debug, PartialEq)]
pub struct Embed {
    pub title: String,
    pub description: String,
    pub fields: Vec<EmbedField>,
}

/// Mathematical view of an [`Embed`].
pub struct EmbedView {
    pub title: Seq<char>,
    pub description: Seq<char>,
    pub fields: Seq<EmbedFieldView>,
}

impl View for Embed {
    type V = EmbedView;

    open spec fn view(&self) -> EmbedView {
        EmbedView {
            title: self.title@,
            description: self.description@,
            fields: self.fields@.map_values(|f: EmbedField| f@),
        }
    }
}

/// The body of a webhook post: message content and embeds.
#[derive(Debug, PartialEq)]
pub struct Webhook {
    pub content: String,
    pub embeds: Vec<Embed>,
}

/// Mathematical view of a [`Webhook`].
pub struct WebhookView {
    pub content: Seq<char>,
    pub embeds: Seq<EmbedView>,
}

impl View for Webhook {
    type V = WebhookView;

    open spec fn view(&self) -> WebhookView {
        WebhookView { content: self.content@, embeds: self.embeds@.map_values(|e: Embed| e@) }
    }
}

impl Embed {
    /// An embed with empty title and description and no fields.
    pub fn new() -> (r: Embed)
        ensures
            r@ == (EmbedView { title: seq![], description: seq![], fields: seq![] }),
    {
        let r = Embed { title: String::new(), description: String::new(), fields: Vec::new() };
        assert(r@.fields =~= Seq::<EmbedFieldView>::empty());
        r
    }
}

/// An inline field.
pub open spec fn inline_field(name: Seq<char>, value: Seq<char>) -> EmbedFieldView {
    EmbedFieldView { name, value, inline: true }
}

/// `s` in backticks (inline code).
pub open spec fn ticked(s: Seq<char>) -> Seq<char> {
    "`"@ + s + "`"@
}

/// The title and fields of the embed about an auth log entry.
pub open spec fn auth_log_embed(a: AuthLogView) -> (Seq<char>, Seq<EmbedFieldView>) {
    match a.detail {
        AuthLogDetailView::SshConnect(host, port, method) => (
            "SSH connection opened"@,
            seq![
                inline_field("User"@, a.user),
                inline_field("Method"@, method),
                inline_field("Origin"@, ticked(origin_text(host, port))),
            ],
        ),
        AuthLogDetailView::SshFailPassword(host, port) => (
            ":warning: FAILED SSH PASSWORD LOGIN"@,
            seq![
                inline_field("User"@, a.user),
                inline_field("Origin"@, ticked(origin_text(host, port))),
            ],
        ),
        AuthLogDetailView::SshDisconnect(host, port) => (
            "SSH connection closed"@,
            seq![
                inline_field("User"@, a.user),
                inline_field("Origin"@, ticked(origin_text(host, port))),
            ],
        ),
        AuthLogDetailView::SuOpen(t) => (
            "SU session opened"@,
            seq![
                inline_field("User"@, a.user),
                inline_field("Target"@, t),
                inline_field("PID"@, ticked(pid_text(a.process))),
            ],
        ),
        AuthLogDetailView::SuFail(t) => (
            ":warning: FAILED SU SESSION OPEN"@,
            seq![
                inline_field("User"@, a.user),
                inline_field("Target"@, t),
                inline_field("PID"@, ticked(pid_text(a.process))),
            ],
        ),
        AuthLogDetailView::SuClose(t) => (
            "SU session closed"@,
            seq![inline_field("Target"@, t), inline_field("PID"@, ticked(pid_text(a.process)))],
        ),
    }
}

/// The description of an embed about `n`: hostname in bold, address in
/// code.
pub open spec fn embed_description(n: NodeView) -> Seq<char> {
    "**"@ + n.hostname + "** (`"@ + n.address + "`)"@
}

/// The embed about an update of a node: only auth log entries (or their
/// errors) are worth posting.
pub open spec fn spec_update_embed(n: NodeView, u: NodeUpdateView) -> Option<EmbedView> {
    match u.auth_log {
        None => None,
        Some(Ok(a)) => Some(
            EmbedView {
                title: auth_log_embed(a).0,
                description: embed_description(n),
                fields: auth_log_embed(a).1,
            },
        ),
        Some(Err(e)) => Some(
            EmbedView {
                title: "ERROR"@,
                description: embed_description(n) + "\n\n`"@ + node_data_error_text(e),
                fields: seq![],
            },
        ),
    }
}

/// The view of an optional embed.
pub open spec fn opt_embed_view(e: Option<Embed>) -> Option<EmbedView> {
    match e {
        Some(e) => Some(e@),
        None => None,
    }
}

fn field(name: &str, value: String) -> (r: EmbedField)
    ensures
        r@ == inline_field(name@, value@),
{
    EmbedField { name: owned(name), value, inline: true }
}

fn ticked_text(s: &str) -> (r: String)
    ensures
        r@ == ticked(s@),
{
    let mut out: Vec<char> = Vec::new();
    push_str(&mut out, "`");
    push_str(&mut out, s);
    push_str(&mut out, "`");
    string_from_chars(&out)
}

fn ticked_origin(host: &String, port: u16) -> (r: String)
    ensures
        r@ == ticked(origin_text(host@, port)),
{
    let mut out: Vec<char> = Vec::new();
    push_str(&mut out, "`");
    push_str(&mut out, host.as_str());
    push_str(&mut out, ":");
    push_decimal(&mut out, port as u64);
    push_str(&mut out, "`");
    string_from_chars(&out)
}

fn auth_log_fields(a: &crate::models::node::AuthLog) -> (r: (String, Vec<EmbedField>))
    requires
        auth_log_pid_ok(a@),
    ensures
        r.0@ == auth_log_embed(a@).0,
        r.1@.map_values(|f: EmbedField| f@) == auth_log_embed(a@).1,
{
    let mut fields: Vec<EmbedField> = Vec::new();
    let title = match &a.detail {
        AuthLogDetail::SshConnect((host, port), method) => {
            fields.push(field("User", a.user.clone()));
            fields.push(field("Method", method.clone()));
            fields.push(field("Origin", ticked_origin(host, *port)));
            owned("SSH connection opened")
        },
        AuthLogDetail::SshFailPassword((host, port)) => {
            fields.push(field("User", a.user.clone()));
            fields.push(field("Origin", ticked_origin(host, *port)));
            owned(":warning: FAILED SSH PASSWORD LOGIN")
        },
        AuthLogDetail::SshDisconnect((host, port)) => {
            fields.push(field("User", a.user.clone()));
            fields.push(field("Origin", ticked_origin(host, *port)));
            owned("SSH connection closed")
        },
        AuthLogDetail::SuOpen(t) => {
            fields.push(field("User", a.user.clone()));
            fields.push(field("Target", t.clone()));
            let pid = pid_of(a.process.as_str());
            fields.push(field("PID", ticked_text(pid.as_str())));
            owned("SU session opened")
        },
        AuthLogDetail::SuFail(t) => {
            fields.push(field("User", a.user.clone()));
            fields.push(field("Target", t.clone()));
            let pid = pid_of(a.process.as_str());
            fields.push(field("PID", ticked_text(pid.as_str())));
            owned(":warning: FAILED SU SESSION OPEN")
        },
        AuthLogDetail::SuClose(t) => {
            fields.push(field("Target", t.clone()));
            let pid = pid_of(a.process.as_str());
            fields.push(field("PID", ticked_text(pid.as_str())));
            owned("SU session closed")
        },
    };
    assert(fields@.map_values(|f: EmbedField| f@) =~= auth_log_embed(a@).1);
    (title, fields)
}

/// Returns the embed about an update of `node`, or `None` when the update
/// is not worth a webhook post (it carries no auth log entry).
pub fn parse_node_update(node: &Node, data: &NodeUpdate) -> (r: Option<Embed>)
    requires
        update_pid_ok(data@),
    ensures
        opt_embed_view(r) == spec_update_embed(node@, data@),
{
    match &data.auth_log {
        None => None,
        Some(res) => {
            let mut embed = Embed::new();
            let mut d: Vec<char> = Vec::new();
            push_str(&mut d, "**");
            push_str(&mut d, node.hostname.as_str());
            push_str(&mut d, "** (`");
            push_str(&mut d, node.address.as_str());
            push_str(&mut d, "`)");
            match res {
                Ok(a) => {
                    let (title, fields) = auth_log_fields(a);
                    embed.title = title;
                    embed.fields = fields;
                },
                Err(e) => {
                    embed.title = owned("ERROR");
                    push_str(&mut d, "\n\n`");
                    let t = e.to_display_string();
                    push_str(&mut d, t.as_str());
                },
            }
            embed.description = string_from_chars(&d);
            Some(embed)
        },
    }
}

/// Returns the body of the test webhook post, with message `content`.
pub fn test_webhook(content: String) -> (r: Webhook)
    ensures
        r@ == (WebhookView {
            content: content@,
            embeds: seq![
                EmbedView {
                    title: "Test Webhook"@,
                    description: "This is a test webhook."@,
                    fields: seq![],
                },
            ],
        }),
{
    let mut embed = Embed::new();
    embed.title = owned("Test Webhook");
    embed.description = owned("This is a test webhook.");
    let mut embeds: Vec<Embed> = Vec::new();
    embeds.push(embed);
    let r = Webhook { content, embeds };
    assert(r@.embeds =~= seq![
        EmbedView {
            title: "Test Webhook"@,
            description: "This is a test webhook."@,
            fields: seq![],
        },
    ]);
    r
}

/// Returns the body of the post about an update: message `content` and
/// the embed.
pub fn webhook_for(content: String, embed: Embed) -> (r: Webhook)
    ensures
        r@ == (WebhookView { content: content@, embeds: seq![embed@] }),
{
    let mut embeds: Vec<Embed> = Vec::new();
    embeds.push(embed);
    let r = Webhook { content, embeds };
    assert(r@.embeds =~= seq![embed@]);
    r
}

/// An SSH connection that closed is posted under the title of a closed
/// connection, never under that of an opened one, with its user and
/// origin as fields.
pub proof fn lemma_disconnect_titled_closed(
    n: NodeView,
    u: NodeUpdateView,
    a: AuthLogView,
    host: Seq<char>,
    port: u16,
    method: Seq<char>,
)
    requires
        u.auth_log == Some(Ok::<AuthLogView, crate::models::node::NodeDataErrorView>(a)),
        a.detail == AuthLogDetailView::SshDisconnect(host, port),
    ensures
        spec_update_embed(n, u) matches Some(e) && e.title == "SSH connection closed"@ && e.fields
            == seq![inline_field("User"@, a.user), inline_field("Origin"@, ticked(origin_text(host, port)))],
        ({
            let opened = AuthLogView { detail: AuthLogDetailView::SshConnect(host, port, method), ..a };
            let v = NodeUpdateView { auth_log: Some(Ok(opened)), ..u };
            spec_update_embed(n, u)->0.title != spec_update_embed(n, v)->0.title
        }),
{
    reveal_strlit("SSH connection closed");
    reveal_strlit("SSH connection opened");
    assert("SSH connection closed"@[15] != "SSH connection opened"@[15]);
}

/// Whether two auth log details record the same kind of event.
pub open spec fn same_event_kind(a: AuthLogDetailView, b: AuthLogDetailView) -> bool {
    match (a, b) {
        (AuthLogDetailView::SshConnect(..), AuthLogDetailView::SshConnect(..)) => true,
        (AuthLogDetailView::SshFailPassword(..), AuthLogDetailView::SshFailPassword(..)) => true,
        (AuthLogDetailView::SshDisconnect(..), AuthLogDetailView::SshDisconnect(..)) => true,
        (AuthLogDetailView::SuOpen(..), AuthLogDetailView::SuOpen(..)) => true,
        (AuthLogDetailView::SuFail(..), AuthLogDetailView::SuFail(..)) => true,
        (AuthLogDetailView::SuClose(..), AuthLogDetailView::SuClose(..)) => true,
        _ => false,
    }
}

/// The title of an embed tells the kind of event: entries of different
/// kinds are posted under different titles, whatever node they come from.
pub proof fn lemma_embed_titles_tell_events_apart(
    n: NodeView,
    m: NodeView,
    u: NodeUpdateView,
    v: NodeUpdateView,
    a: AuthLogView,
    b: AuthLogView,
)
    requires
        u.auth_log == Some(Ok::<AuthLogView, crate::models::node::NodeDataErrorView>(a)),
        v.auth_log == Some(Ok::<AuthLogView, crate::models::node::NodeDataErrorView>(b)),
        !same_event_kind(a.detail, b.detail),
    ensures
        spec_update_embed(n, u) is Some && spec_update_embed(m, v) is Some,
        spec_update_embed(n, u)->0.title != spec_update_embed(m, v)->0.title,
{
    reveal_strlit("SSH connection opened");
    reveal_strlit(":warning: FAILED SSH PASSWORD LOGIN");
    reveal_strlit("SSH connection closed");
    reveal_strlit("SU session opened");
    reveal_strlit(":warning: FAILED SU SESSION OPEN");
    reveal_strlit("SU session closed");
    assert("SSH connection closed"@[15] != "SSH connection opened"@[15]);
    assert("SU session closed"@[11] != "SU session opened"@[11]);
    assert(":warning: FAILED SSH PASSWORD LOGIN"@.len() != ":warning: FAILED SU SESSION OPEN"@.len());
}

} // verus!
