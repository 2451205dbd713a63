//! The event router and the two workflows it delegates to: the PR-reply
//! workflow and the administrative command handler. Each function here is a
//! decision step: it consumes an inbound event, the configuration snapshot,
//! and the results the chat and repository gateways handed back, and yields
//! the next action; the gateways themselves are driven by the caller.

use vstd::prelude::*;

use crate::config::{Config, ConfigStore};
use crate::detect::{detect, detect_spec};
use crate::text::{dec_chars, has_prefix, str_eq, str_has_prefix, u64_to_string};

verus! {

/// One inbound chat message event.
pub struct Event {
    pub channel_id: u64,
    pub author_id: u64,
    pub message_id: u64,
    pub content: String,
}

/// The prefix of the administrative command surface.
pub open spec fn command_prefix() -> Seq<char> {
    "$set "@
}

/// The subcommand of a message that begins with the command prefix.
pub open spec fn subcommand_of(text: Seq<char>) -> Option<Seq<char>> {
    if has_prefix(text, command_prefix()) {
        Some(text.subrange(command_prefix().len() as int, text.len() as int))
    } else {
        None
    }
}

/// Whether the PR-reply workflow fires: a monitored channel is configured,
/// the event arrived in it, and the text is detected as a PR link.
pub open spec fn gated_pr_number(c: Config, channel_id: u64, text: Seq<char>) -> Option<u64> {
    if c.pr_channel == Some(channel_id) {
        detect_spec(text)
    } else {
        None
    }
}

/// What the router decides for one event. The two branches are evaluated
/// independently: a message may fire both.
pub struct Routing {
    pub pr_number: Option<u64>,
    pub subcommand: Option<String>,
}

/// Routes one inbound event against the configuration snapshot read under
/// the store's lock.
pub fn route(store: &ConfigStore, e: &Event) -> (r: Routing)
    ensures
        r.pr_number == gated_pr_number(store.config(), e.channel_id, e.content@),
        (r.subcommand matches Some(s) ==> subcommand_of(e.content@) == Some(s@)),
        (r.subcommand is None ==> subcommand_of(e.content@) is None),
{
    let c = store.get();
    let pr_number = match c.pr_channel {
        Some(ch) => if ch == e.channel_id {
            detect(e.content.as_str())
        } else {
            None
        },
        None => None,
    };
    let subcommand = if str_has_prefix(e.content.as_str(), "$set ") {
        let klen: usize = "$set ".unicode_len();
        let n: usize = e.content.as_str().unicode_len();
        Some(e.content.as_str().substring_char(klen, n).to_owned())
    } else {
        None
    };
    Routing { pr_number, subcommand }
}

/// The outcome of the external pull-request lookup, as handed back by the
/// caller of the repository gateway: the PR title, or a rendering of the
/// lookup error.
pub enum FetchResult {
    Found { title: String },
    Failed { error: String },
}

/// The enriched message for a successfully fetched PR: author mention, PR
/// title, and the original content, which embeds the original link.
pub open spec fn success_message(author_id: u64, title: Seq<char>, original: Seq<char>) -> Seq<
    char,
> {
    "<@"@ + dec_chars(author_id as nat) + ">: "@ + title + " | <"@ + original + ">"@
}

/// The in-channel notice for a failed lookup, embedding the error detail.
pub open spec fn failure_notice(error: Seq<char>) -> Seq<char> {
    "No such PR? ("@ + error + ")"@
}

/// The chat action the PR-reply workflow performs next.
pub enum PrAction {
    /// Send the enriched message to the channel; then, only after the send
    /// succeeded, delete the original message.
    Publish { channel_id: u64, content: String, delete_message_id: u64 },
    /// Reply to the original message with a failure notice; never delete.
    ReplyFailure { reply_to: u64, content: String },
}

/// Decides the chat action once the lookup result is in hand.
pub fn pr_action(e: &Event, fetch: &FetchResult) -> (a: PrAction)
    ensures
        (match *fetch {
            FetchResult::Found { title } => a matches PrAction::Publish {
                channel_id,
                content,
                delete_message_id,
            } && channel_id == e.channel_id && content@ == success_message(
                e.author_id,
                title@,
                e.content@,
            ) && delete_message_id == e.message_id,
            FetchResult::Failed { error } => a matches PrAction::ReplyFailure {
                reply_to,
                content,
            } && reply_to == e.message_id && content@ == failure_notice(error@),
        }),
{
    match fetch {
        FetchResult::Found { title } => {
            let mut s = String::from_str("<@");
            let author = u64_to_string(e.author_id);
            s.append(author.as_str());
            s.append(">: ");
            s.append(title.as_str());
            s.append(" | <");
            s.append(e.content.as_str());
            s.append(">");
            proof {
                assert(s@ =~= success_message(e.author_id, title@, e.content@));
            }
            PrAction::Publish {
                channel_id: e.channel_id,
                content: s,
                delete_message_id: e.message_id,
            }
        },
        FetchResult::Failed { error } => {
            let mut s = String::from_str("No such PR? (");
            s.append(error.as_str());
            s.append(")");
            proof {
                assert(s@ =~= failure_notice(error@));
            }
            PrAction::ReplyFailure { reply_to: e.message_id, content: s }
        },
    }
}

/// The original message to delete after the send phase, if any: only a
/// successfully sent publish is followed by the delete.
pub open spec fn delete_after_send_spec(a: PrAction, send_ok: bool) -> Option<u64> {
    match a {
        PrAction::Publish { delete_message_id, .. } => if send_ok {
            Some(delete_message_id)
        } else {
            None
        },
        PrAction::ReplyFailure { .. } => None,
    }
}

/// Decides the delete step from the send outcome.
pub fn delete_after_send(a: &PrAction, send_ok: bool) -> (r: Option<u64>)
    ensures
        r == delete_after_send_spec(*a, send_ok),
{
    match a {
        PrAction::Publish { delete_message_id, .. } => if send_ok {
            Some(*delete_message_id)
        } else {
            None
        },
        PrAction::ReplyFailure { .. } => None,
    }
}

/// The confirmation reply of a successful `prchannel` command.
pub open spec fn confirmation_text() -> Seq<char> {
    "Listening for `nixpkgs` PR URLs in this channel!"@
}

/// The reply to a caller lacking the manage capability.
pub open spec fn denial_text() -> Seq<char> {
    "You don't have enough permissions to manage the bot."@
}

/// The reply to an unrecognized subcommand.
pub open spec fn unrecognized_text() -> Seq<char> {
    "No such command."@
}

/// The configuration after an administrative command: only a caller holding
/// the manage capability issuing `prchannel` changes it, and then to the
/// command's own channel.
pub open spec fn config_after_command(
    c: Config,
    channel_id: u64,
    subcommand: Seq<char>,
    permission: Option<bool>,
) -> Config {
    if permission == Some(true) && subcommand == "prchannel"@ {
        Config { pr_channel: Some(channel_id) }
    } else {
        c
    }
}

/// Handles an administrative subcommand. `permission` is what the caller
/// resolved through the chat gateway: `None` where the event did not
/// originate in a server context (the command is then silently ignored),
/// else whether the author holds the manage capability there.
pub fn handle_command(
    store: &mut ConfigStore,
    channel_id: u64,
    subcommand: &str,
    permission: Option<bool>,
) -> (reply: Option<String>)
    ensures
        final(store).config() == config_after_command(
            old(store).config(),
            channel_id,
            subcommand@,
            permission,
        ),
        (permission is None ==> reply is None),
        (permission == Some(false) ==> (reply matches Some(r) && r@ == denial_text())),
        (permission == Some(true) && subcommand@ == "prchannel"@ ==> (reply matches Some(r) && r@
            == confirmation_text())),
        (permission == Some(true) && subcommand@ != "prchannel"@ ==> (reply matches Some(r) && r@
            == unrecognized_text())),
{
    match permission {
        None => None,
        Some(false) => Some(
            String::from_str("You don't have enough permissions to manage the bot."),
        ),
        Some(true) => {
            if str_eq(subcommand, "prchannel") {
                store.set_monitored_channel(channel_id);
                Some(String::from_str("Listening for `nixpkgs` PR URLs in this channel!"))
            } else {
                Some(String::from_str("No such command."))
            }
        },
    }
}

/// Channel gating: with monitoring disabled or the event outside the
/// monitored channel, the PR-reply workflow never fires, so no reply is sent
/// and nothing is deleted.
pub proof fn lemma_channel_gating(c: Config, channel_id: u64, text: Seq<char>)
    requires
        c.pr_channel != Some(channel_id),
    ensures
        gated_pr_number(c, channel_id, text) is None,
{
}

/// Successful workflow: the action carries exactly one enriched message for
/// the event's channel, and the original message is deleted exactly when
/// that send succeeded — fetch precedes send precedes delete by the order of
/// the step functions.
pub proof fn lemma_pr_workflow_success(e: Event, title: String, a: PrAction)
    requires
        (a matches PrAction::Publish { channel_id, content, delete_message_id } && channel_id
            == e.channel_id && content@ == success_message(e.author_id, title@, e.content@)
            && delete_message_id == e.message_id),
    ensures
        delete_after_send_spec(a, true) == Some(e.message_id),
        delete_after_send_spec(a, false) == Option::<u64>::None,
{
}

/// Lookup failure: the action is a single failure reply to the original
/// message, and the original is never deleted, whatever the send outcome.
pub proof fn lemma_lookup_failure(e: Event, error: String, a: PrAction, send_ok: bool)
    requires
        (a matches PrAction::ReplyFailure { reply_to, content } && reply_to == e.message_id
            && content@ == failure_notice(error@)),
    ensures
        delete_after_send_spec(a, send_ok) is None,
{
}

/// Command permission: a granted `prchannel` sets the monitored channel to
/// the command's channel; a denied caller, or any caller outside a server
/// context, changes nothing.
pub proof fn lemma_command_permission(c: Config, channel_id: u64)
    ensures
        config_after_command(c, channel_id, "prchannel"@, Some(true)) == (Config {
            pr_channel: Some(channel_id),
        }),
        config_after_command(c, channel_id, "prchannel"@, Some(false)) == c,
        config_after_command(c, channel_id, "prchannel"@, None) == c,
{
}

/// An unrecognized subcommand never mutates the configuration, under any
/// permission outcome.
pub proof fn lemma_unknown_command(
    c: Config,
    channel_id: u64,
    subcommand: Seq<char>,
    permission: Option<bool>,
)
    requires
        subcommand != "prchannel"@,
    ensures
        config_after_command(c, channel_id, subcommand, permission) == c,
{
}

/// Concurrent independence: the PR-reply workflow only reads the store, so
/// when a PR-link event and an administrative command are handled
/// concurrently, each under the store's lock, the final configuration is the
/// command's alone — either the old configuration or one with the command's
/// channel fully set, never a partial state — and each event's decisions
/// depend only on its own event and the snapshot it read.
pub proof fn lemma_event_independence(
    c: Config,
    cmd_channel_id: u64,
    subcommand: Seq<char>,
    permission: Option<bool>,
)
    ensures
        ({
            let after = config_after_command(c, cmd_channel_id, subcommand, permission);
            after == c || after == (Config { pr_channel: Some(cmd_channel_id) })
        }),
{
}

} // verus!
