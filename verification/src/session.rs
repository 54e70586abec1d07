//! The per-connection protocol state machine. A session greets with the
//! fixed prompt, classifies each incoming line, relays validated commands
//! through the coordinator gateway, and answers with exactly one reply per
//! line until it is closed by quit, end of input, or a transport failure.

use vstd::prelude::*;

use crate::config::{encode_config, first_index, json_of, GooseConfiguration};
use crate::gateway::{CoordinatorGateway, NotifyOutcome, RequestOutcome};
use crate::grammar::{
    classify, classify_spec, has_users_prefix, is_count, users_arg, Classification, LineClass,
};
use crate::text::users_prefix;
use crate::messages::{
    ControlView, GooseControl, GooseControlReply, GooseControllerCommand,
    GooseControllerCommandAndValue,
};
use crate::text::{
    busy_text, busy_text_vec, config_word, echo_word, echo_word_vec, eq_ignore_case, exit_word,
    goodbye_text, goodbye_text_vec, invalid_value_text, invalid_value_text_vec, lower,
    newline_prompt, newline_prompt_vec, prompt_text, prompt_text_vec, quit_word,
    reconf_hatch_text, reconf_hatch_text_vec, reconf_users_text, reconf_users_text_vec,
    stop_word, stopping_text, stopping_text_vec, unavailable_text, unavailable_text_vec,
    unrecognized_text, unrecognized_text_vec, utf8_valid,
};
use vstd::slice::{slice_subrange, slice_to_vec};
use vstd::utf8::valid_utf8;

verus! {

/// How long a session waits for the coordinator to fulfill a reply slot.
pub const REPLY_TIMEOUT_MS: u64 = 1000;

/// What a dispatched line did to the shared channel.
#[derive(Debug)]
pub enum Dispatch {
    /// The line called for no message to the coordinator.
    NotSent,
    /// The message was enqueued.
    Sent,
    /// The channel was full; the message was not applied.
    Busy,
    /// The channel's receiving side is gone.
    ChannelClosed,
    /// The query was answered with this snapshot.
    Got(GooseConfiguration),
    /// The query was enqueued but no answer arrived in time.
    Unavailable,
}

/// What message (if any) a line class puts on the shared channel.
pub open spec fn to_send(c: LineClass) -> Option<ControlView> {
    match c {
        LineClass::Stop => Some(ControlView::Command(GooseControllerCommand::Stop)),
        LineClass::Users(v) => Some(
            ControlView::CommandAndValue(GooseControllerCommand::Users, v),
        ),
        LineClass::HatchRate(v) => Some(
            ControlView::CommandAndValue(GooseControllerCommand::HatchRate, v),
        ),
        LineClass::Config => Some(ControlView::Request(GooseControllerCommand::Config)),
        _ => None,
    }
}

/// The dispatch outcomes a line class can have.
pub open spec fn consistent(c: LineClass, d: Dispatch) -> bool {
    match c {
        LineClass::Stop | LineClass::Users(_) | LineClass::HatchRate(_) => d is Sent || d is Busy
            || d is ChannelClosed,
        LineClass::Config => d is Got || d is Busy || d is ChannelClosed || d is Unavailable,
        _ => d is NotSent,
    }
}

/// The exact reply bytes for a classified line and its dispatch outcome.
/// Every reply ends with a line feed and the prompt.
pub open spec fn reply_for(c: LineClass, d: Dispatch) -> Seq<u8> {
    match c {
        LineClass::Quit => goodbye_text() + newline_prompt(),
        LineClass::Echo => echo_word() + newline_prompt(),
        LineClass::Stop => match d {
            Dispatch::Sent => stopping_text() + newline_prompt(),
            Dispatch::Busy => busy_text() + newline_prompt(),
            _ => unavailable_text() + newline_prompt(),
        },
        LineClass::Users(v) => match d {
            Dispatch::Sent => reconf_users_text() + v + newline_prompt(),
            Dispatch::Busy => busy_text() + newline_prompt(),
            _ => unavailable_text() + newline_prompt(),
        },
        LineClass::InvalidUsers => invalid_value_text() + newline_prompt(),
        LineClass::HatchRate(v) => match d {
            Dispatch::Sent => reconf_hatch_text() + v + newline_prompt(),
            Dispatch::Busy => busy_text() + newline_prompt(),
            _ => unavailable_text() + newline_prompt(),
        },
        LineClass::InvalidHatchRate => invalid_value_text() + newline_prompt(),
        LineClass::Config => match d {
            Dispatch::Got(cfg) => json_of(cfg.host@, cfg.users as nat, cfg.hatch_rate@)
                + newline_prompt(),
            Dispatch::Busy => busy_text() + newline_prompt(),
            _ => unavailable_text() + newline_prompt(),
        },
        LineClass::Unrecognized => unrecognized_text() + newline_prompt(),
    }
}

/// The part of a read chunk that is classified: the bytes before the first
/// line feed, with one trailing carriage return removed.
pub open spec fn first_line(s: Seq<u8>) -> Seq<u8> {
    let e = first_index(s, '\n' as u8);
    let l = s.take(e);
    if l.len() > 0 && l.last() == '\r' as u8 {
        l.drop_last()
    } else {
        l
    }
}

/// The outcome of one handled line: the reply to write, what reached the
/// channel, and (for reasoning only) the message's content.
pub struct LineResult {
    pub reply: Vec<u8>,
    pub dispatch: Dispatch,
    pub sent: Ghost<Option<ControlView>>,
}

/// The outcome of one handled read chunk. An empty chunk (end of input)
/// and an undecodable chunk produce no reply.
pub struct ChunkResult {
    pub reply: Option<Vec<u8>>,
    pub dispatch: Dispatch,
    pub sent: Ghost<Option<ControlView>>,
}

/// The prompt written when a connection opens, before any input is read.
pub fn greeting() -> (r: Vec<u8>)
    ensures
        r@ == prompt_text(),
{
    prompt_text_vec()
}

/// Append the newline-and-prompt tail that closes every reply.
fn finish_reply(reply: &mut Vec<u8>)
    ensures
        final(reply)@ == old(reply)@ + newline_prompt(),
{
    let tail = newline_prompt_vec();
    reply.extend_from_slice(tail.as_slice());
}

/// One operator connection's protocol state: a handle to the coordinator
/// gateway, the configuration snapshot taken when the connection was
/// accepted, and whether the session has closed.
#[derive(Debug)]
pub struct Session {
    pub gateway: CoordinatorGateway,
    pub configuration: GooseConfiguration,
    pub closed: bool,
}

impl Session {
    /// A fresh session for one accepted connection.
    pub fn new(channel: flume::Sender<GooseControl>, configuration: GooseConfiguration) -> (r:
        Session)
        ensures
            r.gateway.channel == channel,
            r.configuration == configuration,
            !r.closed,
    {
        Session { gateway: CoordinatorGateway::new(channel), configuration, closed: false }
    }

    /// Handle one line of input: classify it, relay any resulting command,
    /// and produce the exact reply. Closes the session on quit.
    pub fn handle_line(&mut self, line: &[u8]) -> (r: LineResult)
        requires
            !old(self).closed,
        ensures
            final(self).gateway == old(self).gateway,
            final(self).configuration == old(self).configuration,
            final(self).closed == (classify_spec(line@) is Quit),
            consistent(classify_spec(line@), r.dispatch),
            r.reply@ == reply_for(classify_spec(line@), r.dispatch),
            r.sent@ == to_send(classify_spec(line@)),
    {
        let c = classify(line);
        match c {
            Classification::Quit => {
                self.closed = true;
                let mut reply = goodbye_text_vec();
                finish_reply(&mut reply);
                LineResult { reply, dispatch: Dispatch::NotSent, sent: Ghost(None) }
            },
            Classification::Echo => {
                let mut reply = echo_word_vec();
                finish_reply(&mut reply);
                LineResult { reply, dispatch: Dispatch::NotSent, sent: Ghost(None) }
            },
            Classification::Stop => {
                let msg = GooseControl::Command(GooseControllerCommand::Stop);
                let ghost sent_view = Some(msg@);
                let dispatch = match self.gateway.notify(msg) {
                    NotifyOutcome::Delivered => Dispatch::Sent,
                    NotifyOutcome::Busy => Dispatch::Busy,
                    NotifyOutcome::Closed => Dispatch::ChannelClosed,
                };
                let mut reply = match dispatch {
                    Dispatch::Sent => stopping_text_vec(),
                    Dispatch::Busy => busy_text_vec(),
                    _ => unavailable_text_vec(),
                };
                finish_reply(&mut reply);
                LineResult { reply, dispatch, sent: Ghost(sent_view) }
            },
            Classification::Users(v) => {
                let value = slice_to_vec(v.as_slice());
                let msg = GooseControl::CommandAndValue(
                    GooseControllerCommandAndValue {
                        command: GooseControllerCommand::Users,
                        value,
                    },
                );
                let ghost sent_view = Some(msg@);
                let dispatch = match self.gateway.notify(msg) {
                    NotifyOutcome::Delivered => Dispatch::Sent,
                    NotifyOutcome::Busy => Dispatch::Busy,
                    NotifyOutcome::Closed => Dispatch::ChannelClosed,
                };
                let mut reply = match &dispatch {
                    Dispatch::Sent => {
                        let mut text = reconf_users_text_vec();
                        text.extend_from_slice(v.as_slice());
                        text
                    },
                    Dispatch::Busy => busy_text_vec(),
                    _ => unavailable_text_vec(),
                };
                finish_reply(&mut reply);
                LineResult { reply, dispatch, sent: Ghost(sent_view) }
            },
            Classification::InvalidUsers => {
                let mut reply = invalid_value_text_vec();
                finish_reply(&mut reply);
                LineResult { reply, dispatch: Dispatch::NotSent, sent: Ghost(None) }
            },
            Classification::HatchRate(v) => {
                let value = slice_to_vec(v.as_slice());
                let msg = GooseControl::CommandAndValue(
                    GooseControllerCommandAndValue {
                        command: GooseControllerCommand::HatchRate,
                        value,
                    },
                );
                let ghost sent_view = Some(msg@);
                let dispatch = match self.gateway.notify(msg) {
                    NotifyOutcome::Delivered => Dispatch::Sent,
                    NotifyOutcome::Busy => Dispatch::Busy,
                    NotifyOutcome::Closed => Dispatch::ChannelClosed,
                };
                let mut reply = match &dispatch {
                    Dispatch::Sent => {
                        let mut text = reconf_hatch_text_vec();
                        text.extend_from_slice(v.as_slice());
                        text
                    },
                    Dispatch::Busy => busy_text_vec(),
                    _ => unavailable_text_vec(),
                };
                finish_reply(&mut reply);
                LineResult { reply, dispatch, sent: Ghost(sent_view) }
            },
            Classification::InvalidHatchRate => {
                let mut reply = invalid_value_text_vec();
                finish_reply(&mut reply);
                LineResult { reply, dispatch: Dispatch::NotSent, sent: Ghost(None) }
            },
            Classification::Config => {
                let ghost sent_view = Some(
                    ControlView::Request(GooseControllerCommand::Config),
                );
                let outcome = self.gateway.request(
                    GooseControllerCommand::Config,
                    REPLY_TIMEOUT_MS,
                );
                match outcome {
                    RequestOutcome::Reply(GooseControlReply::GooseConfiguration(cfg)) => {
                        let mut reply = encode_config(&cfg);
                        finish_reply(&mut reply);
                        LineResult { reply, dispatch: Dispatch::Got(cfg), sent: Ghost(sent_view) }
                    },
                    RequestOutcome::Busy => {
                        let mut reply = busy_text_vec();
                        finish_reply(&mut reply);
                        LineResult { reply, dispatch: Dispatch::Busy, sent: Ghost(sent_view) }
                    },
                    RequestOutcome::Closed => {
                        let mut reply = unavailable_text_vec();
                        finish_reply(&mut reply);
                        LineResult {
                            reply,
                            dispatch: Dispatch::ChannelClosed,
                            sent: Ghost(sent_view),
                        }
                    },
                    RequestOutcome::NoAnswer => {
                        let mut reply = unavailable_text_vec();
                        finish_reply(&mut reply);
                        LineResult {
                            reply,
                            dispatch: Dispatch::Unavailable,
                            sent: Ghost(sent_view),
                        }
                    },
                }
            },
            Classification::Unrecognized => {
                let mut reply = unrecognized_text_vec();
                finish_reply(&mut reply);
                LineResult { reply, dispatch: Dispatch::NotSent, sent: Ghost(None) }
            },
        }
    }

    /// Handle one read chunk. An empty read means the peer is gone and
    /// closes the session silently; a chunk that is not valid text is
    /// discarded silently; otherwise the chunk's first line is handled.
    pub fn handle_chunk(&mut self, chunk: &[u8]) -> (r: ChunkResult)
        requires
            !old(self).closed,
        ensures
            final(self).gateway == old(self).gateway,
            final(self).configuration == old(self).configuration,
            chunk@.len() == 0 ==> final(self).closed && r.reply is None && r.dispatch is NotSent
                && r.sent@ is None,
            chunk@.len() > 0 && !valid_utf8(chunk@) ==> !final(self).closed && r.reply is None
                && r.dispatch is NotSent && r.sent@ is None,
            chunk@.len() > 0 && valid_utf8(chunk@) ==> {
                &&& final(self).closed == (classify_spec(first_line(chunk@)) is Quit)
                &&& consistent(classify_spec(first_line(chunk@)), r.dispatch)
                &&& (r.reply matches Some(v) && v@ == reply_for(
                    classify_spec(first_line(chunk@)),
                    r.dispatch,
                ))
                &&& r.sent@ == to_send(classify_spec(first_line(chunk@)))
            },
    {
        if chunk.len() == 0 {
            self.closed = true;
            return ChunkResult { reply: None, dispatch: Dispatch::NotSent, sent: Ghost(None) };
        }
        if !utf8_valid(chunk) {
            return ChunkResult { reply: None, dispatch: Dispatch::NotSent, sent: Ghost(None) };
        }
        let e = crate::config::find_byte(chunk, '\n' as u8);
        let l = slice_subrange(chunk, 0, e);
        let line = if l.len() > 0 && l[l.len() - 1] == '\r' as u8 {
            slice_subrange(chunk, 0, e - 1)
        } else {
            l
        };
        proof {
            assert(l@ == chunk@.take(e as int));
            if l@.len() > 0 && l@.last() == '\r' as u8 {
                assert(chunk@.take(e as int - 1) =~= chunk@.take(e as int).drop_last());
            }
            assert(line@ == first_line(chunk@));
        }
        let r = self.handle_line(line);
        ChunkResult { reply: Some(r.reply), dispatch: r.dispatch, sent: r.sent }
    }
}

/// A valid `users <n>` line is classified as exactly one user-count
/// command carrying the capture, and, once the message is enqueued, the
/// reply confirms that same capture.
pub proof fn lemma_users_line(line: Seq<u8>)
    requires
        has_users_prefix(line),
        is_count(users_arg(line)),
    ensures
        classify_spec(line) == LineClass::Users(users_arg(line)),
        to_send(classify_spec(line)) == Some(
            ControlView::CommandAndValue(GooseControllerCommand::Users, users_arg(line)),
        ),
        reply_for(classify_spec(line), Dispatch::Sent) == reconf_users_text() + users_arg(line)
            + newline_prompt(),
{
}

/// An `echo` line in any letter case is answered with the echo reply and
/// sends nothing to the coordinator.
pub proof fn lemma_echo_any_case(line: Seq<u8>)
    requires
        eq_ignore_case(line, echo_word()),
    ensures
        classify_spec(line) is Echo,
        to_send(classify_spec(line)) is None,
        reply_for(classify_spec(line), Dispatch::NotSent) == echo_word() + newline_prompt(),
{
    if eq_ignore_case(line, exit_word()) {
        assert(lower(line[1]) == lower(exit_word()[1]));
        assert(lower(line[1]) == lower(echo_word()[1]));
        assert(false);
    }
    if eq_ignore_case(line, quit_word()) {
        assert(lower(line[0]) == lower(quit_word()[0]));
        assert(lower(line[0]) == lower(echo_word()[0]));
        assert(false);
    }
}

/// A line that matches no pattern is answered "unrecognized command" and
/// sends nothing to the coordinator.
pub proof fn lemma_unrecognized_line(line: Seq<u8>)
    requires
        classify_spec(line) is Unrecognized,
    ensures
        to_send(classify_spec(line)) is None,
        reply_for(classify_spec(line), Dispatch::NotSent) == unrecognized_text()
            + newline_prompt(),
{
}

/// An `exit` or `quit` line in any letter case is answered with the
/// farewell and sends nothing; `handle_line` then closes the session, and
/// a closed session accepts no further input.
pub proof fn lemma_quit_line(line: Seq<u8>)
    requires
        eq_ignore_case(line, exit_word()) || eq_ignore_case(line, quit_word()),
    ensures
        classify_spec(line) is Quit,
        to_send(classify_spec(line)) is None,
        reply_for(classify_spec(line), Dispatch::NotSent) == goodbye_text() + newline_prompt(),
{
}

/// A `users` keyword whose capture is empty or not all digits is answered
/// "invalid value" and sends nothing to the coordinator.
pub proof fn lemma_invalid_users_line(line: Seq<u8>)
    requires
        has_users_prefix(line),
        !is_count(users_arg(line)),
    ensures
        classify_spec(line) is InvalidUsers,
        to_send(classify_spec(line)) is None,
        reply_for(classify_spec(line), Dispatch::NotSent) == invalid_value_text()
            + newline_prompt(),
{
}

/// A `stop` line in any letter case sends exactly one stop command; when
/// the channel takes it the reply acknowledges the stop, and when the
/// channel is full the reply reports "busy" and the command was handed
/// back unapplied.
pub proof fn lemma_stop_line(line: Seq<u8>)
    requires
        eq_ignore_case(line, stop_word()),
    ensures
        classify_spec(line) is Stop,
        to_send(classify_spec(line)) == Some(
            ControlView::Command(GooseControllerCommand::Stop),
        ),
        reply_for(classify_spec(line), Dispatch::Sent) == stopping_text() + newline_prompt(),
        reply_for(classify_spec(line), Dispatch::Busy) == busy_text() + newline_prompt(),
{
    if eq_ignore_case(line, exit_word()) {
        assert(lower(line[0]) == lower(exit_word()[0]));
        assert(lower(line[0]) == lower(stop_word()[0]));
        assert(false);
    }
    if eq_ignore_case(line, quit_word()) {
        assert(lower(line[0]) == lower(quit_word()[0]));
        assert(lower(line[0]) == lower(stop_word()[0]));
        assert(false);
    }
    if eq_ignore_case(line, echo_word()) {
        assert(lower(line[0]) == lower(echo_word()[0]));
        assert(lower(line[0]) == lower(stop_word()[0]));
        assert(false);
    }
}

/// A `config` line in any letter case is a query; a fulfilled reply slot
/// is answered with the serialized snapshot, and decoding that snapshot
/// gives back exactly the coordinator's field values.
pub proof fn lemma_config_reply(line: Seq<u8>, cfg: GooseConfiguration)
    requires
        eq_ignore_case(line, config_word()),
        cfg.wf(),
    ensures
        classify_spec(line) is Config,
        to_send(classify_spec(line)) == Some(
            ControlView::Request(GooseControllerCommand::Config),
        ),
        reply_for(classify_spec(line), Dispatch::Got(cfg)) == json_of(
            cfg.host@,
            cfg.users as nat,
            cfg.hatch_rate@,
        ) + newline_prompt(),
        crate::config::json_parse(json_of(cfg.host@, cfg.users as nat, cfg.hatch_rate@))
            == Some((cfg.host@, cfg.users as nat, cfg.hatch_rate@)),
{
    if has_users_prefix(line) {
        assert(lower(line.take(users_prefix().len() as int)[0]) == lower(users_prefix()[0]));
        assert(line.take(users_prefix().len() as int)[0] == line[0]);
        assert(lower(line[0]) == lower(config_word()[0]));
        assert(false);
    }
    crate::config::lemma_snapshot_round_trip(cfg.host@, cfg.users, cfg.hatch_rate@);
}

} // verus!
