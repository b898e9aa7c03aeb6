//! The fluent dispatch façade: `Telemon::send(text)` starts a message, and
//! `.to(...)` / `.to_group()` resolve a logical target against the
//! configuration into a [`Dispatch`] decision.
//!
//! A missing default identifier is a skip, never an attempt: `.to(topic)`
//! without a configured chat id and `.to_group()` without a configured group
//! id both resolve to [`Dispatch::Skipped`], so no request exists to post.
//! The application layer posts a [`Dispatch::Request`] and may log or discard
//! the outcome, which keeps the fire-and-forget call style of the façade.

use vstd::prelude::*;

use crate::client::{payload_json, send_message_url, SendRequest, TelegramClient};
use crate::config::Config;

verus! {

/// Where a message goes.
#[derive(Clone, Copy, Debug, PartialEq, Eq, Structural)]
pub enum ToTarget {
    /// A topic (thread) id alone; the chat id comes from the configuration.
    Topic(i64),
    /// An explicit chat id and topic id pair.
    ChatWithTopic(i64, i64),
}

impl From<i64> for ToTarget {
    /// A bare integer names a topic in the configured chat.
    fn from(topic_id: i64) -> (r: ToTarget) {
        ToTarget::Topic(topic_id)
    }
}

impl vstd::std_specs::convert::FromSpecImpl<i64> for ToTarget {
    open spec fn obeys_from_spec() -> bool {
        true
    }

    open spec fn from_spec(v: i64) -> ToTarget {
        ToTarget::Topic(v)
    }
}

impl From<(i64, i64)> for ToTarget {
    /// A pair names a chat id and a topic id explicitly.
    fn from(pair: (i64, i64)) -> (r: ToTarget) {
        ToTarget::ChatWithTopic(pair.0, pair.1)
    }
}

impl vstd::std_specs::convert::FromSpecImpl<(i64, i64)> for ToTarget {
    open spec fn obeys_from_spec() -> bool {
        true
    }

    open spec fn from_spec(v: (i64, i64)) -> ToTarget {
        ToTarget::ChatWithTopic(v.0, v.1)
    }
}

/// What a terminal builder call resolved to: one request to post, or a
/// deliberate no-op because a required identifier was not configured.
#[derive(Debug)]
pub enum Dispatch {
    /// Post this request.
    Request(SendRequest),
    /// Perform no HTTP exchange at all.
    Skipped,
}

/// `d` carries exactly the request that `config` and the send parameters
/// prescribe: the URL for the configured token, and the body for the chat,
/// text, thread id and format mode.
pub open spec fn dispatch_is_request(
    d: Dispatch,
    config: Config,
    chat_id: int,
    thread_id: Option<int>,
    text: Seq<char>,
) -> bool {
    match d {
        Dispatch::Request(req) => req.url@ == send_message_url(config.token@) && req.body@
            == payload_json(chat_id, text, thread_id, config.spec_parse_mode()),
        Dispatch::Skipped => false,
    }
}

/// A message being built: the text, waiting for its target.
pub struct TelemonMessage<'a> {
    /// The text to send.
    pub text: &'a str,
}

impl<'a> TelemonMessage<'a> {
    /// Resolves a topic target. A bare topic id uses the configured default
    /// chat id and skips (no request at all) when none is configured; an
    /// explicit chat-and-topic pair always yields a request.
    pub fn to(self, config: &Config, target: ToTarget) -> (d: Dispatch)
        ensures
            (match target {
                ToTarget::Topic(topic_id) => (match config.chat_id {
                    Some(chat_id) => dispatch_is_request(
                        d,
                        *config,
                        chat_id as int,
                        Some(topic_id as int),
                        self.text@,
                    ),
                    None => d is Skipped,
                }),
                ToTarget::ChatWithTopic(chat_id, topic_id) => dispatch_is_request(
                    d,
                    *config,
                    chat_id as int,
                    Some(topic_id as int),
                    self.text@,
                ),
            }),
    {
        let client = TelegramClient::new(config);
        match target {
            ToTarget::Topic(topic_id) => match config.chat_id {
                Some(chat_id) => Dispatch::Request(
                    client.send_to_topic(chat_id, topic_id, self.text),
                ),
                None => Dispatch::Skipped,
            },
            ToTarget::ChatWithTopic(chat_id, topic_id) => Dispatch::Request(
                client.send_to_topic(chat_id, topic_id, self.text),
            ),
        }
    }

    /// Resolves the configured group as target: a request with no thread id
    /// in its body, or a skip (no request at all) when no group id is
    /// configured.
    pub fn to_group(self, config: &Config) -> (d: Dispatch)
        ensures
            (match config.group_id {
                Some(group_id) => dispatch_is_request(
                    d,
                    *config,
                    group_id as int,
                    None,
                    self.text@,
                ),
                None => d is Skipped,
            }),
    {
        let client = TelegramClient::new(config);
        match config.group_id {
            Some(group_id) => Dispatch::Request(client.send_to_group(group_id, self.text)),
            None => Dispatch::Skipped,
        }
    }
}

/// Entry point of the fluent API.
pub struct Telemon;

impl Telemon {
    /// Starts a message holding `text`.
    pub fn send(text: &str) -> (m: TelemonMessage<'_>)
        ensures
            m.text@ == text@,
    {
        TelemonMessage { text }
    }
}

} // verus!
