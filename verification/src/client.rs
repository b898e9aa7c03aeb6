//! Building and classifying Telegram Bot API `sendMessage` exchanges.
//!
//! The client resolves a send call into a [`SendRequest`]: the endpoint URL
//! (with the bot token as a path segment) and the JSON body, with the thread
//! id omitted entirely for non-topic sends. The application layer posts the
//! request and hands the HTTP status and body to [`classify_response`].

use vstd::prelude::*;
use vstd::string::*;

use crate::config::Config;
use crate::text::{dec_int, escape_json, i64_to_string, json_escaped};

verus! {

/// The `sendMessage` endpoint URL with the bot token as a path segment.
pub open spec fn send_message_url(token: Seq<char>) -> Seq<char> {
    "https://api.telegram.org/bot"@ + token + "/sendMessage"@
}

/// The JSON body of a `sendMessage` call: chat id, text, the thread id when
/// present (the key is absent, not null, otherwise), and the format mode.
pub open spec fn payload_json(
    chat_id: int,
    text: Seq<char>,
    thread_id: Option<int>,
    parse_mode: Seq<char>,
) -> Seq<char> {
    "{\"chat_id\":"@ + dec_int(chat_id) + ",\"text\":\""@ + json_escaped(text) + "\""@ + (match thread_id {
        Some(t) => ",\"message_thread_id\":"@ + dec_int(t),
        None => Seq::<char>::empty(),
    }) + ",\"parse_mode\":\""@ + json_escaped(parse_mode) + "\"}"@
}

/// The thread id of a send call, as a mathematical integer.
pub open spec fn opt_int(o: Option<i64>) -> Option<int> {
    match o {
        Some(t) => Some(t as int),
        None => None,
    }
}

/// One ready-to-post HTTP exchange: where to POST and the JSON body to carry.
#[derive(Debug)]
pub struct SendRequest {
    /// The endpoint URL, token included.
    pub url: String,
    /// The JSON body.
    pub body: String,
}

/// A failed send: a human-readable message derived from the HTTP response, or
/// from the transport fault.
#[derive(Debug)]
pub struct SendError {
    /// The failure text.
    pub message: String,
}

/// Resolves send calls into [`SendRequest`] values for one bot.
pub struct TelegramClient {
    /// The bot token, embedded in every request URL.
    pub token: String,
    /// The format mode every request body carries.
    pub parse_mode: String,
}

impl TelegramClient {
    /// Creates a client from the configuration: it keeps the token and the
    /// effective format mode.
    pub fn new(config: &Config) -> (c: TelegramClient)
        ensures
            c.token@ == config.token@,
            c.parse_mode@ == config.spec_parse_mode(),
    {
        TelegramClient { token: config.token.clone(), parse_mode: config.effective_parse_mode() }
    }

    /// The request for one send call: URL from the token, body from the
    /// arguments and the client's format mode.
    fn request(&self, chat_id: i64, message: &str, message_thread_id: Option<i64>) -> (r:
        SendRequest)
        ensures
            r.url@ == send_message_url(self.token@),
            r.body@ == payload_json(
                chat_id as int,
                message@,
                opt_int(message_thread_id),
                self.parse_mode@,
            ),
    {
        let mut url = String::new();
        url.append("https://api.telegram.org/bot");
        url.append(self.token.as_str());
        url.append("/sendMessage");
        let mut body = String::new();
        body.append("{\"chat_id\":");
        let chat = i64_to_string(chat_id);
        body.append(chat.as_str());
        body.append(",\"text\":\"");
        let text = escape_json(message);
        body.append(text.as_str());
        body.append("\"");
        match message_thread_id {
            Some(t) => {
                body.append(",\"message_thread_id\":");
                let thread = i64_to_string(t);
                body.append(thread.as_str());
            },
            None => {},
        }
        body.append(",\"parse_mode\":\"");
        let mode = escape_json(self.parse_mode.as_str());
        body.append(mode.as_str());
        body.append("\"}");
        proof {
            assert(url@ =~= send_message_url(self.token@));
            assert(body@ =~= payload_json(
                chat_id as int,
                message@,
                opt_int(message_thread_id),
                self.parse_mode@,
            ));
        }
        SendRequest { url, body }
    }

    /// The request for a message to a thread (topic) of a chat.
    pub fn send_to_topic(&self, chat_id: i64, thread_id: i64, message: &str) -> (r: SendRequest)
        ensures
            r.url@ == send_message_url(self.token@),
            r.body@ == payload_json(
                chat_id as int,
                message@,
                Some(thread_id as int),
                self.parse_mode@,
            ),
    {
        self.request(chat_id, message, Some(thread_id))
    }

    /// The request for a message straight to a chat, with no thread id in the
    /// body.
    pub fn send_to_group(&self, chat_id: i64, message: &str) -> (r: SendRequest)
        ensures
            r.url@ == send_message_url(self.token@),
            r.body@ == payload_json(chat_id as int, message@, None, self.parse_mode@),
    {
        self.request(chat_id, message, None)
    }
}

/// A response succeeds exactly when its status lies in the 2xx range.
pub open spec fn is_success_status(status: int) -> bool {
    200 <= status < 300
}

/// The failure text for a non-2xx response carrying `body`.
pub open spec fn telegram_error_message(body: Seq<char>) -> Seq<char> {
    "Telegram error: "@ + body
}

/// Classifies one HTTP response: 2xx is success, anything else is a failure
/// whose message embeds the raw response body.
pub fn classify_response(status: u16, body: &str) -> (r: Result<(), SendError>)
    ensures
        r is Ok <==> is_success_status(status as int),
        (match r {
            Ok(_) => true,
            Err(e) => e.message@ == telegram_error_message(body@),
        }),
{
    if 200 <= status && status < 300 {
        Ok(())
    } else {
        let mut message = String::new();
        message.append("Telegram error: ");
        message.append(body);
        Err(SendError { message })
    }
}

} // verus!
