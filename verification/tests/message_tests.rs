use telemon::config::Config;
use telemon::message::{Dispatch, Telemon, ToTarget};
use telemon::text::escape_markdown_v2;

fn config(chat_id: Option<i64>, group_id: Option<i64>) -> Config {
    Config {
        token: "TOKEN".to_string(),
        chat_id,
        show_logs: false,
        parse_mode: None,
        group_id,
    }
}

#[test]
fn escape_markdown_v2_escapes_specials_only() {
    assert_eq!(escape_markdown_v2("Hello_World!"), "Hello\\_World\\!");
    assert_eq!(
        escape_markdown_v2("_*[]()~`>#+-=|{}.!"),
        "\\_\\*\\[\\]\\(\\)\\~\\`\\>\\#\\+\\-\\=\\|\\{\\}\\.\\!"
    );
    assert_eq!(escape_markdown_v2("plain text 123"), "plain text 123");
    assert_eq!(escape_markdown_v2(""), "");
}

#[test]
fn topic_without_configured_chat_skips() {
    let cfg = config(None, None);
    let d = Telemon::send("x").to(&cfg, ToTarget::Topic(5));
    assert!(matches!(d, Dispatch::Skipped));
}

#[test]
fn group_without_configured_group_skips() {
    let cfg = config(Some(1), None);
    let d = Telemon::send("x").to_group(&cfg);
    assert!(matches!(d, Dispatch::Skipped));
}

#[test]
fn topic_with_configured_chat_builds_a_request() {
    let cfg = config(Some(42), None);
    let d = Telemon::send("hello").to(&cfg, ToTarget::Topic(7));
    match d {
        Dispatch::Request(req) => {
            assert_eq!(
                req.body,
                "{\"chat_id\":42,\"text\":\"hello\",\"message_thread_id\":7,\"parse_mode\":\"HTML\"}"
            );
            assert_eq!(req.url, "https://api.telegram.org/botTOKEN/sendMessage");
        }
        Dispatch::Skipped => panic!("expected a request"),
    }
}

#[test]
fn explicit_pair_sends_without_configured_chat() {
    let cfg = config(None, None);
    let d = Telemon::send("hi").to(&cfg, ToTarget::ChatWithTopic(1, 2));
    match d {
        Dispatch::Request(req) => {
            assert_eq!(
                req.body,
                "{\"chat_id\":1,\"text\":\"hi\",\"message_thread_id\":2,\"parse_mode\":\"HTML\"}"
            );
        }
        Dispatch::Skipped => panic!("expected a request"),
    }
}

#[test]
fn group_with_configured_group_builds_a_request() {
    let cfg = config(None, Some(333));
    let d = Telemon::send("hi").to_group(&cfg);
    match d {
        Dispatch::Request(req) => {
            assert_eq!(req.body, "{\"chat_id\":333,\"text\":\"hi\",\"parse_mode\":\"HTML\"}");
            assert!(!req.body.contains("message_thread_id"));
        }
        Dispatch::Skipped => panic!("expected a request"),
    }
}

#[test]
fn targets_convert_from_integers_and_pairs() {
    assert_eq!(ToTarget::from(5i64), ToTarget::Topic(5));
    assert_eq!(ToTarget::from((1i64, 2i64)), ToTarget::ChatWithTopic(1, 2));
    let t: ToTarget = 9i64.into();
    assert_eq!(t, ToTarget::Topic(9));
    let p: ToTarget = (3i64, 4i64).into();
    assert_eq!(p, ToTarget::ChatWithTopic(3, 4));
}
