use deltav_bot::clock::{add_days, current_micros, to_seconds, DAY_MICROS, FIRST_MICROS, LAST_MICROS};
use deltav_bot::discord::ids::{from_column, to_column, ChannelId, GuildId, MessageId, RoleId, UserId};
use deltav_bot::discord::mention::{mention_role, mention_user, message_link, thread_link};
use deltav_bot::discord::to_md_quote_block;
use deltav_bot::text::chars::{
    copy_text, same_text, skip_chars, split, starts_with, take_chars, to_ascii_lowercase, trim,
};
use deltav_bot::text::decimal::{parse_i64, parse_u64, push_i64, push_u64};
use deltav_bot::util::remove_html_comments;

#[test]
fn quote_block_marks_every_line() {
    assert_eq!(to_md_quote_block(""), "> \n\n");
    assert_eq!(to_md_quote_block("one"), "> one\n\n");
    assert_eq!(to_md_quote_block("one\ntwo"), "> one\n> two\n\n");
    assert_eq!(to_md_quote_block("one\n\ntwo\n"), "> one\n> \n> two\n> \n\n");
    assert_eq!(to_md_quote_block("> quoted"), "> > quoted\n\n");
    assert_eq!(to_md_quote_block("ä\r\nö"), "> ä\r\n> ö\n\n");
}

#[test]
fn quote_block_reads_back() {
    let text = "first\n> second\n\nthird";
    let quoted = to_md_quote_block(text);
    let inner = quoted.strip_prefix("> ").unwrap().strip_suffix("\n\n").unwrap();
    assert_eq!(inner.replace("\n> ", "\n"), text);
}

#[test]
fn quote_blocks_split_at_line_breaks() {
    let lines = |text: &str| {
        let quoted = to_md_quote_block(text);
        quoted.strip_prefix("> ").unwrap().strip_suffix("\n\n").unwrap().to_string()
    };
    for (a, b) in [("one", "two"), ("", ""), ("a\n", "\n> b")] {
        let whole = format!("{a}\n{b}");
        assert_eq!(
            to_md_quote_block(&whole),
            format!("> {}\n> {}\n\n", lines(a), lines(b))
        );
    }
    assert_ne!(to_md_quote_block("a\n> b"), to_md_quote_block("a\nb"));
    assert_ne!(to_md_quote_block("a\n"), to_md_quote_block("a"));
}

#[test]
fn html_comments_go_wherever_they_stand() {
    for (a, b, c) in [
        ("before ", " in ", " after"),
        ("<!-", "-", ""),
        ("<", "--", "<!-- more -->x"),
        ("-->", "<!--", "<!-- open"),
    ] {
        let whole = format!("{a}<!--{b}-->{c}");
        assert_eq!(remove_html_comments(&whole), format!("{a}{}", remove_html_comments(c)));
    }
}

#[test]
fn removing_comments_only_leaves_out() {
    let text = "one<!-- a -->two<!-- b -->three <!-- open";
    let clean = remove_html_comments(text);
    let mut rest = text.chars();
    assert!(clean.chars().all(|c| rest.any(|d| c == d)));
    assert_eq!(clean, "onetwothree <!-- open");
}

#[test]
fn html_comments_are_removed() {
    assert_eq!(remove_html_comments("plain"), "plain");
    assert_eq!(remove_html_comments("a<!-- hidden -->b"), "ab");
    assert_eq!(remove_html_comments("a<!-- two\nlines -->b<!---->c"), "abc");
    assert_eq!(remove_html_comments("a<!-- x --> --> b"), "a --> b");
    assert_eq!(remove_html_comments("open <!-- forever"), "open <!-- forever");
    assert_eq!(remove_html_comments("<!--<!-- in -->out-->"), "out-->");
    assert_eq!(remove_html_comments("<!-->-->x"), "x");
    assert_eq!(remove_html_comments(""), "");
}

#[test]
fn html_comments_with_wide_characters() {
    assert_eq!(remove_html_comments("ä<!-- ö\u{1f600} -->ü"), "äü");
}

#[test]
fn numbers_are_written_and_read() {
    let mut out = String::from("n=");
    push_u64(&mut out, 0);
    push_u64(&mut out, u64::MAX);
    assert_eq!(out, "n=018446744073709551615");
    let mut out = String::new();
    push_i64(&mut out, i64::MIN);
    assert_eq!(out, "-9223372036854775808");
    assert_eq!(parse_u64("18446744073709551615"), Some(u64::MAX));
    assert_eq!(parse_u64("18446744073709551616"), None);
    assert_eq!(parse_u64("+7"), Some(7));
    assert_eq!(parse_u64("007"), Some(7));
    for bad in ["", "+", "-1", " 1", "1 ", "1_000", "0x1", "\u{661}"] {
        assert_eq!(parse_u64(bad), None, "{bad}");
        assert_eq!(bad.parse::<u64>().ok(), None);
    }
    assert_eq!(parse_i64("-9223372036854775808"), Some(i64::MIN));
    assert_eq!(parse_i64("9223372036854775808"), None);
    assert_eq!(parse_i64("-0"), Some(0));
    assert_eq!(parse_i64("-"), None);
    assert_eq!(parse_i64("--1"), None);
}

#[test]
fn texts_are_cut_by_characters() {
    assert_eq!(take_chars("häß", 2), "hä");
    assert_eq!(take_chars("hi", 5), "hi");
    assert_eq!(take_chars("hi", 0), "");
    assert_eq!(skip_chars("häß", 2), "ß");
    assert_eq!(skip_chars("hi", 2), "");
}

#[test]
fn texts_are_compared() {
    assert!(same_text("a", "a"));
    assert!(!same_text("a", "b"));
    assert!(starts_with("cr_x", "cr_"));
    assert!(!starts_with("cr", "cr_"));
    assert_eq!(to_ascii_lowercase("!ReViewÄ"), "!reviewÄ");
    assert_eq!(trim(" \t\u{a0}!review\u{2003}\n"), "!review");
    assert_eq!(trim("\u{200b}x"), "\u{200b}x");
    assert_eq!(trim("   "), "");
    assert_eq!(copy_text(&Some("x".to_string())), Some("x".to_string()));
    assert_eq!(copy_text(&None), None);
}

#[test]
fn texts_are_split() {
    assert_eq!(split("cr_start_5", '_'), vec!["cr", "start", "5"]);
    assert_eq!(split("", '_'), vec![""]);
    assert_eq!(split("__", '_'), vec!["", "", ""]);
}

#[test]
fn identifiers_go_through_columns() {
    assert_eq!(to_column(u64::MAX), -1);
    assert_eq!(from_column(-1), u64::MAX);
    assert_eq!(from_column(to_column(1 << 63)), 1 << 63);
    let id = ChannelId::new(1 << 63);
    assert_eq!(id.to_column(), i64::MIN);
    assert_eq!(ChannelId::from_column(i64::MIN), id);
    assert_eq!(ChannelId::default().get(), 1);
}

#[test]
fn mentions_and_links() {
    assert_eq!(mention_role(RoleId::new(42)), "<@&42>");
    assert_eq!(mention_user(UserId::new(42)), "<@42>");
    let message = MessageId::new(3);
    let channel = ChannelId::new(2);
    assert_eq!(
        message_link(message, channel, Some(GuildId::new(1))),
        "https://discord.com/channels/1/2/3"
    );
    assert_eq!(message_link(message, channel, None), "https://discord.com/channels/@me/2/3");
    assert_eq!(thread_link(GuildId::new(1), channel), "https://discord.com/channels/1/2");
}

#[test]
fn days_are_added() {
    assert_eq!(add_days(0, 1), Some(DAY_MICROS));
    assert_eq!(add_days(1_700_000_000_123_456, 90), Some(1_700_000_000_123_456 + 90 * DAY_MICROS));
    assert_eq!(add_days(LAST_MICROS, 0), Some(LAST_MICROS));
    assert_eq!(add_days(LAST_MICROS, 1), None);
    assert_eq!(add_days(LAST_MICROS - DAY_MICROS, 1), Some(LAST_MICROS));
    assert_eq!(add_days(LAST_MICROS - DAY_MICROS + 1, 1), None);
    assert_eq!(add_days(FIRST_MICROS, 1), Some(FIRST_MICROS + DAY_MICROS));
    assert_eq!(add_days(FIRST_MICROS - 1, 1), None);
    assert_eq!(add_days(0, u64::MAX), None);
    assert_eq!(add_days(i64::MAX, 0), None);
    assert_eq!(add_days(i64::MIN, 0), None);
}

#[test]
fn days_add_up() {
    let start = 1_234_567;
    let two = add_days(add_days(start, 3).unwrap(), 4);
    assert_eq!(two, add_days(start, 7));
}

#[test]
fn clock_runs_after_the_epoch() {
    let first = current_micros();
    let second = current_micros();
    assert!(first > 1_600_000_000_000_000);
    assert!(second >= first);
}

#[test]
fn seconds_are_rounded_down() {
    assert_eq!(to_seconds(1_999_999), 1);
    assert_eq!(to_seconds(-1), -1);
    assert_eq!(to_seconds(0), 0);
}
