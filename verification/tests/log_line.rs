use minecraft_command_bot::minecraft_line::MinecraftLine;

fn parts(line: &str) -> Option<(String, String, String, String)> {
    MinecraftLine::from_log_line(line).map(|l| (l.time, l.caused_at, l.level, l.message))
}

fn p(a: &str, b: &str, c: &str, d: &str) -> Option<(String, String, String, String)> {
    Some((a.to_string(), b.to_string(), c.to_string(), d.to_string()))
}

#[test]
fn vanilla_line() {
    assert_eq!(
        parts("[12:34:56] [Server thread/INFO]: <player> message"),
        p("12:34:56", "Server thread", "INFO", "<player> message")
    );
}

#[test]
fn forge_line() {
    assert_eq!(
        parts("[12:34:56] [Server thread/INFO] [minecraft/Server]: <player> message"),
        p("12:34:56", "Server thread", "INFO", "<player> message")
    );
}

#[test]
fn forge_line_with_date() {
    assert_eq!(
        parts("[31Dec2023 03:57:20.886] [Server thread/INFO] [minecraft/Server]: <player> message"),
        p("31Dec2023 03:57:20.886", "Server thread", "INFO", "<player> message")
    );
}

#[test]
fn line_found_after_a_prefix() {
    assert_eq!(
        parts("garbage [t] [a/b]: m"),
        p("t", "a", "b", "m")
    );
}

#[test]
fn message_stops_at_newline() {
    assert_eq!(parts("[t] [a/b]: one\ntwo"), p("t", "a", "b", "one"));
}

#[test]
fn empty_message() {
    assert_eq!(parts("[t] [a/b]: "), p("t", "a", "b", ""));
}

#[test]
fn not_a_log_line() {
    assert_eq!(parts(""), None);
    assert_eq!(parts("hello world"), None);
    assert_eq!(parts("[] [a/b]: m"), None);
    assert_eq!(parts("[t] [/b]: m"), None);
    assert_eq!(parts("[t] [a/]: m"), None);
    assert_eq!(parts("[t] [a/b]:m"), None);
    assert_eq!(parts("[t] [a/b] [x]m"), None);
}

#[test]
fn tag_without_colon_falls_back() {
    // a bracketed tag must be followed by ": "; otherwise the line does not match here
    assert_eq!(parts("[t] [a/b] [x] m"), None);
}

#[test]
fn thread_may_hold_brackets() {
    assert_eq!(parts("[t] [a]b/c]: m"), p("t", "a]b", "c", "m"));
}

#[test]
fn unicode_parts() {
    assert_eq!(parts("[時間] [スレッド/情報]: こんにちは"), p("時間", "スレッド", "情報", "こんにちは"));
}

#[test]
fn new_keeps_fields() {
    let l = MinecraftLine::new("a".into(), "b".into(), "c".into(), "d".into());
    assert_eq!(l.time, "a");
    assert_eq!(l.caused_at, "b");
    assert_eq!(l.level, "c");
    assert_eq!(l.message, "d");
}
