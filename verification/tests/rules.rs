use minecraft_command_bot::minecraft_line::MinecraftLine;
use minecraft_command_bot::send_rule::advancement_rule::AdvancementRule;
use minecraft_command_bot::send_rule::chat_rule::ChatRule;
use minecraft_command_bot::send_rule::death_rule::DeathRule;
use minecraft_command_bot::send_rule::login_rule::LoginRule;
use minecraft_command_bot::send_rule::server_rule::ServerRule;
use minecraft_command_bot::send_rule::{RuleKind, SendRule, SendRules};

fn info(message: &str) -> MinecraftLine {
    MinecraftLine::new("12:00:00".into(), "Server thread".into(), "INFO".into(), message.into())
}

fn warn(message: &str) -> MinecraftLine {
    MinecraftLine::new("12:00:00".into(), "Server thread".into(), "WARN".into(), message.into())
}

fn other_thread(message: &str) -> MinecraftLine {
    MinecraftLine::new("12:00:00".into(), "User Authenticator #1".into(), "INFO".into(), message.into())
}

fn s(x: &str) -> Option<String> {
    Some(x.to_string())
}

#[test]
fn chat_is_forwarded() {
    assert_eq!(ChatRule.send(&info("<Steve> hello world")), s("**Steve**: hello world"));
}

#[test]
fn chat_takes_shortest_name() {
    assert_eq!(ChatRule.send(&info("<a> b> c")), s("**a**: b> c"));
    assert_eq!(ChatRule.send(&info("<a>b> c")), s("**a>b**: c"));
}

#[test]
fn chat_empty_name_and_text() {
    assert_eq!(ChatRule.send(&info("<> ")), s("****: "));
}

#[test]
fn chat_needs_whitespace_after_name() {
    assert_eq!(ChatRule.send(&info("<Steve>hello")), None);
    assert_eq!(ChatRule.send(&info("<Steve>\thello")), s("**Steve**: hello"));
    assert_eq!(ChatRule.send(&info("<Steve>\u{3000}hello")), s("**Steve**: hello"));
}

#[test]
fn chat_ignores_thread_and_level() {
    assert_eq!(ChatRule.send(&warn("<Steve> hi")), s("**Steve**: hi"));
    assert_eq!(ChatRule.send(&other_thread("<Steve> hi")), s("**Steve**: hi"));
}

#[test]
fn chat_allow_send_checks_thread_and_level() {
    assert!(ChatRule.allow_send(&info("<Steve> hi")));
    assert!(!ChatRule.allow_send(&warn("<Steve> hi")));
    assert!(!ChatRule.allow_send(&other_thread("<Steve> hi")));
    assert!(!ChatRule.allow_send(&info("Steve hi")));
}

#[test]
fn chat_text_with_newline_is_not_chat() {
    assert_eq!(ChatRule.send(&info("<Steve> a\nb")), None);
}

#[test]
fn login_joined_and_left() {
    assert_eq!(LoginRule.send(&info("Steve joined the game")), s("**Steve** joined the game"));
    assert_eq!(LoginRule.send(&info("Steve left the game")), s("**Steve** left the game"));
    assert_eq!(LoginRule.send(&info("Steve\tleft\u{a0}the game")), s("**Steve** left the game"));
    assert_eq!(LoginRule.send(&info(" joined the game")), s("**** joined the game"));
}

#[test]
fn login_needs_exact_end() {
    assert_eq!(LoginRule.send(&info("Steve joined the game!")), None);
    assert_eq!(LoginRule.send(&info("Steve joined the gamer")), None);
    assert_eq!(LoginRule.send(&info("joined the game")), None);
}

#[test]
fn login_needs_server_thread_info() {
    assert_eq!(LoginRule.send(&warn("Steve joined the game")), None);
    assert_eq!(LoginRule.send(&other_thread("Steve joined the game")), None);
}

#[test]
fn advancement() {
    assert_eq!(
        AdvancementRule.send(&info("Steve  has made the advancement [Stone Age]")),
        s("**Steve** has made the advancement _**Stone Age**_")
    );
    // the name is the longest that fits
    assert_eq!(
        AdvancementRule.send(&info("a  has made the advancement [b]  has made the advancement [c]")),
        s("**a  has made the advancement [b]** has made the advancement _**c**_")
    );
    assert_eq!(AdvancementRule.send(&info("Steve has made the advancement [Stone Age]")), None);
    assert_eq!(AdvancementRule.send(&info("Steve  has made the advancement [Stone Age")), None);
    assert_eq!(AdvancementRule.send(&warn("Steve  has made the advancement [Stone Age]")), None);
}

#[test]
fn server_events() {
    assert_eq!(
        ServerRule.send(&info("Starting minecraft server version 1.20.4")),
        s("**Starting minecraft server version 1.20.4**")
    );
    assert_eq!(ServerRule.send(&info("Stopping server")), s("**Stopping server**"));
    assert_eq!(
        ServerRule.send(&info("Done (3.214s)! For help, type \"help\"")),
        s("**Done (3.214s)! For help, type \"help\"**")
    );
    assert_eq!(ServerRule.send(&info("Stopping server now")), None);
    assert_eq!(ServerRule.send(&info("Done (3.214)! ")), None);
    assert_eq!(ServerRule.send(&info("x Stopping server")), None);
    assert_eq!(ServerRule.send(&warn("Stopping server")), None);
}

#[test]
fn deaths() {
    assert_eq!(DeathRule.send(&info("Steve was shot by Skeleton")), s("**Steve was shot by Skeleton**"));
    assert_eq!(DeathRule.send(&info("Steve drowned")), s("**Steve drowned**"));
    assert_eq!(DeathRule.send(&info("Steve fell out of the world")), s("**Steve fell out of the world**"));
    assert_eq!(
        DeathRule.send(&info("Steve didn't want to live in the same world as Alex")),
        s("**Steve didn't want to live in the same world as Alex**")
    );
    // `[Intentional Game Design]` is a character class: one of its characters suffices
    assert_eq!(DeathRule.send(&info("Steve was killed by G")), s("**Steve was killed by G**"));
    assert_eq!(DeathRule.send(&info("Steve was killed by X")), None);
    assert_eq!(DeathRule.send(&info("Steve won the game")), None);
    assert_eq!(DeathRule.send(&info("drowned")), None);
    assert_eq!(DeathRule.send(&warn("Steve drowned")), None);
}

#[test]
fn default_rules_in_order() {
    let rules = SendRules::new();
    assert_eq!(rules.rules.len(), 5);
    assert!(matches!(rules.rules[0], RuleKind::Chat));
    assert!(matches!(rules.rules[1], RuleKind::Login));
    assert!(matches!(rules.rules[2], RuleKind::Advancement));
    assert!(matches!(rules.rules[3], RuleKind::Server));
    assert!(matches!(rules.rules[4], RuleKind::Death));
}

#[test]
fn log_line_to_messages() {
    let rules = SendRules::new();
    assert_eq!(
        rules.log_line_messages("[12:34:56] [Server thread/INFO]: <Steve> hello"),
        vec!["**Steve**: hello".to_string()]
    );
    assert_eq!(
        rules.log_line_messages("[12:34:56] [Server thread/INFO] [minecraft/MinecraftServer]: Steve joined the game"),
        vec!["**Steve** joined the game".to_string()]
    );
    // a chat line that reads like a death is sent by both rules, chat first
    assert_eq!(
        rules.log_line_messages("[12:34:56] [Server thread/INFO]: <Steve> I died"),
        vec!["**Steve**: I died".to_string(), "**<Steve> I died**".to_string()]
    );
    assert_eq!(rules.log_line_messages("[12:34:56] [Server thread/WARN]: Steve drowned"), Vec::<String>::new());
    assert_eq!(rules.log_line_messages("Steve drowned"), Vec::<String>::new());
}

#[test]
fn messages_for_a_parsed_line() {
    let rules = SendRules::new();
    assert_eq!(rules.messages(&info("Stopping server")), vec!["**Stopping server**".to_string()]);
    assert_eq!(rules.messages(&info("nothing")), Vec::<String>::new());
    let one = SendRules { rules: vec![RuleKind::Death] };
    assert_eq!(one.messages(&info("<Steve> hi")), Vec::<String>::new());
}

#[test]
fn rule_kind_dispatches() {
    assert_eq!(RuleKind::Chat.send(&info("<a> b")), s("**a**: b"));
    assert_eq!(RuleKind::Login.send(&info("a left the game")), s("**a** left the game"));
    assert_eq!(RuleKind::Server.send(&info("Stopping server")), s("**Stopping server**"));
    assert_eq!(RuleKind::Death.send(&info("a burned to death")), s("**a burned to death**"));
    assert_eq!(
        RuleKind::Advancement.send(&info("a  has made the advancement [b]")),
        s("**a** has made the advancement _**b**_")
    );
}
