use minecraft_command_bot::commands::{
    cmd_step, rcon_address, response_chunks, response_messages_exec, say_command, status_text,
    CmdAction, CmdEvent, CmdRefusal, CmdState, CMD_ROLE, RESPONSE_CHUNK_CHARS, SUCCESS_REPLY,
};

#[test]
fn empty_response_sends_nothing() {
    assert!(response_chunks("").is_empty());
    assert!(response_messages_exec("").is_empty());
}

#[test]
fn short_response_is_one_block() {
    assert_eq!(response_messages_exec("There are 0 of a max of 20 players online"),
        vec!["```There are 0 of a max of 20 players online```".to_string()]);
}

#[test]
fn long_response_is_cut_at_1994_chars() {
    assert_eq!(RESPONSE_CHUNK_CHARS, 1994);
    let exact: String = "a".repeat(1994);
    assert_eq!(response_chunks(&exact), vec![exact.clone()]);
    let longer: String = "b".repeat(1995);
    let chunks = response_chunks(&longer);
    assert_eq!(chunks, vec!["b".repeat(1994), "b".to_string()]);
    let much: String = "c".repeat(5000);
    let chunks = response_chunks(&much);
    assert_eq!(chunks.len(), 3);
    assert_eq!(chunks.concat(), much);
}

#[test]
fn chunks_count_characters_not_bytes() {
    let text: String = "é".repeat(1994) + "名";
    let chunks = response_chunks(&text);
    assert_eq!(chunks, vec!["é".repeat(1994), "名".to_string()]);
}

#[test]
fn every_message_fits_discord() {
    let text: String = "x".repeat(10000);
    for m in response_messages_exec(&text) {
        assert!(m.chars().count() <= 2000);
        assert!(m.starts_with("```") && m.ends_with("```"));
    }
}

#[test]
fn refusal_replies() {
    assert_eq!(CmdRefusal::NoGuild.reply(), "Cannot get partial_guild");
    assert_eq!(CmdRefusal::NoCmdRole.reply(), "Cannot get cmd role");
    assert_eq!(CmdRefusal::NotPermitted.reply(), "You do not have cmd role");
    assert_eq!(CMD_ROLE, "cmd");
    assert_eq!(SUCCESS_REPLY, "success");
}

#[test]
fn cmd_runs_for_a_permitted_member() {
    let (s, a) = cmd_step(CmdState::AwaitGuild, CmdEvent::GuildFetched { guild_found: true, cmd_role_found: true });
    assert!(matches!(a, CmdAction::CheckRole));
    let (s, a) = cmd_step(s, CmdEvent::RoleChecked { has_cmd_role: true });
    assert!(matches!(a, CmdAction::Connect));
    let (s, a) = cmd_step(s, CmdEvent::Connected { ok: true });
    assert!(matches!(a, CmdAction::Run));
    let (s, a) = cmd_step(s, CmdEvent::Responded);
    assert!(matches!(a, CmdAction::Report));
    assert!(matches!(s, CmdState::Finished));
}

#[test]
fn cmd_refuses() {
    let (s, a) = cmd_step(CmdState::AwaitGuild, CmdEvent::GuildFetched { guild_found: false, cmd_role_found: true });
    assert!(matches!(a, CmdAction::Refuse(CmdRefusal::NoGuild)));
    assert!(matches!(s, CmdState::Finished));
    let (_, a) = cmd_step(CmdState::AwaitGuild, CmdEvent::GuildFetched { guild_found: true, cmd_role_found: false });
    assert!(matches!(a, CmdAction::Refuse(CmdRefusal::NoCmdRole)));
    let (_, a) = cmd_step(CmdState::AwaitRoleCheck, CmdEvent::RoleChecked { has_cmd_role: false });
    assert!(matches!(a, CmdAction::Refuse(CmdRefusal::NotPermitted)));
    let (_, a) = cmd_step(CmdState::AwaitConnection, CmdEvent::Connected { ok: false });
    assert!(matches!(a, CmdAction::FailConnection));
}

#[test]
fn cmd_ignores_events_out_of_turn() {
    let (s, a) = cmd_step(CmdState::AwaitGuild, CmdEvent::Connected { ok: true });
    assert!(matches!(a, CmdAction::Ignore));
    assert!(matches!(s, CmdState::AwaitGuild));
    let (s, a) = cmd_step(CmdState::AwaitRoleCheck, CmdEvent::Connected { ok: true });
    assert!(matches!(a, CmdAction::Ignore));
    assert!(matches!(s, CmdState::AwaitRoleCheck));
}

#[test]
fn say_uses_nick_then_display_name_then_name() {
    assert_eq!(say_command(Some("Nick"), Some("Global"), "name", "howdy!"), "say <Nick> howdy!");
    assert_eq!(say_command(None, Some("Global"), "name", "howdy!"), "say <Global> howdy!");
    assert_eq!(say_command(None, None, "name", "howdy!"), "say <name> howdy!");
}

#[test]
fn rcon_port() {
    assert_eq!(rcon_address("mc"), "mc:25575");
}

#[test]
fn status_counts_players() {
    assert_eq!(status_text(0), "0 player(s) online");
    assert_eq!(status_text(7), "7 player(s) online");
    assert_eq!(status_text(1234), "1234 player(s) online");
    assert_eq!(status_text(u32::MAX), "4294967295 player(s) online");
}
