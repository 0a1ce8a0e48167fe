//! The settings of the bot, read from the environment.
use vstd::prelude::*;

verus! {

#[derive(Debug)]
pub struct Config {
    pub rcon_host: String,
    pub rcon_password: String,
    pub discord_bot_token: String,
    pub discord_bot_prefix: String,
    pub minecraft_log_path: Option<String>,
    pub minecraft_log_channel_id: Option<String>,
}

impl Default for Config {
    fn default() -> (r: Self)
        ensures
            r.rcon_host@ == Seq::<char>::empty(),
            r.rcon_password@ == Seq::<char>::empty(),
            r.discord_bot_token@ == Seq::<char>::empty(),
            r.discord_bot_prefix@ == Seq::<char>::empty(),
            r.minecraft_log_path is None,
            r.minecraft_log_channel_id is None,
    {
        Config {
            rcon_host: String::new(),
            rcon_password: String::new(),
            discord_bot_token: String::new(),
            discord_bot_prefix: String::new(),
            minecraft_log_path: None,
            minecraft_log_channel_id: None,
        }
    }
}

} // verus!
