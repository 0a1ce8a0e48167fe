//! The decisions of the event handler: starting the background loops once, and where
//! the server log goes.
use vstd::prelude::*;
use crate::config::Config;
use crate::number::{parse_decimal_u64, parse_u64};

verus! {

/// Whether the background loops (log tailing, status updates) run.
pub struct BotState {
    pub loop_running: bool,
}

/// On `Ready`: whether to start the loops, and whether they run afterwards.
pub open spec fn ready_step(loop_running: bool) -> (bool, bool) {
    (!loop_running, true)
}

impl BotState {
    pub fn new() -> (r: Self)
        ensures
            !r.loop_running,
    {
        BotState { loop_running: false }
    }

    /// Handles `Ready`: the loops start unless they already run.
    pub fn on_ready(&mut self) -> (start: bool)
        ensures
            (start, final(self).loop_running) == ready_step(old(self).loop_running),
    {
        let start = !self.loop_running;
        self.loop_running = true;
        start
    }
}

/// However often `Ready` comes, the loops start at most once: after any `Ready`,
/// a later one starts nothing.
pub proof fn lemma_loops_start_once(loop_running: bool)
    ensures
        !ready_step(ready_step(loop_running).1).0,
        ready_step(ready_step(loop_running).1).1,
{
}

/// What becomes of the server log.
pub enum TailPlan {
    /// `MINECRAFT_LOG_PATH` is not set: the log is not read.
    NoLogPath,
    /// `MINECRAFT_LOG_CHANNEL_ID` is not set: the log is not read.
    NoChannel,
    /// The channel id is not a number (the bot gives up).
    BadChannelId,
    /// Read the log at `path` and send to channel `channel_id`.
    Tail { path: String, channel_id: u64 },
}

/// Decides from the settings whether and where the server log is sent.
pub fn tail_plan(config: &Config) -> (r: TailPlan)
    ensures
        match config.minecraft_log_path {
            None => r is NoLogPath,
            Some(p) => match config.minecraft_log_channel_id {
                None => r is NoChannel,
                Some(c) => match parse_u64(c@) {
                    None => r is BadChannelId,
                    Some(id) => r matches TailPlan::Tail { path, channel_id } && path@ == p@
                        && channel_id == id,
                },
            },
        },
{
    match &config.minecraft_log_path {
        None => TailPlan::NoLogPath,
        Some(p) => match &config.minecraft_log_channel_id {
            None => TailPlan::NoChannel,
            Some(c) => match parse_decimal_u64(c.as_str()) {
                None => TailPlan::BadChannelId,
                Some(id) => TailPlan::Tail { path: p.clone(), channel_id: id },
            },
        },
    }
}

} // verus!
