//! The rules agree with the regular expressions that describe the log formats, on a
//! large set of generated messages.
use minecraft_command_bot::minecraft_line::MinecraftLine;
use minecraft_command_bot::send_rule::advancement_rule::AdvancementRule;
use minecraft_command_bot::send_rule::chat_rule::ChatRule;
use minecraft_command_bot::send_rule::death_rule::DeathRule;
use minecraft_command_bot::send_rule::login_rule::LoginRule;
use minecraft_command_bot::send_rule::server_rule::ServerRule;
use minecraft_command_bot::send_rule::SendRule;
use regex::Regex;

const DEATH_PATTERNS: [&str; 87] = [
    r"(.*?)\swas\sshot\sby\s(.*?)",
    r"(.*?)\swas\sshot\sby\s(.*?)\susing\s(.*?)",
    r"(.*?)\swas\spummeled\sby\s(.*?)",
    r"(.*?)\swas\spummeled\sby\s(.*?)\susing\s(.*?)",
    r"(.*?)\swas\spricked\sto\sdeath",
    r"(.*?)\swalked\sinto\sa\scactus\swhilst\strying\sto\sescape\s(.*?)",
    r"(.*?)\sdrowned",
    r"(.*?)\sdrowned\swhilst\strying\sto\sescape\s(.*?)",
    r"(.*?)\sexperienced\skinetic\senergy",
    r"(.*?)\sexperienced\skinetic\senergy\swhilst\strying\sto\sescape\s(.*?)",
    r"(.*?)\sblew\sup",
    r"(.*?)\swas\sblown\sup\sby\s(.*?)",
    r"(.*?)\swas\sblown\sup\sby\s(.*?)\susing\s(.*?)",
    r"(.*?)\swas\skilled\sby\s[Intentional\sGame\sDesign]",
    r"(.*?)\shit\sthe\sground\stoo\shard",
    r"(.*?)\shit\sthe\sground\stoo\shard\swhilst\strying\sto\sescape\s(.*?)",
    r"(.*?)\sfell\sfrom\sa\shigh\splace",
    r"(.*?)\sfell\soff\sa\sladder",
    r"(.*?)\sfell\soff\ssome\svines",
    r"(.*?)\sfell\soff\ssome\sweeping\svines",
    r"(.*?)\sfell\soff\ssome\stwisting\svines",
    r"(.*?)\sfell\soff\sscaffolding",
    r"(.*?)\sfell\swhile\sclimbing",
    r"(.*?)\swas\simpaled\son\sa\sstalagmite",
    r"(.*?)\swas\simpaled\son\sa\sstalagmite\swhilst\sfighting\s(.*?)",
    r"(.*?)\swas\ssquashed\sby\sa\sfalling\sanvil",
    r"(.*?)\swas\ssquashed\sby\sa\sfalling\sanvil\swhilst\sfighting\s(.*?)",
    r"(.*?)\swas\ssquashed\sby\sa\sfalling\sblock",
    r"(.*?)\swas\ssquashed\sby\sa\sfalling\sblock\swhilst\sfighting\s(.*?)",
    r"(.*?)\swas\sskewered\sby\sa\sfalling\sstalactite",
    r"(.*?)\swas\sskewered\sby\sa\sfalling\sstalactite\swhilst\sfighting\s(.*?)",
    r"(.*?)\swent\sup\sin\sflames",
    r"(.*?)\swalked\sinto\sfire\swhilst\sfighting\s(.*?)",
    r"(.*?)\sburned\sto\sdeath",
    r"(.*?)\swas\sburnt\sto\sa\scrisp\swhilst\sfighting\s(.*?)",
    r"(.*?)\swent\soff\swith\sa\sbang",
    r"(.*?)\swent\soff\swith\sa\sbang\sdue\sto\sa\sfirework\sfired\sfrom\s(.*?)\sby\s(.*?)",
    r"(.*?)\stried\sto\sswim\sin\slava",
    r"(.*?)\stried\sto\sswim\sin\slava\sto\sescape\s(.*?)",
    r"(.*?)\swas\sstruck\sby\slightning",
    r"(.*?)\swas\sstruck\sby\slightning\swhilst\sfighting\s(.*?)",
    r"(.*?)\sdiscovered\sthe\sfloor\swas\slava",
    r"(.*?)\swalked\sinto\sdanger\szone\sdue\sto\s(.*?)",
    r"(.*?)\swas\skilled\sby\smagic",
    r"(.*?)\swas\skilled\sby\smagic\swhilst\strying\sto\sescape\s(.*?)",
    r"(.*?)\swas\skilled\sby\s(.*?)\susing\smagic",
    r"(.*?)\swas\skilled\sby\s(.*?)\susing\s(.*?)",
    r"(.*?)\sfroze\sto\sdeath",
    r"(.*?)\swas\sfrozen\sto\sdeath\sby\s(.*?)",
    r"(.*?)\swas\sslain\sby\s(.*?)",
    r"(.*?)\swas\sslain\sby\s(.*?)\susing\s(.*?)",
    r"(.*?)\swas\sfireballed\sby\s(.*?)",
    r"(.*?)\swas\sfireballed\sby\s(.*?)\susing\s(.*?)",
    r"(.*?)\swas\sstung\sto\sdeath",
    r"(.*?)\swas\sshot\sby\sa\sskull\sfrom\s(.*?)",
    r"(.*?)\swas\sobliterated\sby\sa\ssonically-charged\sshriek",
    r"(.*?)\sstarved\sto\sdeath",
    r"(.*?)\sstarved\sto\sdeath\swhilst\sfighting\s(.*?)",
    r"(.*?)\ssuffocated\sin\sa\swall",
    r"(.*?)\ssuffocated\sin\sa\swall\swhilst\sfighting\s(.*?)",
    r"(.*?)\swas\ssquished\stoo\smuch",
    r"(.*?)\swas\ssquashed\sby\s(.*?)",
    r"(.*?)\swas\spoked\sto\sdeath\sby\sa\ssweet\sberry\sbush",
    r"(.*?)\swas\spoked\sto\sdeath\sby\sa\ssweet\sberry\sbush\swhilst\strying\sto\sescape\s(.*?)",
    r"(.*?)\swas\skilled\strying\sto\shurt\s(.*?)",
    r"(.*?)\swas\skilled\sby\s(.*?)\strying\sto\shurt\s(.*?)",
    r"(.*?)\swas\simpaled\sby\s(.*?)",
    r"(.*?)\swas\simpaled\sby\s(.*?)\swith\s(.*?)",
    r"(.*?)\sfell\sout\sof\sthe\sworld",
    r"(.*?)\sdidn't\swant\sto\slive\sin\sthe\ssame\sworld\sas\s(.*?)",
    r"(.*?)\swithered\saway",
    r"(.*?)\swithered\saway\swhilst\sfighting\s(.*?)",
    r"(.*?)\sdied\sfrom\sdehydration",
    r"(.*?)\sdied\sfrom\sdehydration\swhilst\strying\sto\sescape\s(.*?)",
    r"(.*?)\sdied",
    r"(.*?)\sdied\sbecause\sof\s(.*?)",
    r"(.*?)\swas\sroasted\sin\sdragon\sbreath",
    r"(.*?)\swas\sroasted\sin\sdragon\sbreath\sby\s(.*?)",
    r"(.*?)\swas\sdoomed\sto\sfall",
    r"(.*?)\swas\sdoomed\sto\sfall\sby\s(.*?)",
    r"(.*?)\swas\sdoomed\sto\sfall\sby\s(.*?)\susing\s(.*?)",
    r"(.*?)\sfell\stoo\sfar\sand\swas\sfinished\sby\s(.*?)",
    r"(.*?)\sfell\stoo\sfar\sand\swas\sfinished\sby\s(.*?)\susing\s(.*?)",
    r"(.*?)\swas\sstung\sto\sdeath\sby\s(.*?)",
    r"(.*?)\swent\soff\swith\sa\sbang\swhilst\sfighting\s(.*?)",
    r"(.*?)\swas\sobliterated\sby\sa\ssonically-charged\sshriek\swhilst\strying\sto\sescape\s(.*?)",
    r"(.*?)\swas\skilled\sby\seven\smore\smagic",
];

const SERVER_PATTERNS: [&str; 3] = [
    r"^Starting\sminecraft\sserver\sversion\s.*$",
    r"^Stopping\sserver$",
    r"^Done\s\(.*s\)!",
];

const LOG_PATTERN: &str = r"\[(?P<time>[^\]]+)] \[(?P<caused_at>[^/]+)/(?P<level>[^\]]+)](?: \[[^\]]+])?: (?P<message>.*)";

struct Patterns {
    chat: Regex,
    login: Regex,
    advancement: Regex,
    server: Vec<Regex>,
    death: Vec<Regex>,
    log: Regex,
}

fn patterns() -> Patterns {
    Patterns {
        chat: Regex::new(r"^<(.*?)>\s(.*)$").unwrap(),
        login: Regex::new(r"^(.*)\s(joined|left)\sthe\sgame$").unwrap(),
        advancement: Regex::new(r"^(.*)\s\shas\smade\sthe\sadvancement\s\[(.*)\]$").unwrap(),
        server: SERVER_PATTERNS.iter().map(|p| Regex::new(p).unwrap()).collect(),
        death: DEATH_PATTERNS.iter().map(|p| Regex::new(p).unwrap()).collect(),
        log: Regex::new(LOG_PATTERN).unwrap(),
    }
}

fn from_server_info(line: &MinecraftLine) -> bool {
    line.caused_at.contains("Server thread") && line.level == "INFO"
}

fn expect_chat(p: &Patterns, line: &MinecraftLine) -> Option<String> {
    p.chat.captures(&line.message).map(|c| format!("**{}**: {}", &c[1], &c[2]))
}

fn expect_login(p: &Patterns, line: &MinecraftLine) -> Option<String> {
    if !from_server_info(line) {
        return None;
    }
    p.login.captures(&line.message).map(|c| format!("**{}** {} the game", &c[1], &c[2]))
}

fn expect_advancement(p: &Patterns, line: &MinecraftLine) -> Option<String> {
    if !from_server_info(line) {
        return None;
    }
    p.advancement
        .captures(&line.message)
        .map(|c| format!("**{}** has made the advancement _**{}**_", &c[1], &c[2]))
}

fn expect_any(res: &[Regex], line: &MinecraftLine) -> Option<String> {
    if !from_server_info(line) {
        return None;
    }
    if res.iter().any(|r| r.is_match(&line.message)) {
        Some(format!("**{}**", line.message))
    } else {
        None
    }
}

fn expect_parts(p: &Patterns, raw: &str) -> Option<(String, String, String, String)> {
    p.log.captures(raw).map(|c| {
        (
            c.name("time").map_or("", |m| m.as_str()).to_string(),
            c.name("caused_at").map_or("", |m| m.as_str()).to_string(),
            c.name("level").map_or("", |m| m.as_str()).to_string(),
            c.name("message").map_or("", |m| m.as_str()).to_string(),
        )
    })
}

const FRAGMENTS: [&str; 58] = [
    "<", ">", " ", " ", " ", "\t", "\u{3000}", "\u{a0}", "\n", "a", "Steve", "x>y", "joined", "left",
    " the game", "the", "game", "has made the advancement", "  has made the advancement [", "[",
    "]", "/", ":", ": ", "was", " was shot by ", "using", " using ", "died", " died", "Done (",
    "s)!", "Stopping server", "Starting minecraft server version ", "Server thread", "INFO",
    "I", "G", " was killed by ", "drowned", " drowned", "fell", " fell off a ladder", "by",
    " burned to death", "12:00", "[12:00] [Server thread/INFO]: ", "[t] [a/b] [c]: ", "s",
    ")", "(", "!", "é", "名", "\r", "magic", " was killed by magic", "whilst",
];

struct Lcg(u64);

impl Lcg {
    fn next(&mut self, n: usize) -> usize {
        self.0 = self.0.wrapping_mul(6364136223846793005).wrapping_add(1442695040888963407);
        ((self.0 >> 33) % n as u64) as usize
    }
}

fn generate(rng: &mut Lcg) -> String {
    let k = 1 + rng.next(7);
    let mut s = String::new();
    for _ in 0..k {
        s.push_str(FRAGMENTS[rng.next(FRAGMENTS.len())]);
    }
    s
}

#[test]
fn rules_agree_with_patterns() {
    let p = patterns();
    let mut rng = Lcg(7);
    for _ in 0..20000 {
        let msg = generate(&mut rng);
        let level = if rng.next(4) == 0 { "WARN" } else { "INFO" };
        let thread = if rng.next(4) == 0 { "Worker" } else { "Server thread" };
        let line = MinecraftLine::new("t".into(), thread.into(), level.into(), msg.clone());
        assert_eq!(ChatRule.send(&line), expect_chat(&p, &line), "chat: {:?}", msg);
        assert_eq!(LoginRule.send(&line), expect_login(&p, &line), "login: {:?}", msg);
        assert_eq!(AdvancementRule.send(&line), expect_advancement(&p, &line), "advancement: {:?}", msg);
        assert_eq!(ServerRule.send(&line), expect_any(&p.server, &line), "server: {:?}", msg);
        assert_eq!(DeathRule.send(&line), expect_any(&p.death, &line), "death: {:?}", msg);
    }
}

#[test]
fn death_phrases_agree_with_patterns() {
    let p = patterns();
    let subjects = ["Steve", "Alex the Great", "x"];
    let objects = ["Zombie", "Skeleton", "an arrow"];
    for pat in DEATH_PATTERNS.iter() {
        // write the message that the pattern describes, filling each gap
        let body = pat.trim_start_matches("(.*?)");
        for (i, subj) in subjects.iter().enumerate() {
            let text = body
                .replace("[Intentional\\sGame\\sDesign]", "[Intentional Game Design]")
                .replace("\\s", " ")
                .replace("(.*?)", objects[i]);
            let msg = format!("{}{}", subj, text);
            let line = MinecraftLine::new("t".into(), "Server thread".into(), "INFO".into(), msg.clone());
            assert_eq!(DeathRule.send(&line), expect_any(&p.death, &line), "death: {:?}", msg);
            if pat.contains("[Intentional") {
                // the brackets form a character class, which the written-out brackets do not match
                assert!(DeathRule.send(&line).is_none(), "{:?}", msg);
            } else {
                assert!(DeathRule.send(&line).is_some(), "not a death: {:?}", msg);
            }
        }
    }
}

#[test]
fn log_lines_agree_with_pattern() {
    let p = patterns();
    let mut rng = Lcg(11);
    for _ in 0..20000 {
        let raw = generate(&mut rng);
        let got = MinecraftLine::from_log_line(&raw).map(|l| (l.time, l.caused_at, l.level, l.message));
        assert_eq!(got, expect_parts(&p, &raw), "line: {:?}", raw);
    }
}
