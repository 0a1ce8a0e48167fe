//! Death messages.
use vstd::prelude::*;
use crate::minecraft_line::{LineParts, MinecraftLine};
use crate::send_rule::{bold, bold_text, from_server_info, is_server_info, opt_view, SendRule};
use crate::text::{
    chars_of, elem_matches, is_ws, lemma_pattern_prefix, pattern_found, pattern_found_exec,
    pattern_from,
};

verus! {

#[derive(Clone)]
pub struct DeathRule;

/// How many death phrases there are.
pub const DEATH_PHRASE_COUNT: usize = 87;

/// The death phrases of the game, one per death message; `' '` is any whitespace,
/// `'|'` a run of characters other than a newline, `'#'` one character of
/// `[Intentional\sGame\sDesign]`. The phrase may stand anywhere in the message.
pub open spec fn death_phrase(i: int) -> Seq<char> {
    if i == 0 {
        " was shot by |"@
    } else if i == 1 {
        " was shot by | using |"@
    } else if i == 2 {
        " was pummeled by |"@
    } else if i == 3 {
        " was pummeled by | using |"@
    } else if i == 4 {
        " was pricked to death"@
    } else if i == 5 {
        " walked into a cactus whilst trying to escape |"@
    } else if i == 6 {
        " drowned"@
    } else if i == 7 {
        " drowned whilst trying to escape |"@
    } else if i == 8 {
        " experienced kinetic energy"@
    } else if i == 9 {
        " experienced kinetic energy whilst trying to escape |"@
    } else if i == 10 {
        " blew up"@
    } else if i == 11 {
        " was blown up by |"@
    } else if i == 12 {
        " was blown up by | using |"@
    } else if i == 13 {
        " was killed by #"@
    } else if i == 14 {
        " hit the ground too hard"@
    } else if i == 15 {
        " hit the ground too hard whilst trying to escape |"@
    } else if i == 16 {
        " fell from a high place"@
    } else if i == 17 {
        " fell off a ladder"@
    } else if i == 18 {
        " fell off some vines"@
    } else if i == 19 {
        " fell off some weeping vines"@
    } else if i == 20 {
        " fell off some twisting vines"@
    } else if i == 21 {
        " fell off scaffolding"@
    } else if i == 22 {
        " fell while climbing"@
    } else if i == 23 {
        " was impaled on a stalagmite"@
    } else if i == 24 {
        " was impaled on a stalagmite whilst fighting |"@
    } else if i == 25 {
        " was squashed by a falling anvil"@
    } else if i == 26 {
        " was squashed by a falling anvil whilst fighting |"@
    } else if i == 27 {
        " was squashed by a falling block"@
    } else if i == 28 {
        " was squashed by a falling block whilst fighting |"@
    } else if i == 29 {
        " was skewered by a falling stalactite"@
    } else if i == 30 {
        " was skewered by a falling stalactite whilst fighting |"@
    } else if i == 31 {
        " went up in flames"@
    } else if i == 32 {
        " walked into fire whilst fighting |"@
    } else if i == 33 {
        " burned to death"@
    } else if i == 34 {
        " was burnt to a crisp whilst fighting |"@
    } else if i == 35 {
        " went off with a bang"@
    } else if i == 36 {
        " went off with a bang due to a firework fired from | by |"@
    } else if i == 37 {
        " tried to swim in lava"@
    } else if i == 38 {
        " tried to swim in lava to escape |"@
    } else if i == 39 {
        " was struck by lightning"@
    } else if i == 40 {
        " was struck by lightning whilst fighting |"@
    } else if i == 41 {
        " discovered the floor was lava"@
    } else if i == 42 {
        " walked into danger zone due to |"@
    } else if i == 43 {
        " was killed by magic"@
    } else if i == 44 {
        " was killed by magic whilst trying to escape |"@
    } else if i == 45 {
        " was killed by | using magic"@
    } else if i == 46 {
        " was killed by | using |"@
    } else if i == 47 {
        " froze to death"@
    } else if i == 48 {
        " was frozen to death by |"@
    } else if i == 49 {
        " was slain by |"@
    } else if i == 50 {
        " was slain by | using |"@
    } else if i == 51 {
        " was fireballed by |"@
    } else if i == 52 {
        " was fireballed by | using |"@
    } else if i == 53 {
        " was stung to death"@
    } else if i == 54 {
        " was shot by a skull from |"@
    } else if i == 55 {
        " was obliterated by a sonically-charged shriek"@
    } else if i == 56 {
        " starved to death"@
    } else if i == 57 {
        " starved to death whilst fighting |"@
    } else if i == 58 {
        " suffocated in a wall"@
    } else if i == 59 {
        " suffocated in a wall whilst fighting |"@
    } else if i == 60 {
        " was squished too much"@
    } else if i == 61 {
        " was squashed by |"@
    } else if i == 62 {
        " was poked to death by a sweet berry bush"@
    } else if i == 63 {
        " was poked to death by a sweet berry bush whilst trying to escape |"@
    } else if i == 64 {
        " was killed trying to hurt |"@
    } else if i == 65 {
        " was killed by | trying to hurt |"@
    } else if i == 66 {
        " was impaled by |"@
    } else if i == 67 {
        " was impaled by | with |"@
    } else if i == 68 {
        " fell out of the world"@
    } else if i == 69 {
        " didn't want to live in the same world as |"@
    } else if i == 70 {
        " withered away"@
    } else if i == 71 {
        " withered away whilst fighting |"@
    } else if i == 72 {
        " died from dehydration"@
    } else if i == 73 {
        " died from dehydration whilst trying to escape |"@
    } else if i == 74 {
        " died"@
    } else if i == 75 {
        " died because of |"@
    } else if i == 76 {
        " was roasted in dragon breath"@
    } else if i == 77 {
        " was roasted in dragon breath by |"@
    } else if i == 78 {
        " was doomed to fall"@
    } else if i == 79 {
        " was doomed to fall by |"@
    } else if i == 80 {
        " was doomed to fall by | using |"@
    } else if i == 81 {
        " fell too far and was finished by |"@
    } else if i == 82 {
        " fell too far and was finished by | using |"@
    } else if i == 83 {
        " was stung to death by |"@
    } else if i == 84 {
        " went off with a bang whilst fighting |"@
    } else if i == 85 {
        " was obliterated by a sonically-charged shriek whilst trying to escape |"@
    } else if i == 86 {
        " was killed by even more magic"@
    } else {
        Seq::empty()
    }
}

/// The message holds one of the death phrases.
pub open spec fn is_death_message(t: Seq<char>) -> bool {
    exists|i: int| 0 <= i < DEATH_PHRASE_COUNT && pattern_found(#[trigger] death_phrase(i), t)
}

/// The first two letters of the first word of a death phrase.
spec fn death_start(a: char, b: char) -> bool {
    ||| a == 'b' && (b == 'l' || b == 'u')
    ||| a == 'd' && (b == 'i' || b == 'r')
    ||| a == 'e' && b == 'x'
    ||| a == 'f' && (b == 'e' || b == 'r')
    ||| a == 'h' && b == 'i'
    ||| a == 's' && (b == 't' || b == 'u')
    ||| a == 't' && b == 'r'
    ||| a == 'w' && (b == 'a' || b == 'e' || b == 'i')
}

/// Every death phrase starts with whitespace and a word that begins with one of a few
/// letter pairs.
proof fn lemma_death_phrase_start(i: int)
    requires
        0 <= i < DEATH_PHRASE_COUNT,
    ensures
        death_phrase(i).len() >= 3,
        death_phrase(i)[0] == ' ',
        death_start(death_phrase(i)[1], death_phrase(i)[2]),
{
    if i == 0 {
        reveal_strlit(" was shot by |");
    } else if i == 1 {
        reveal_strlit(" was shot by | using |");
    } else if i == 2 {
        reveal_strlit(" was pummeled by |");
    } else if i == 3 {
        reveal_strlit(" was pummeled by | using |");
    } else if i == 4 {
        reveal_strlit(" was pricked to death");
    } else if i == 5 {
        reveal_strlit(" walked into a cactus whilst trying to escape |");
    } else if i == 6 {
        reveal_strlit(" drowned");
    } else if i == 7 {
        reveal_strlit(" drowned whilst trying to escape |");
    } else if i == 8 {
        reveal_strlit(" experienced kinetic energy");
    } else if i == 9 {
        reveal_strlit(" experienced kinetic energy whilst trying to escape |");
    } else if i == 10 {
        reveal_strlit(" blew up");
    } else if i == 11 {
        reveal_strlit(" was blown up by |");
    } else if i == 12 {
        reveal_strlit(" was blown up by | using |");
    } else if i == 13 {
        reveal_strlit(" was killed by #");
    } else if i == 14 {
        reveal_strlit(" hit the ground too hard");
    } else if i == 15 {
        reveal_strlit(" hit the ground too hard whilst trying to escape |");
    } else if i == 16 {
        reveal_strlit(" fell from a high place");
    } else if i == 17 {
        reveal_strlit(" fell off a ladder");
    } else if i == 18 {
        reveal_strlit(" fell off some vines");
    } else if i == 19 {
        reveal_strlit(" fell off some weeping vines");
    } else if i == 20 {
        reveal_strlit(" fell off some twisting vines");
    } else if i == 21 {
        reveal_strlit(" fell off scaffolding");
    } else if i == 22 {
        reveal_strlit(" fell while climbing");
    } else if i == 23 {
        reveal_strlit(" was impaled on a stalagmite");
    } else if i == 24 {
        reveal_strlit(" was impaled on a stalagmite whilst fighting |");
    } else if i == 25 {
        reveal_strlit(" was squashed by a falling anvil");
    } else if i == 26 {
        reveal_strlit(" was squashed by a falling anvil whilst fighting |");
    } else if i == 27 {
        reveal_strlit(" was squashed by a falling block");
    } else if i == 28 {
        reveal_strlit(" was squashed by a falling block whilst fighting |");
    } else if i == 29 {
        reveal_strlit(" was skewered by a falling stalactite");
    } else if i == 30 {
        reveal_strlit(" was skewered by a falling stalactite whilst fighting |");
    } else if i == 31 {
        reveal_strlit(" went up in flames");
    } else if i == 32 {
        reveal_strlit(" walked into fire whilst fighting |");
    } else if i == 33 {
        reveal_strlit(" burned to death");
    } else if i == 34 {
        reveal_strlit(" was burnt to a crisp whilst fighting |");
    } else if i == 35 {
        reveal_strlit(" went off with a bang");
    } else if i == 36 {
        reveal_strlit(" went off with a bang due to a firework fired from | by |");
    } else if i == 37 {
        reveal_strlit(" tried to swim in lava");
    } else if i == 38 {
        reveal_strlit(" tried to swim in lava to escape |");
    } else if i == 39 {
        reveal_strlit(" was struck by lightning");
    } else if i == 40 {
        reveal_strlit(" was struck by lightning whilst fighting |");
    } else if i == 41 {
        reveal_strlit(" discovered the floor was lava");
    } else if i == 42 {
        reveal_strlit(" walked into danger zone due to |");
    } else if i == 43 {
        reveal_strlit(" was killed by magic");
    } else if i == 44 {
        reveal_strlit(" was killed by magic whilst trying to escape |");
    } else if i == 45 {
        reveal_strlit(" was killed by | using magic");
    } else if i == 46 {
        reveal_strlit(" was killed by | using |");
    } else if i == 47 {
        reveal_strlit(" froze to death");
    } else if i == 48 {
        reveal_strlit(" was frozen to death by |");
    } else if i == 49 {
        reveal_strlit(" was slain by |");
    } else if i == 50 {
        reveal_strlit(" was slain by | using |");
    } else if i == 51 {
        reveal_strlit(" was fireballed by |");
    } else if i == 52 {
        reveal_strlit(" was fireballed by | using |");
    } else if i == 53 {
        reveal_strlit(" was stung to death");
    } else if i == 54 {
        reveal_strlit(" was shot by a skull from |");
    } else if i == 55 {
        reveal_strlit(" was obliterated by a sonically-charged shriek");
    } else if i == 56 {
        reveal_strlit(" starved to death");
    } else if i == 57 {
        reveal_strlit(" starved to death whilst fighting |");
    } else if i == 58 {
        reveal_strlit(" suffocated in a wall");
    } else if i == 59 {
        reveal_strlit(" suffocated in a wall whilst fighting |");
    } else if i == 60 {
        reveal_strlit(" was squished too much");
    } else if i == 61 {
        reveal_strlit(" was squashed by |");
    } else if i == 62 {
        reveal_strlit(" was poked to death by a sweet berry bush");
    } else if i == 63 {
        reveal_strlit(" was poked to death by a sweet berry bush whilst trying to escape |");
    } else if i == 64 {
        reveal_strlit(" was killed trying to hurt |");
    } else if i == 65 {
        reveal_strlit(" was killed by | trying to hurt |");
    } else if i == 66 {
        reveal_strlit(" was impaled by |");
    } else if i == 67 {
        reveal_strlit(" was impaled by | with |");
    } else if i == 68 {
        reveal_strlit(" fell out of the world");
    } else if i == 69 {
        reveal_strlit(" didn't want to live in the same world as |");
    } else if i == 70 {
        reveal_strlit(" withered away");
    } else if i == 71 {
        reveal_strlit(" withered away whilst fighting |");
    } else if i == 72 {
        reveal_strlit(" died from dehydration");
    } else if i == 73 {
        reveal_strlit(" died from dehydration whilst trying to escape |");
    } else if i == 74 {
        reveal_strlit(" died");
    } else if i == 75 {
        reveal_strlit(" died because of |");
    } else if i == 76 {
        reveal_strlit(" was roasted in dragon breath");
    } else if i == 77 {
        reveal_strlit(" was roasted in dragon breath by |");
    } else if i == 78 {
        reveal_strlit(" was doomed to fall");
    } else if i == 79 {
        reveal_strlit(" was doomed to fall by |");
    } else if i == 80 {
        reveal_strlit(" was doomed to fall by | using |");
    } else if i == 81 {
        reveal_strlit(" fell too far and was finished by |");
    } else if i == 82 {
        reveal_strlit(" fell too far and was finished by | using |");
    } else if i == 83 {
        reveal_strlit(" was stung to death by |");
    } else if i == 84 {
        reveal_strlit(" went off with a bang whilst fighting |");
    } else if i == 85 {
        reveal_strlit(" was obliterated by a sonically-charged shriek whilst trying to escape |");
    } else if i == 86 {
        reveal_strlit(" was killed by even more magic");
    }
}

/// No whitespace in `t` is followed by two letters that start a death phrase.
spec fn no_death_start(t: Seq<char>) -> bool {
    forall|j: int|
        0 <= j && j + 2 < t.len() && is_ws(#[trigger] t[j]) ==> !death_start(t[j + 1], t[j + 2])
}

proof fn lemma_no_death_start(t: Seq<char>)
    requires
        no_death_start(t),
    ensures
        !is_death_message(t),
{
    if is_death_message(t) {
        let i = choose|i: int| 0 <= i < DEATH_PHRASE_COUNT && pattern_found(#[trigger] death_phrase(i), t);
        let p = death_phrase(i);
        lemma_death_phrase_start(i);
        let j = choose|j: int| 0 <= j <= t.len() && #[trigger] pattern_from(p, t, 0, j);
        assert(pattern_from(p, t, 1, j + 1));
        assert(pattern_from(p, t, 2, j + 2));
        assert(j + 2 < t.len());
        assert(is_ws(t[j]));
        assert(t[j + 1] == p[1]);
        assert(t[j + 2] == p[2]);
    }
}

/// The text has no whitespace.
pub open spec fn no_ws(s: Seq<char>) -> bool {
    forall|i: int| 0 <= i < s.len() ==> !is_ws(#[trigger] s[i])
}

proof fn lemma_suffix_no_death_start(name: Seq<char>, suffix: Seq<char>)
    requires
        no_ws(name),
        forall|j: int| 0 <= j && j + 2 < suffix.len() && is_ws(#[trigger] suffix[j]) ==> !death_start(
            suffix[j + 1],
            suffix[j + 2],
        ),
    ensures
        no_death_start(name + suffix),
{
    let t = name + suffix;
    assert forall|j: int| 0 <= j && j + 2 < t.len() && is_ws(#[trigger] t[j]) implies !death_start(
        t[j + 1],
        t[j + 2],
    ) by {
        if j < name.len() {
            assert(t[j] == name[j]);
        } else {
            let k = j - name.len();
            assert(t[j] == suffix[k]);
            assert(t[j + 1] == suffix[k + 1]);
            assert(t[j + 2] == suffix[k + 2]);
        }
    }
}

proof fn lemma_phrase_found(name: Seq<char>, s: Seq<char>, i: int, m: int)
    requires
        0 <= i < DEATH_PHRASE_COUNT,
        0 <= m <= death_phrase(i).len(),
        m <= s.len(),
        forall|k: int|
            0 <= k < m ==> #[trigger] death_phrase(i)[k] == s[k] && death_phrase(i)[k] != '|'
                && death_phrase(i)[k] != '#',
        forall|k: int| m <= k < death_phrase(i).len() ==> #[trigger] death_phrase(i)[k] == '|',
    ensures
        is_death_message(name + s),
{
    let p = death_phrase(i);
    let t = name + s;
    let j = name.len() as int;
    assert forall|k: int| 0 <= k < m implies p[k] != '|' && elem_matches(#[trigger] p[k], t[j + k - 0]) by {
        assert(t[j + k] == s[k]);
        assert(p[k] == s[k]);
        if p[k] == ' ' {
            assert(is_ws(' '));
        }
    }
    lemma_pattern_prefix(p, t, 0, j, m);
    assert(pattern_from(p, t, 0, j));
    assert(pattern_found(death_phrase(i), t));
}

/// The commonest deaths are sent: whatever the player's name, and whoever killed them,
/// `name drowned`, `name died`, `name fell out of the world`, `name fell from a high
/// place`, `name burned to death`, `name starved to death`, `name hit the ground too
/// hard`, `name was slain by killer`, `name was shot by killer` and `name was blown up by
/// killer` are death messages.
pub proof fn lemma_common_deaths(name: Seq<char>, by: Seq<char>)
    ensures
        is_death_message(name + " drowned"@),
        is_death_message(name + " died"@),
        is_death_message(name + " fell out of the world"@),
        is_death_message(name + " fell from a high place"@),
        is_death_message(name + " burned to death"@),
        is_death_message(name + " starved to death"@),
        is_death_message(name + " hit the ground too hard"@),
        is_death_message(name + " was slain by "@ + by),
        is_death_message(name + " was shot by "@ + by),
        is_death_message(name + " was blown up by "@ + by),
{
    reveal_strlit(" drowned");
    reveal_strlit(" died");
    reveal_strlit(" fell out of the world");
    reveal_strlit(" fell from a high place");
    reveal_strlit(" burned to death");
    reveal_strlit(" starved to death");
    reveal_strlit(" hit the ground too hard");
    reveal_strlit(" was slain by |");
    reveal_strlit(" was shot by |");
    reveal_strlit(" was blown up by |");
    reveal_strlit(" drowned");
    lemma_phrase_found(name, " drowned"@, 6, 8);
    reveal_strlit(" died");
    lemma_phrase_found(name, " died"@, 74, 5);
    reveal_strlit(" fell out of the world");
    lemma_phrase_found(name, " fell out of the world"@, 68, 22);
    reveal_strlit(" fell from a high place");
    lemma_phrase_found(name, " fell from a high place"@, 16, 23);
    reveal_strlit(" burned to death");
    lemma_phrase_found(name, " burned to death"@, 33, 16);
    reveal_strlit(" starved to death");
    lemma_phrase_found(name, " starved to death"@, 56, 17);
    reveal_strlit(" hit the ground too hard");
    lemma_phrase_found(name, " hit the ground too hard"@, 14, 24);
    reveal_strlit(" was slain by ");
    lemma_phrase_found(name, " was slain by "@ + by, 49, 14);
    assert(name + (" was slain by "@ + by) =~= name + " was slain by "@ + by);
    reveal_strlit(" was shot by ");
    lemma_phrase_found(name, " was shot by "@ + by, 0, 13);
    assert(name + (" was shot by "@ + by) =~= name + " was shot by "@ + by);
    reveal_strlit(" was blown up by ");
    lemma_phrase_found(name, " was blown up by "@ + by, 11, 17);
    assert(name + (" was blown up by "@ + by) =~= name + " was blown up by "@ + by);
}

/// Lines about players coming and going are not deaths: for a player name without
/// whitespace, `name lost connection: Disconnected`, `name joined the game` and
/// `name left the game` hold none of the death phrases, so nothing is sent for them
/// as a death.
pub proof fn lemma_not_death_messages(name: Seq<char>)
    requires
        no_ws(name),
    ensures
        !is_death_message(name + " lost connection: Disconnected"@),
        !is_death_message(name + " joined the game"@),
        !is_death_message(name + " left the game"@),
{
    reveal_strlit(" lost connection: Disconnected");
    reveal_strlit(" joined the game");
    reveal_strlit(" left the game");
    lemma_suffix_no_death_start(name, " lost connection: Disconnected"@);
    lemma_suffix_no_death_start(name, " joined the game"@);
    lemma_suffix_no_death_start(name, " left the game"@);
    lemma_no_death_start(name + " lost connection: Disconnected"@);
    lemma_no_death_start(name + " joined the game"@);
    lemma_no_death_start(name + " left the game"@);
}

fn death_phrase_text(i: usize) -> (r: &'static str)
    requires
        i < DEATH_PHRASE_COUNT,
    ensures
        r@ == death_phrase(i as int),
{
    match i {
        0 => " was shot by |",
        1 => " was shot by | using |",
        2 => " was pummeled by |",
        3 => " was pummeled by | using |",
        4 => " was pricked to death",
        5 => " walked into a cactus whilst trying to escape |",
        6 => " drowned",
        7 => " drowned whilst trying to escape |",
        8 => " experienced kinetic energy",
        9 => " experienced kinetic energy whilst trying to escape |",
        10 => " blew up",
        11 => " was blown up by |",
        12 => " was blown up by | using |",
        13 => " was killed by #",
        14 => " hit the ground too hard",
        15 => " hit the ground too hard whilst trying to escape |",
        16 => " fell from a high place",
        17 => " fell off a ladder",
        18 => " fell off some vines",
        19 => " fell off some weeping vines",
        20 => " fell off some twisting vines",
        21 => " fell off scaffolding",
        22 => " fell while climbing",
        23 => " was impaled on a stalagmite",
        24 => " was impaled on a stalagmite whilst fighting |",
        25 => " was squashed by a falling anvil",
        26 => " was squashed by a falling anvil whilst fighting |",
        27 => " was squashed by a falling block",
        28 => " was squashed by a falling block whilst fighting |",
        29 => " was skewered by a falling stalactite",
        30 => " was skewered by a falling stalactite whilst fighting |",
        31 => " went up in flames",
        32 => " walked into fire whilst fighting |",
        33 => " burned to death",
        34 => " was burnt to a crisp whilst fighting |",
        35 => " went off with a bang",
        36 => " went off with a bang due to a firework fired from | by |",
        37 => " tried to swim in lava",
        38 => " tried to swim in lava to escape |",
        39 => " was struck by lightning",
        40 => " was struck by lightning whilst fighting |",
        41 => " discovered the floor was lava",
        42 => " walked into danger zone due to |",
        43 => " was killed by magic",
        44 => " was killed by magic whilst trying to escape |",
        45 => " was killed by | using magic",
        46 => " was killed by | using |",
        47 => " froze to death",
        48 => " was frozen to death by |",
        49 => " was slain by |",
        50 => " was slain by | using |",
        51 => " was fireballed by |",
        52 => " was fireballed by | using |",
        53 => " was stung to death",
        54 => " was shot by a skull from |",
        55 => " was obliterated by a sonically-charged shriek",
        56 => " starved to death",
        57 => " starved to death whilst fighting |",
        58 => " suffocated in a wall",
        59 => " suffocated in a wall whilst fighting |",
        60 => " was squished too much",
        61 => " was squashed by |",
        62 => " was poked to death by a sweet berry bush",
        63 => " was poked to death by a sweet berry bush whilst trying to escape |",
        64 => " was killed trying to hurt |",
        65 => " was killed by | trying to hurt |",
        66 => " was impaled by |",
        67 => " was impaled by | with |",
        68 => " fell out of the world",
        69 => " didn't want to live in the same world as |",
        70 => " withered away",
        71 => " withered away whilst fighting |",
        72 => " died from dehydration",
        73 => " died from dehydration whilst trying to escape |",
        74 => " died",
        75 => " died because of |",
        76 => " was roasted in dragon breath",
        77 => " was roasted in dragon breath by |",
        78 => " was doomed to fall",
        79 => " was doomed to fall by |",
        80 => " was doomed to fall by | using |",
        81 => " fell too far and was finished by |",
        82 => " fell too far and was finished by | using |",
        83 => " was stung to death by |",
        84 => " went off with a bang whilst fighting |",
        85 => " was obliterated by a sonically-charged shriek whilst trying to escape |",
        86 => " was killed by even more magic",
        _ => "",
    }
}

pub fn is_death_message_exec(msg: &str) -> (r: bool)
    ensures
        r == is_death_message(msg@),
{
    let t = chars_of(msg);
    let mut i: usize = 0;
    while i < DEATH_PHRASE_COUNT
        invariant
            t@ == msg@,
            i <= DEATH_PHRASE_COUNT,
            forall|k: int| 0 <= k < i ==> !pattern_found(#[trigger] death_phrase(k), msg@),
        decreases DEATH_PHRASE_COUNT - i,
    {
        let p = chars_of(death_phrase_text(i));
        if pattern_found_exec(&p, &t) {
            return true;
        }
        i += 1;
    }
    false
}

/// What the rule sends for a line: the message in bold, for lines of the server
/// thread at `INFO` only.
pub open spec fn death_send(parts: LineParts) -> Option<Seq<char>> {
    if from_server_info(parts.1, parts.2) && is_death_message(parts.3) {
        Some(bold(parts.3))
    } else {
        None
    }
}

impl SendRule for DeathRule {
    fn send(&self, line: &MinecraftLine) -> (r: Option<String>)
        ensures
            opt_view(r) == death_send(line.parts()),
    {
        if !is_server_info(line) {
            return None;
        }
        if is_death_message_exec(line.message.as_str()) {
            Some(bold_text(line.message.as_str()))
        } else {
            None
        }
    }
}

} // verus!
