//! The plain commands: whitelisting a player, and the insult about Bryce.
use vstd::prelude::*;
use crate::registration::random_below;

verus! {

/// The RCON command that whitelists a player.
pub open spec fn whitelist_command_spec(player: Seq<char>) -> Seq<char> {
    "whitelist add "@ + player
}

/// Builds the RCON command that whitelists a player.
pub fn whitelist_command(player: &str) -> (c: String)
    ensures
        c@ == whitelist_command_spec(player@),
{
    String::from_str("whitelist add ").concat(player)
}

/// A server reply shown as a code block.
pub open spec fn code_block_spec(text: Seq<char>) -> Seq<char> {
    "```\n"@ + text + "\n```"@
}

/// Wraps a server reply in a code block, as the whitelist command shows it.
pub fn code_block(text: &str) -> (r: String)
    ensures
        r@ == code_block_spec(text@),
{
    String::from_str("```\n").concat(text).concat("\n```")
}

/// The insults about Bryce.
pub open spec fn bryce_insults() -> Seq<Seq<char>> {
    seq![
        "Bryce smells."@,
        "Bryce still hasn't returned that library book from third grade."@,
        "Bryce's WiFi password is literally `password123`."@,
        "Bryce puts ketchup on everything, even ketchup."@,
        "Bryce's ringtone is the Nokia jingle. In 2026."@,
        "Bryce thinks a baker's dozen is some kind of scam."@,
        "Bryce claps when the plane lands."@,
        "Bryce still says 'as seen on TV' unironically."@,
        "Bryce has 217 browser tabs open and not one of them is loading."@,
        "Bryce microwaves fish in the office break room."@,
        "Bryce alphabetizes his sock drawer by color, then gets mad it doesn't work."@,
        "Bryce thinks Comic Sans is 'kind of a vibe.'"@,
        "Bryce's dance moves peaked at the sprinkler."@,
        "Bryce once lost a staring contest to a photograph."@,
        "Bryce's password hint is just his password."@,
        "Bryce calls his Wi-Fi router 'the internet box.'"@,
        "Bryce still hasn't beaten the tutorial level."@,
        "Bryce's home gym is a resistance band he's never opened."@,
        "Bryce thinks 'lol' is pronounced 'lull'."@,
        "Bryce brings his own tupperware to buffets."@,
    ]
}

/// How many insults there are.
pub const INSULT_COUNT: usize = 20;

/// The insult at position `i`.
pub fn insult(i: usize) -> (s: &'static str)
    requires
        i < INSULT_COUNT,
    ensures
        s@ == bryce_insults()[i as int],
{
    match i {
        0 => "Bryce smells.",
        1 => "Bryce still hasn't returned that library book from third grade.",
        2 => "Bryce's WiFi password is literally `password123`.",
        3 => "Bryce puts ketchup on everything, even ketchup.",
        4 => "Bryce's ringtone is the Nokia jingle. In 2026.",
        5 => "Bryce thinks a baker's dozen is some kind of scam.",
        6 => "Bryce claps when the plane lands.",
        7 => "Bryce still says 'as seen on TV' unironically.",
        8 => "Bryce has 217 browser tabs open and not one of them is loading.",
        9 => "Bryce microwaves fish in the office break room.",
        10 => "Bryce alphabetizes his sock drawer by color, then gets mad it doesn't work.",
        11 => "Bryce thinks Comic Sans is 'kind of a vibe.'",
        12 => "Bryce's dance moves peaked at the sprinkler.",
        13 => "Bryce once lost a staring contest to a photograph.",
        14 => "Bryce's password hint is just his password.",
        15 => "Bryce calls his Wi-Fi router 'the internet box.'",
        16 => "Bryce still hasn't beaten the tutorial level.",
        17 => "Bryce's home gym is a resistance band he's never opened.",
        18 => "Bryce thinks 'lol' is pronounced 'lull'.",
        19 => "Bryce brings his own tupperware to buffets.",
        _ => "Bryce brings his own tupperware to buffets.",
    }
}

/// A random (extremely lame) insult about Bryce.
pub fn bryce() -> (s: &'static str)
    ensures
        exists|i: int| 0 <= i < bryce_insults().len() && s@ == bryce_insults()[i],
{
    let i = random_below(INSULT_COUNT);
    let s = insult(i);
    assert(s@ == bryce_insults()[i as int]);
    s
}

} // verus!
