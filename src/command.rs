//! The chat-command interpreter: what each command replies and how it
//! changes the set of muted players.
use vstd::prelude::*;

use crate::mute::MuteSet;
use crate::roster::{push_race_name, race_name, GameSlot, LanGameInfo, NodeInfo, PlayerInfo};
use crate::text::{chars_of, decimal, parse_u8, parse_u8_spec, push_decimal, slice_is, trim_end, trimmed_len};

verus! {

/// A chat command, as read from the text after its `!`.
#[derive(Debug, Clone, Copy, PartialEq, Eq, Structural)]
pub enum Command {
    Help,
    Flo,
    Tick,
    MuteAll,
    UnmuteAll,
    /// `mute` with no argument.
    Mute,
    /// `mute` with an argument: the slot id, or `None` where it is no `u8`.
    MuteId(Option<u8>),
    /// `unmute` with no argument.
    Unmute,
    /// `unmute` with an argument: the slot id, or `None` where it is no `u8`.
    UnmuteId(Option<u8>),
    Unknown,
}

/// The command that a text names. Trailing whitespace is ignored; keywords
/// match exactly, and `mute` / `unmute` followed by more text take the text
/// after the next character as their argument.
pub open spec fn parse_command_spec(cmd: Seq<char>) -> Command {
    let t = trim_end(cmd);
    if t == "help"@ {
        Command::Help
    } else if t == "flo"@ {
        Command::Flo
    } else if t == "tick"@ {
        Command::Tick
    } else if t == "muteall"@ {
        Command::MuteAll
    } else if t == "unmuteall"@ {
        Command::UnmuteAll
    } else if t == "mute"@ {
        Command::Mute
    } else if t.len() > 4 && t.subrange(0, 4) == "mute"@ {
        Command::MuteId(parse_u8_spec(t.subrange(5, t.len() as int)))
    } else if t == "unmute"@ {
        Command::Unmute
    } else if t.len() > 6 && t.subrange(0, 6) == "unmute"@ {
        Command::UnmuteId(parse_u8_spec(t.subrange(7, t.len() as int)))
    } else {
        Command::Unknown
    }
}

/// Reads the command that `cmd` names.
pub fn parse_command(cmd: &str) -> (r: Command)
    ensures
        r == parse_command_spec(cmd@),
{
    let t = chars_of(cmd);
    let n = trimmed_len(&t);
    let ghost tr = trim_end(cmd@);
    assert(tr == t@.subrange(0, n as int));
    if slice_is(&t, 0, n, "help") {
        Command::Help
    } else if slice_is(&t, 0, n, "flo") {
        Command::Flo
    } else if slice_is(&t, 0, n, "tick") {
        Command::Tick
    } else if slice_is(&t, 0, n, "muteall") {
        Command::MuteAll
    } else if slice_is(&t, 0, n, "unmuteall") {
        Command::UnmuteAll
    } else if slice_is(&t, 0, n, "mute") {
        Command::Mute
    } else if n > 4 && slice_is(&t, 0, 4, "mute") {
        assert(tr.subrange(0, 4) =~= t@.subrange(0, 4));
        assert(tr.subrange(5, n as int) =~= t@.subrange(5, n as int));
        Command::MuteId(parse_u8(&t, 5, n))
    } else if slice_is(&t, 0, n, "unmute") {
        assert(n > 4 ==> tr.subrange(0, 4) =~= t@.subrange(0, 4));
        Command::Unmute
    } else if n > 6 && slice_is(&t, 0, 6, "unmute") {
        assert(n > 4 ==> tr.subrange(0, 4) =~= t@.subrange(0, 4));
        assert(tr.subrange(0, 6) =~= t@.subrange(0, 6));
        assert(tr.subrange(7, n as int) =~= t@.subrange(7, n as int));
        Command::UnmuteId(parse_u8(&t, 7, n))
    } else {
        assert(n > 4 ==> tr.subrange(0, 4) =~= t@.subrange(0, 4));
        assert(n > 6 ==> tr.subrange(0, 6) =~= t@.subrange(0, 6));
        Command::Unknown
    }
}

/// The texts of a list of replies.
pub open spec fn texts(v: Seq<String>) -> Seq<Seq<char>> {
    v.map_values(|s: String| s@)
}

/// A list of (slot id, player name) pairs, names as characters.
pub open spec fn entries(v: Seq<(u8, String)>) -> Seq<(u8, Seq<char>)> {
    v.map_values(|e: (u8, String)| (e.0, e.1@))
}

pub open spec fn opt_text(o: Option<String>) -> Option<Seq<char>> {
    match o {
        Some(s) => Some(s@),
        None => None,
    }
}

/// Players that `mute` may pick: every roster entry but the local player's
/// own, whose id is not muted yet, in roster order.
pub open spec fn mute_candidates(r: Seq<PlayerInfo>, me: u8, muted: Set<u8>) -> Seq<(u8, Seq<char>)>
    decreases r.len(),
{
    if r.len() == 0 {
        seq![]
    } else {
        let prev = mute_candidates(r.drop_last(), me, muted);
        let p = r.last();
        if p.slot_player_id != me && !muted.contains(p.slot_player_id) {
            prev.push((p.slot_player_id, p.name@))
        } else {
            prev
        }
    }
}

/// Name of the first roster entry with slot id `id`.
pub open spec fn roster_name(r: Seq<PlayerInfo>, id: u8) -> Option<Seq<char>>
    decreases r.len(),
{
    if r.len() == 0 {
        None
    } else {
        match roster_name(r.drop_last(), id) {
            Some(n) => Some(n),
            None => if r.last().slot_player_id == id {
                Some(r.last().name@)
            } else {
                None
            },
        }
    }
}

/// Players that `unmute` may pick among the ids below `n`: muted ids, other
/// than the local player's, that the roster names, in ascending order.
pub open spec fn unmute_candidates_below(r: Seq<PlayerInfo>, me: u8, muted: Set<u8>, n: nat) -> Seq<(u8, Seq<char>)>
    decreases n,
{
    if n == 0 {
        seq![]
    } else {
        let prev = unmute_candidates_below(r, me, muted, (n - 1) as nat);
        let id = (n - 1) as u8;
        if muted.contains(id) && id != me && roster_name(r, id) is Some {
            prev.push((id, roster_name(r, id)->0))
        } else {
            prev
        }
    }
}

pub open spec fn unmute_candidates(r: Seq<PlayerInfo>, me: u8, muted: Set<u8>) -> Seq<(u8, Seq<char>)> {
    unmute_candidates_below(r, me, muted, 256)
}

/// Name of the first entry of `c` with id `id`.
pub open spec fn entry_name(c: Seq<(u8, Seq<char>)>, id: u8) -> Option<Seq<char>>
    decreases c.len(),
{
    if c.len() == 0 {
        None
    } else {
        match entry_name(c.drop_last(), id) {
            Some(n) => Some(n),
            None => if c.last().0 == id {
                Some(c.last().1)
            } else {
                None
            },
        }
    }
}

/// Slot ids of the roster other than the local player's.
pub open spec fn others(r: Seq<PlayerInfo>, me: u8) -> Set<u8> {
    Set::new(|id: u8| id != me && exists|i: int| 0 <= i < r.len() && r[i].slot_player_id == id)
}

pub open spec fn candidate_line(e: (u8, Seq<char>)) -> Seq<char> {
    " ID="@ + decimal(e.0 as nat) + " "@ + e.1
}

pub open spec fn candidate_lines(c: Seq<(u8, Seq<char>)>) -> Seq<Seq<char>> {
    c.map_values(|e: (u8, Seq<char>)| candidate_line(e))
}

pub open spec fn help_lines() -> Seq<Seq<char>> {
    seq![
        "Chat commands:"@,
        " !flo: print game information."@,
        " !tick: print the frame counters."@,
        " !muteall: Mute all players."@,
        " !unmuteall: Unmute all players."@,
        " !mute: Mute your opponent (1v1), or display a player list."@,
        " !mute <ID>: Mute a player."@,
        " !unmute: Unmute your opponent (1v1), or display a player list."@,
        " !unmute <ID>: Unmute a player."@,
    ]
}

pub open spec fn slot_line(s: GameSlot, name: Seq<char>) -> Seq<char> {
    "  "@ + name + ": Team "@ + decimal(s.team as nat) + ", "@ + race_name(s.race)
}

/// One line for each occupied slot, in slot order.
pub open spec fn slot_lines(s: Seq<GameSlot>) -> Seq<Seq<char>>
    decreases s.len(),
{
    if s.len() == 0 {
        seq![]
    } else {
        let prev = slot_lines(s.drop_last());
        match s.last().player_name {
            Some(n) => prev.push(slot_line(s.last(), n@)),
            None => prev,
        }
    }
}

pub open spec fn flo_lines(info: LanGameInfo, node: NodeInfo) -> Seq<Seq<char>> {
    seq![
        "Game: "@ + info.game.name@ + " (#"@ + decimal(info.game.game_id as nat) + ")"@,
        "Server: "@ + node.name@ + ", "@ + node.location@ + ", "@ + node.country_id@ + " (#"@
            + decimal(node.id as nat) + ")"@,
        "Players:"@,
    ] + slot_lines(info.game.slots@)
}

pub open spec fn tick_line(tick_recv: u32, tick_ack: u32) -> Seq<char> {
    "tick_recv = "@ + decimal(tick_recv as nat) + ", tick_ack = "@ + decimal(tick_ack as nat)
}

/// The mute set after command `c`.
pub open spec fn command_mutes(c: Command, r: Seq<PlayerInfo>, me: u8, muted: Set<u8>) -> Set<u8> {
    let mc = mute_candidates(r, me, muted);
    let uc = unmute_candidates(r, me, muted);
    match c {
        Command::MuteAll => muted.union(others(r, me)),
        Command::UnmuteAll => Set::empty(),
        Command::Mute => if mc.len() == 1 {
            muted.insert(mc[0].0)
        } else {
            muted
        },
        Command::MuteId(Some(id)) => if entry_name(mc, id) is Some {
            muted.insert(id)
        } else {
            muted
        },
        Command::Unmute => if uc.len() == 1 {
            muted.remove(uc[0].0)
        } else {
            muted
        },
        Command::UnmuteId(Some(id)) => if entry_name(uc, id) is Some {
            muted.remove(id)
        } else {
            muted
        },
        _ => muted,
    }
}

/// The private replies to command `c`, in order.
pub open spec fn command_replies(
    c: Command,
    info: LanGameInfo,
    node: NodeInfo,
    tick_recv: u32,
    tick_ack: u32,
    muted: Set<u8>,
) -> Seq<Seq<char>> {
    let r = info.slot_info.player_infos@;
    let me = info.slot_info.slot_player_id;
    let mc = mute_candidates(r, me, muted);
    let uc = unmute_candidates(r, me, muted);
    match c {
        Command::Help => help_lines(),
        Command::Flo => flo_lines(info, node),
        Command::Tick => seq![tick_line(tick_recv, tick_ack)],
        Command::MuteAll => seq!["All players muted."@],
        Command::UnmuteAll => seq!["All players un-muted."@],
        Command::Mute => if mc.len() == 0 {
            seq!["You have silenced all the players."@]
        } else if mc.len() == 1 {
            seq!["Muted: "@ + mc[0].1]
        } else {
            seq!["Type `!mute <ID>` to mute a player:"@] + candidate_lines(mc)
        },
        Command::MuteId(Some(id)) => match entry_name(mc, id) {
            Some(n) => seq!["Muted: "@ + n],
            None => seq!["Invalid player id. Players:"@] + candidate_lines(mc),
        },
        Command::MuteId(None) => seq!["Invalid syntax. Example: !mute 1"@] + candidate_lines(mc),
        Command::Unmute => if uc.len() == 0 {
            seq!["No player to unmute."@]
        } else if uc.len() == 1 {
            seq!["Un-muted: "@ + uc[0].1]
        } else {
            seq!["Type `!unmute <ID>` to unmute a player:"@] + candidate_lines(uc)
        },
        Command::UnmuteId(Some(id)) => match entry_name(uc, id) {
            Some(n) => seq!["Un-muted: "@ + n],
            None => seq!["Invalid player id. Muted players:"@] + candidate_lines(uc),
        },
        Command::UnmuteId(None) => seq!["Invalid syntax. Example: !unmute 1"@] + candidate_lines(uc),
        Command::Unknown => seq!["Unknown command"@],
    }
}

fn mute_candidate_list(r: &Vec<PlayerInfo>, me: u8, muted: &MuteSet) -> (c: Vec<(u8, String)>)
    requires
        muted.wf(),
    ensures
        entries(c@) == mute_candidates(r@, me, muted@),
{
    let mut c: Vec<(u8, String)> = Vec::new();
    let mut i: usize = 0;
    while i < r.len()
        invariant
            muted.wf(),
            i <= r@.len(),
            entries(c@) == mute_candidates(r@.subrange(0, i as int), me, muted@),
        decreases r@.len() - i,
    {
        let ghost prev = c@;
        let p = &r[i];
        assert(r@.subrange(0, i + 1).drop_last() =~= r@.subrange(0, i as int));
        if p.slot_player_id != me && !muted.contains(p.slot_player_id) {
            c.push((p.slot_player_id, p.name.clone()));
            assert(entries(c@) =~= entries(prev).push((p.slot_player_id, p.name@)));
        }
        i = i + 1;
    }
    assert(r@.subrange(0, r@.len() as int) =~= r@);
    c
}

fn roster_name_of(r: &Vec<PlayerInfo>, id: u8) -> (n: Option<String>)
    ensures
        opt_text(n) == roster_name(r@, id),
{
    let mut n: Option<String> = None;
    let mut i: usize = 0;
    while i < r.len()
        invariant
            i <= r@.len(),
            opt_text(n) == roster_name(r@.subrange(0, i as int), id),
        decreases r@.len() - i,
    {
        assert(r@.subrange(0, i + 1).drop_last() =~= r@.subrange(0, i as int));
        if n.is_none() && r[i].slot_player_id == id {
            n = Some(r[i].name.clone());
        }
        i = i + 1;
    }
    assert(r@.subrange(0, r@.len() as int) =~= r@);
    n
}

fn unmute_candidate_list(r: &Vec<PlayerInfo>, me: u8, muted: &MuteSet) -> (c: Vec<(u8, String)>)
    requires
        muted.wf(),
    ensures
        entries(c@) == unmute_candidates(r@, me, muted@),
{
    let mut c: Vec<(u8, String)> = Vec::new();
    let mut k: usize = 0;
    while k < 256
        invariant
            muted.wf(),
            k <= 256,
            entries(c@) == unmute_candidates_below(r@, me, muted@, k as nat),
        decreases 256 - k,
    {
        let ghost prev = c@;
        let id = k as u8;
        if muted.contains(id) && id != me {
            match roster_name_of(r, id) {
                Some(n) => {
                    c.push((id, n));
                    assert(entries(c@) =~= entries(prev).push((id, roster_name(r@, id)->0)));
                },
                None => {},
            }
        }
        k = k + 1;
    }
    c
}

fn entry_name_of(c: &Vec<(u8, String)>, id: u8) -> (n: Option<String>)
    ensures
        opt_text(n) == entry_name(entries(c@), id),
{
    let mut n: Option<String> = None;
    let mut i: usize = 0;
    while i < c.len()
        invariant
            i <= c@.len(),
            opt_text(n) == entry_name(entries(c@.subrange(0, i as int)), id),
        decreases c@.len() - i,
    {
        assert(entries(c@.subrange(0, i + 1)).drop_last() =~= entries(c@.subrange(0, i as int)));
        if n.is_none() && c[i].0 == id {
            n = Some(c[i].1.clone());
        }
        i = i + 1;
    }
    assert(c@.subrange(0, c@.len() as int) =~= c@);
    n
}

fn push_candidate_lines(msgs: &mut Vec<String>, c: &Vec<(u8, String)>)
    ensures
        texts(final(msgs)@) == texts(old(msgs)@) + candidate_lines(entries(c@)),
{
    let mut i: usize = 0;
    while i < c.len()
        invariant
            i <= c@.len(),
            texts(msgs@) == texts(old(msgs)@) + candidate_lines(entries(c@.subrange(0, i as int))),
        decreases c@.len() - i,
    {
        let ghost prev = msgs@;
        let mut line = String::from_str(" ID=");
        push_decimal(&mut line, c[i].0 as u64);
        line.append(" ");
        line.append(c[i].1.as_str());
        msgs.push(line);
        assert(candidate_lines(entries(c@.subrange(0, i + 1))) =~= candidate_lines(
            entries(c@.subrange(0, i as int)),
        ).push(candidate_line((c@[i as int].0, c@[i as int].1@))));
        assert(texts(msgs@) =~= texts(prev).push(line@));
        i = i + 1;
    }
    assert(c@.subrange(0, c@.len() as int) =~= c@);
}

fn mute_others(muted: &mut MuteSet, r: &Vec<PlayerInfo>, me: u8)
    requires
        old(muted).wf(),
    ensures
        final(muted).wf(),
        final(muted)@ == old(muted)@.union(others(r@, me)),
{
    let mut i: usize = 0;
    while i < r.len()
        invariant
            muted.wf(),
            i <= r@.len(),
            muted@ == old(muted)@.union(others(r@.subrange(0, i as int), me)),
        decreases r@.len() - i,
    {
        let ghost before = muted@;
        let id = r[i].slot_player_id;
        if id != me {
            muted.insert(id);
        }
        let ghost sub = r@.subrange(0, i + 1);
        assert(sub[i as int].slot_player_id == id);
        assert forall|x: u8| muted@.contains(x) == old(muted)@.union(others(sub, me)).contains(x) by {
            if others(sub, me).contains(x) {
                let j = choose|j: int| 0 <= j < sub.len() && sub[j].slot_player_id == x;
                if j < i {
                    assert(r@.subrange(0, i as int)[j] == sub[j]);
                }
            }
            if others(r@.subrange(0, i as int), me).contains(x) {
                let j = choose|j: int| 0 <= j < i && r@.subrange(0, i as int)[j].slot_player_id == x;
                assert(sub[j] == r@.subrange(0, i as int)[j]);
            }
        }
        assert(muted@ =~= old(muted)@.union(others(sub, me)));
        i = i + 1;
    }
    assert(r@.subrange(0, r@.len() as int) =~= r@);
}

fn one_line(lit: &str) -> (v: Vec<String>)
    ensures
        texts(v@) == seq![lit@],
{
    let mut v: Vec<String> = Vec::new();
    v.push(String::from_str(lit));
    assert(texts(v@) =~= seq![lit@]);
    v
}

fn help_reply() -> (v: Vec<String>)
    ensures
        texts(v@) == help_lines(),
{
    let mut v: Vec<String> = Vec::new();
    v.push(String::from_str("Chat commands:"));
    v.push(String::from_str(" !flo: print game information."));
    v.push(String::from_str(" !tick: print the frame counters."));
    v.push(String::from_str(" !muteall: Mute all players."));
    v.push(String::from_str(" !unmuteall: Unmute all players."));
    v.push(String::from_str(" !mute: Mute your opponent (1v1), or display a player list."));
    v.push(String::from_str(" !mute <ID>: Mute a player."));
    v.push(String::from_str(" !unmute: Unmute your opponent (1v1), or display a player list."));
    v.push(String::from_str(" !unmute <ID>: Unmute a player."));
    assert(texts(v@) =~= help_lines());
    v
}

fn flo_reply(info: &LanGameInfo, node: &NodeInfo) -> (v: Vec<String>)
    ensures
        texts(v@) == flo_lines(*info, *node),
{
    let mut v: Vec<String> = Vec::new();
    let mut game = String::from_str("Game: ");
    game.append(info.game.name.as_str());
    game.append(" (#");
    push_decimal(&mut game, info.game.game_id);
    game.append(")");
    v.push(game);
    let mut server = String::from_str("Server: ");
    server.append(node.name.as_str());
    server.append(", ");
    server.append(node.location.as_str());
    server.append(", ");
    server.append(node.country_id.as_str());
    server.append(" (#");
    push_decimal(&mut server, node.id);
    server.append(")");
    v.push(server);
    v.push(String::from_str("Players:"));
    let ghost head = texts(v@);
    let slots = &info.game.slots;
    let mut i: usize = 0;
    while i < slots.len()
        invariant
            i <= slots@.len(),
            texts(v@) == head + slot_lines(slots@.subrange(0, i as int)),
        decreases slots@.len() - i,
    {
        let ghost prev = v@;
        let slot = &slots[i];
        assert(slots@.subrange(0, i + 1).drop_last() =~= slots@.subrange(0, i as int));
        match &slot.player_name {
            Some(name) => {
                let mut line = String::from_str("  ");
                line.append(name.as_str());
                line.append(": Team ");
                push_decimal(&mut line, slot.team as u64);
                line.append(", ");
                push_race_name(&mut line, slot.race);
                v.push(line);
                assert(texts(v@) =~= texts(prev).push(line@));
            },
            None => {},
        }
        i = i + 1;
    }
    assert(slots@.subrange(0, slots@.len() as int) =~= slots@);
    assert(texts(v@) =~= flo_lines(*info, *node));
    v
}

fn tick_reply(tick_recv: u32, tick_ack: u32) -> (v: Vec<String>)
    ensures
        texts(v@) == seq![tick_line(tick_recv, tick_ack)],
{
    let mut line = String::from_str("tick_recv = ");
    push_decimal(&mut line, tick_recv as u64);
    line.append(", tick_ack = ");
    push_decimal(&mut line, tick_ack as u64);
    let mut v: Vec<String> = Vec::new();
    v.push(line);
    assert(texts(v@) =~= seq![tick_line(tick_recv, tick_ack)]);
    v
}

fn named_line(lit: &str, name: &String) -> (v: Vec<String>)
    ensures
        texts(v@) == seq![lit@ + name@],
{
    let mut line = String::from_str(lit);
    line.append(name.as_str());
    let mut v: Vec<String> = Vec::new();
    v.push(line);
    assert(texts(v@) =~= seq![lit@ + name@]);
    v
}

fn listed(lit: &str, c: &Vec<(u8, String)>) -> (v: Vec<String>)
    ensures
        texts(v@) == seq![lit@] + candidate_lines(entries(c@)),
{
    let mut v = one_line(lit);
    push_candidate_lines(&mut v, c);
    v
}

/// Carries out command `c` for the local player: changes the mute set as
/// the command says and returns the private replies, in order.
pub fn run_command(
    c: Command,
    info: &LanGameInfo,
    node: &NodeInfo,
    tick_recv: u32,
    tick_ack: u32,
    muted: &mut MuteSet,
) -> (r: Vec<String>)
    requires
        old(muted).wf(),
    ensures
        final(muted).wf(),
        texts(r@) == command_replies(c, *info, *node, tick_recv, tick_ack, old(muted)@),
        final(muted)@ == command_mutes(
            c,
            info.slot_info.player_infos@,
            info.slot_info.slot_player_id,
            old(muted)@,
        ),
{
    let roster = &info.slot_info.player_infos;
    let me = info.slot_info.slot_player_id;
    match c {
        Command::Help => help_reply(),
        Command::Flo => flo_reply(info, node),
        Command::Tick => tick_reply(tick_recv, tick_ack),
        Command::MuteAll => {
            mute_others(muted, roster, me);
            one_line("All players muted.")
        },
        Command::UnmuteAll => {
            muted.clear();
            one_line("All players un-muted.")
        },
        Command::Mute => {
            let cands = mute_candidate_list(roster, me, muted);
            if cands.len() == 0 {
                one_line("You have silenced all the players.")
            } else if cands.len() == 1 {
                muted.insert(cands[0].0);
                named_line("Muted: ", &cands[0].1)
            } else {
                listed("Type `!mute <ID>` to mute a player:", &cands)
            }
        },
        Command::MuteId(Some(id)) => {
            let cands = mute_candidate_list(roster, me, muted);
            match entry_name_of(&cands, id) {
                Some(n) => {
                    muted.insert(id);
                    named_line("Muted: ", &n)
                },
                None => listed("Invalid player id. Players:", &cands),
            }
        },
        Command::MuteId(None) => {
            let cands = mute_candidate_list(roster, me, muted);
            listed("Invalid syntax. Example: !mute 1", &cands)
        },
        Command::Unmute => {
            let cands = unmute_candidate_list(roster, me, muted);
            if cands.len() == 0 {
                one_line("No player to unmute.")
            } else if cands.len() == 1 {
                muted.remove(cands[0].0);
                named_line("Un-muted: ", &cands[0].1)
            } else {
                listed("Type `!unmute <ID>` to unmute a player:", &cands)
            }
        },
        Command::UnmuteId(Some(id)) => {
            let cands = unmute_candidate_list(roster, me, muted);
            match entry_name_of(&cands, id) {
                Some(n) => {
                    muted.remove(id);
                    named_line("Un-muted: ", &n)
                },
                None => listed("Invalid player id. Muted players:", &cands),
            }
        },
        Command::UnmuteId(None) => {
            let cands = unmute_candidate_list(roster, me, muted);
            listed("Invalid syntax. Example: !unmute 1", &cands)
        },
        Command::Unknown => one_line("Unknown command"),
    }
}

/// Muting everybody a second time leaves the mute set as muting everybody
/// once did, and un-muting everybody leaves nobody muted, whatever the set
/// held before.
pub proof fn lemma_muteall_idempotent(r: Seq<PlayerInfo>, me: u8, muted: Set<u8>)
    ensures
        command_mutes(Command::MuteAll, r, me, command_mutes(Command::MuteAll, r, me, muted))
            == command_mutes(Command::MuteAll, r, me, muted),
        command_mutes(Command::UnmuteAll, r, me, muted) == Set::<u8>::empty(),
{
    let once = command_mutes(Command::MuteAll, r, me, muted);
    assert(command_mutes(Command::MuteAll, r, me, once) =~= once);
}

/// A text that names no command is answered with exactly "Unknown command",
/// and the mute set stays as it was.
pub proof fn lemma_unknown_command(
    cmd: Seq<char>,
    info: LanGameInfo,
    node: NodeInfo,
    tick_recv: u32,
    tick_ack: u32,
    muted: Set<u8>,
)
    requires
        parse_command_spec(cmd) == Command::Unknown,
    ensures
        command_replies(parse_command_spec(cmd), info, node, tick_recv, tick_ack, muted)
            == seq!["Unknown command"@],
        command_mutes(
            parse_command_spec(cmd),
            info.slot_info.player_infos@,
            info.slot_info.slot_player_id,
            muted,
        ) == muted,
{
}

/// How many roster entries carry the local player's id.
pub open spec fn local_count(r: Seq<PlayerInfo>, me: u8) -> nat
    decreases r.len(),
{
    if r.len() == 0 {
        0
    } else {
        local_count(r.drop_last(), me) + if r.last().slot_player_id == me {
            1nat
        } else {
            0nat
        }
    }
}

proof fn lemma_candidates_are_opponents(r: Seq<PlayerInfo>, me: u8, muted: Set<u8>)
    requires
        forall|i: int| 0 <= i < r.len() && r[i].slot_player_id != me ==> !muted.contains(
            #[trigger] r[i].slot_player_id,
        ),
    ensures
        mute_candidates(r, me, muted).len() + local_count(r, me) == r.len(),
    decreases r.len(),
{
    if r.len() > 0 {
        let d = r.drop_last();
        assert forall|i: int| 0 <= i < d.len() && d[i].slot_player_id != me implies !muted.contains(
            #[trigger] d[i].slot_player_id,
        ) by {
            assert(d[i] == r[i]);
        }
        lemma_candidates_are_opponents(d, me, muted);
        assert(r.last() == r[r.len() - 1]);
    }
}

/// With two players, `mute` alone mutes the one opponent and names it.
pub proof fn lemma_mute_sole_opponent(
    info: LanGameInfo,
    node: NodeInfo,
    tick_recv: u32,
    tick_ack: u32,
    muted: Set<u8>,
    opponent: int,
)
    requires
        info.slot_info.player_infos@.len() == 2,
        0 <= opponent < 2,
        info.slot_info.player_infos@[opponent].slot_player_id != info.slot_info.slot_player_id,
        info.slot_info.player_infos@[1 - opponent].slot_player_id == info.slot_info.slot_player_id,
        !muted.contains(info.slot_info.player_infos@[opponent].slot_player_id),
    ensures
        command_mutes(
            Command::Mute,
            info.slot_info.player_infos@,
            info.slot_info.slot_player_id,
            muted,
        ) == muted.insert(info.slot_info.player_infos@[opponent].slot_player_id),
        command_replies(Command::Mute, info, node, tick_recv, tick_ack, muted) == seq![
            "Muted: "@ + info.slot_info.player_infos@[opponent].name@,
        ],
{
    let r = info.slot_info.player_infos@;
    let me = info.slot_info.slot_player_id;
    assert(r.drop_last().drop_last().len() == 0);
    assert(r.drop_last().last() == r[0]);
    assert(r.last() == r[1]);
    reveal_with_fuel(mute_candidates, 3);
    let mc = mute_candidates(r, me, muted);
    assert(mc.len() == 1);
    assert(mc[0] == (r[opponent].slot_player_id, r[opponent].name@));
}

/// With three or more players, one of them local and no opponent muted,
/// `mute` alone mutes nobody and lists every opponent.
pub proof fn lemma_mute_lists_opponents(
    info: LanGameInfo,
    node: NodeInfo,
    tick_recv: u32,
    tick_ack: u32,
    muted: Set<u8>,
)
    requires
        info.slot_info.player_infos@.len() >= 3,
        local_count(info.slot_info.player_infos@, info.slot_info.slot_player_id) == 1,
        forall|i: int|
            0 <= i < info.slot_info.player_infos@.len()
                && info.slot_info.player_infos@[i].slot_player_id != info.slot_info.slot_player_id
                ==> !muted.contains(#[trigger] info.slot_info.player_infos@[i].slot_player_id),
    ensures
        ({
            let r = info.slot_info.player_infos@;
            let me = info.slot_info.slot_player_id;
            let mc = mute_candidates(r, me, muted);
            &&& mc.len() == r.len() - 1
            &&& command_mutes(Command::Mute, r, me, muted) == muted
            &&& command_replies(Command::Mute, info, node, tick_recv, tick_ack, muted) == seq![
                "Type `!mute <ID>` to mute a player:"@,
            ] + candidate_lines(mc)
        }),
{
    lemma_candidates_are_opponents(
        info.slot_info.player_infos@,
        info.slot_info.slot_player_id,
        muted,
    );
}

} // verus!
