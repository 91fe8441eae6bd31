use flo_relay::command::{parse_command, Command};
use flo_relay::frame::{
    parse_scoped_chat, Frame, CHAT_FROM_HOST, CHAT_TO_HOST, INCOMING_ACTION, LEAVE_ACK,
    OUTGOING_ACTION, OUTGOING_KEEP_ALIVE,
};
use flo_relay::roster::{GameDescriptor, GameSlot, LanGameInfo, NodeInfo, PlayerInfo, Race, SlotRoster};
use flo_relay::session::{chat_frames, GameHandler, GameLoopState, LocalAction};

fn game(me: u8, players: &[(u8, &str)]) -> LanGameInfo {
    let slots = players
        .iter()
        .enumerate()
        .map(|(i, (_, name))| GameSlot {
            player_name: Some(name.to_string()),
            team: i as u32,
            race: if i == 0 { Race::Human } else { Race::NightElf },
        })
        .collect();
    LanGameInfo {
        game: GameDescriptor { name: "Duel".to_string(), game_id: 42, slots },
        slot_info: SlotRoster {
            slot_player_id: me,
            player_infos: players
                .iter()
                .map(|(id, name)| PlayerInfo { slot_player_id: *id, name: name.to_string() })
                .collect(),
        },
    }
}

fn node() -> NodeInfo {
    NodeInfo {
        id: 3,
        name: "Frankfurt".to_string(),
        location: "Germany".to_string(),
        country_id: "DE".to_string(),
    }
}

fn handler(me: u8, players: &[(u8, &str)]) -> GameHandler {
    GameHandler::new(game(me, players), node())
}

fn scoped_payload(from: u8, text: &[u8]) -> Vec<u8> {
    let mut p = vec![1, 0, from, 0x20, 0, 0, 0, 0];
    p.extend_from_slice(text);
    p.push(0);
    p
}

fn chat_to_host(from: u8, text: &str) -> Frame {
    Frame { type_id: CHAT_TO_HOST, payload: scoped_payload(from, text.as_bytes()) }
}

fn replies(frames: &[Frame]) -> Vec<String> {
    frames
        .iter()
        .map(|f| {
            assert_eq!(f.type_id, CHAT_FROM_HOST);
            let c = parse_scoped_chat(&f.payload).unwrap();
            String::from_utf8(c.text).unwrap()
        })
        .collect()
}

fn command(h: &mut GameHandler, from: u8, text: &str) -> Vec<String> {
    match h.handle_game_packet(chat_to_host(from, text)) {
        LocalAction::Reply(frames) => replies(&frames),
        LocalAction::ToNode(_) => panic!("command forwarded to the node"),
        LocalAction::Leave => panic!("command ended the session"),
    }
}

const FOUR: [(u8, &str); 4] = [(1, "Me"), (7, "Seven"), (3, "Three"), (9, "Nine")];

#[test]
fn node_actions_are_counted_and_forwarded_in_order() {
    let mut h = handler(1, &FOUR);
    let mut out = Vec::new();
    for i in 0..10u8 {
        let f = Frame { type_id: INCOMING_ACTION, payload: vec![i] };
        out.push(h.handle_incoming_w3gs(f).unwrap());
    }
    assert_eq!(h.tick_recv, 10);
    assert_eq!(h.tick_ack, 0);
    for (i, f) in out.iter().enumerate() {
        assert_eq!(f.type_id, INCOMING_ACTION);
        assert_eq!(f.payload, vec![i as u8]);
    }
}

#[test]
fn mute_by_id_mutes_that_player() {
    let mut h = handler(1, &FOUR);
    let r = command(&mut h, 1, "!mute 7");
    assert_eq!(r, vec!["Muted: Seven".to_string()]);
    assert!(h.muted_players.contains(7));
    assert!(!h.muted_players.contains(3));
}

#[test]
fn mute_by_unknown_id_lists_candidates() {
    let mut h = handler(1, &FOUR);
    command(&mut h, 1, "!mute 3");
    let r = command(&mut h, 1, "!mute 99");
    assert_eq!(
        r,
        vec![
            "Invalid player id. Players:".to_string(),
            " ID=7 Seven".to_string(),
            " ID=9 Nine".to_string(),
        ]
    );
    assert!(h.muted_players.contains(3));
    assert!(!h.muted_players.contains(99));
    assert!(!h.muted_players.contains(7));
}

#[test]
fn mute_self_or_muted_id_is_refused() {
    let mut h = handler(1, &FOUR);
    let r = command(&mut h, 1, "!mute 1");
    assert_eq!(r[0], "Invalid player id. Players:");
    assert!(!h.muted_players.contains(1));
    command(&mut h, 1, "!mute 7");
    let again = command(&mut h, 1, "!mute 7");
    assert_eq!(again[0], "Invalid player id. Players:");
}

#[test]
fn leave_ack_ends_the_session() {
    let mut h = handler(1, &FOUR);
    let a = h.handle_game_packet(Frame { type_id: LEAVE_ACK, payload: vec![] });
    assert!(matches!(a, LocalAction::Leave));
    assert_eq!(h.tick_ack, 0);
    assert_eq!(h.tick_recv, 0);
}

#[test]
fn muteall_twice_equals_once_and_unmuteall_clears() {
    let mut h = handler(1, &FOUR);
    assert_eq!(command(&mut h, 1, "!muteall"), vec!["All players muted.".to_string()]);
    let once: Vec<bool> = (0..=255u8).map(|i| h.muted_players.contains(i)).collect();
    command(&mut h, 1, "!muteall");
    let twice: Vec<bool> = (0..=255u8).map(|i| h.muted_players.contains(i)).collect();
    assert_eq!(once, twice);
    assert!(h.muted_players.contains(7) && h.muted_players.contains(3) && h.muted_players.contains(9));
    assert!(!h.muted_players.contains(1));
    assert_eq!(command(&mut h, 1, "!unmuteall"), vec!["All players un-muted.".to_string()]);
    assert!(h.muted_players.is_empty());
}

#[test]
fn unknown_command_is_answered_and_not_forwarded() {
    let mut h = handler(1, &FOUR);
    assert_eq!(command(&mut h, 1, "!dance"), vec!["Unknown command".to_string()]);
    assert_eq!(command(&mut h, 1, "!"), vec!["Unknown command".to_string()]);
    assert_eq!(command(&mut h, 1, "!HELP"), vec!["Unknown command".to_string()]);
}

#[test]
fn invalid_utf8_command_is_unknown() {
    let mut h = handler(1, &FOUR);
    let f = Frame { type_id: CHAT_TO_HOST, payload: scoped_payload(1, b"!\xFFtick") };
    match h.handle_game_packet(f) {
        LocalAction::Reply(frames) => {
            assert_eq!(replies(&frames), vec!["Unknown command".to_string()]);
        }
        _ => panic!("expected a reply"),
    }
}

#[test]
fn mute_with_two_players_mutes_the_opponent() {
    let mut h = handler(1, &[(1, "Me"), (2, "Rival")]);
    assert_eq!(command(&mut h, 1, "!mute"), vec!["Muted: Rival".to_string()]);
    assert!(h.muted_players.contains(2));
    assert_eq!(
        command(&mut h, 1, "!mute"),
        vec!["You have silenced all the players.".to_string()]
    );
}

#[test]
fn mute_with_many_players_lists_them() {
    let mut h = handler(1, &FOUR);
    let r = command(&mut h, 1, "!mute");
    assert_eq!(
        r,
        vec![
            "Type `!mute <ID>` to mute a player:".to_string(),
            " ID=7 Seven".to_string(),
            " ID=3 Three".to_string(),
            " ID=9 Nine".to_string(),
        ]
    );
    assert!(h.muted_players.is_empty());
}

#[test]
fn chat_is_forwarded_while_nobody_is_muted() {
    let mut h = handler(1, &FOUR);
    // not even a well-formed chat payload: it is not read
    let f = Frame { type_id: CHAT_FROM_HOST, payload: vec![200] };
    let g = h.handle_incoming_w3gs(f).unwrap();
    assert_eq!(g.payload, vec![200]);
    let c = Frame { type_id: CHAT_FROM_HOST, payload: scoped_payload(7, b"gg") };
    assert!(h.handle_incoming_w3gs(c).is_some());
}

#[test]
fn chat_from_muted_player_is_dropped() {
    let mut h = handler(1, &FOUR);
    command(&mut h, 1, "!mute 7");
    let c = Frame { type_id: CHAT_FROM_HOST, payload: scoped_payload(7, b"gg") };
    assert!(h.handle_incoming_w3gs(c).is_none());
    let d = Frame { type_id: CHAT_FROM_HOST, payload: scoped_payload(3, b"gg") };
    assert!(h.handle_incoming_w3gs(d).is_some());
    // a plain (non-scoped) message from the muted player still goes through
    let e = Frame { type_id: CHAT_FROM_HOST, payload: vec![1, 1, 7, 0x10, b'g', 0] };
    assert!(h.handle_incoming_w3gs(e).is_some());
}

#[test]
fn keepalives_from_client_are_counted() {
    let mut h = handler(1, &FOUR);
    for _ in 0..3 {
        let a = h.handle_game_packet(Frame { type_id: OUTGOING_KEEP_ALIVE, payload: vec![0] });
        assert!(matches!(a, LocalAction::ToNode(_)));
    }
    let a = h.handle_game_packet(Frame { type_id: OUTGOING_ACTION, payload: vec![0] });
    match a {
        LocalAction::ToNode(f) => assert_eq!(f.type_id, OUTGOING_ACTION),
        _ => panic!("expected forwarding"),
    }
    h.handle_incoming_w3gs(Frame { type_id: OUTGOING_KEEP_ALIVE, payload: vec![] });
    assert_eq!(h.tick_ack, 3);
    assert_eq!(h.tick_recv, 0);
}

#[test]
fn plain_chat_goes_to_the_node() {
    let mut h = handler(1, &FOUR);
    match h.handle_game_packet(chat_to_host(1, "hello")) {
        LocalAction::ToNode(f) => assert_eq!(f.payload, scoped_payload(1, b"hello")),
        _ => panic!("expected forwarding"),
    }
}

#[test]
fn tick_command_reports_counters() {
    let mut h = handler(1, &FOUR);
    for _ in 0..12 {
        h.handle_incoming_w3gs(Frame { type_id: INCOMING_ACTION, payload: vec![] });
    }
    h.handle_game_packet(Frame { type_id: OUTGOING_KEEP_ALIVE, payload: vec![] });
    assert_eq!(command(&mut h, 1, "!tick  "), vec!["tick_recv = 12, tick_ack = 1".to_string()]);
}

#[test]
fn flo_command_describes_the_match() {
    let mut h = handler(1, &[(1, "Me"), (2, "Rival")]);
    assert_eq!(
        command(&mut h, 1, "!flo"),
        vec![
            "Game: Duel (#42)".to_string(),
            "Server: Frankfurt, Germany, DE (#3)".to_string(),
            "Players:".to_string(),
            "  Me: Team 0, Human".to_string(),
            "  Rival: Team 1, NightElf".to_string(),
        ]
    );
}

#[test]
fn help_lists_the_commands() {
    let mut h = handler(1, &FOUR);
    let r = command(&mut h, 1, "!help");
    assert_eq!(r.len(), 9);
    assert_eq!(r[0], "Chat commands:");
}

#[test]
fn unmute_flows() {
    let mut h = handler(1, &FOUR);
    assert_eq!(command(&mut h, 1, "!unmute"), vec!["No player to unmute.".to_string()]);
    command(&mut h, 1, "!mute 9");
    assert_eq!(command(&mut h, 1, "!unmute"), vec!["Un-muted: Nine".to_string()]);
    assert!(h.muted_players.is_empty());
    command(&mut h, 1, "!muteall");
    assert_eq!(
        command(&mut h, 1, "!unmute"),
        vec![
            "Type `!unmute <ID>` to unmute a player:".to_string(),
            " ID=3 Three".to_string(),
            " ID=7 Seven".to_string(),
            " ID=9 Nine".to_string(),
        ]
    );
    assert_eq!(command(&mut h, 1, "!unmute 3"), vec!["Un-muted: Three".to_string()]);
    assert!(!h.muted_players.contains(3));
    assert_eq!(
        command(&mut h, 1, "!unmute 3"),
        vec![
            "Invalid player id. Muted players:".to_string(),
            " ID=7 Seven".to_string(),
            " ID=9 Nine".to_string(),
        ]
    );
}

#[test]
fn bad_argument_syntax() {
    let mut h = handler(1, &[(1, "Me"), (2, "Rival")]);
    assert_eq!(
        command(&mut h, 1, "!mute x"),
        vec!["Invalid syntax. Example: !mute 1".to_string(), " ID=2 Rival".to_string()]
    );
    assert_eq!(
        command(&mut h, 1, "!unmute 256"),
        vec!["Invalid syntax. Example: !unmute 1".to_string()]
    );
    assert!(h.muted_players.is_empty());
}

#[test]
fn command_parsing() {
    assert_eq!(parse_command("help"), Command::Help);
    assert_eq!(parse_command("flo \t"), Command::Flo);
    assert_eq!(parse_command("mute"), Command::Mute);
    assert_eq!(parse_command("mute 7"), Command::MuteId(Some(7)));
    assert_eq!(parse_command("mute +07"), Command::MuteId(Some(7)));
    assert_eq!(parse_command("mute 256"), Command::MuteId(None));
    assert_eq!(parse_command("mutex"), Command::MuteId(None));
    assert_eq!(parse_command("unmute 255"), Command::UnmuteId(Some(255)));
    assert_eq!(parse_command("unmuteall"), Command::UnmuteAll);
    assert_eq!(parse_command(" help"), Command::Unknown);
}

#[test]
fn unencodable_replies_are_dropped() {
    let msgs = vec!["a".to_string(), "b\0c".to_string(), "d".to_string()];
    let frames = chat_frames(4, &msgs);
    assert_eq!(replies(&frames), vec!["a".to_string(), "d".to_string()]);
}

#[test]
fn loop_state_starts_at_zero() {
    let s = GameLoopState::new(&game(1, &FOUR));
    assert_eq!(s.time, 0);
    assert!(s.ping.is_none());
}
