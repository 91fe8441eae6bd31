//! The relay session: what to do with each frame from the local client and
//! from the node, and the counters and mute set that those frames change.
use vstd::prelude::*;

use crate::command::{command_mutes, command_replies, parse_command, parse_command_spec, run_command, texts};
use crate::frame::{
    chat_sender, chat_text, is_scoped_chat, parse_scoped_chat, private_chat_fits, private_chat_frame,
    private_chat_payload, Frame, CHAT_FROM_HOST, CHAT_TO_HOST, INCOMING_ACTION, LEAVE_ACK,
    OUTGOING_KEEP_ALIVE,
};
use crate::mute::MuteSet;
use crate::roster::{LanGameInfo, NodeInfo};

verus! {

/// How a session ended.
#[derive(Debug, PartialEq, Eq, Structural)]
pub enum GameResult {
    /// The local client's connection closed or failed.
    Disconnected,
    /// The local client left, and the leave handshake was completed.
    Leave,
}

/// What to do with a frame from the local client.
pub enum LocalAction {
    /// Report the slot as left to the node, send `leave_ack_frame()` back to
    /// the client, flush, and end the session with `GameResult::Leave`.
    Leave,
    /// Send the frame on to the node.
    ToNode(Frame),
    /// The frame was a chat command: send these private chat frames back to
    /// the local client, and nothing to the node.
    Reply(Vec<Frame>),
}

/// Character text of UTF-8 bytes, invalid sequences replaced.
pub uninterp spec fn utf8_lossy(b: Seq<u8>) -> Seq<char>;

/// Relies on `String::from_utf8_lossy`: the text depends on the bytes alone.
#[verifier::external_body]
fn decode_text(b: &[u8]) -> (r: String)
    ensures
        r@ == utf8_lossy(b@),
{
    String::from_utf8_lossy(b).into_owned()
}

/// Marks a chat text as a command to this relay.
pub const COMMAND_MARK: u8 = 0x21;

/// The command bytes of a chat text: what follows a leading `!`.
pub open spec fn command_bytes(text: Seq<u8>) -> Option<Seq<u8>> {
    if text.len() > 0 && text[0] == COMMAND_MARK {
        Some(text.drop_first())
    } else {
        None
    }
}

/// The command bytes of a chat-to-host payload, if it is a scoped message
/// holding a command.
pub open spec fn chat_command(p: Seq<u8>) -> Option<Seq<u8>> {
    if is_scoped_chat(p) {
        command_bytes(chat_text(p))
    } else {
        None
    }
}

/// Type tags and payloads of a list of frames.
pub open spec fn frame_views(v: Seq<Frame>) -> Seq<(u8, Seq<u8>)> {
    v.map_values(|f: Frame| (f.type_id, f.payload@))
}

/// The private chat frames that carry `msgs` to `player`: one per message,
/// in order, leaving out each message that cannot be encoded.
pub open spec fn reply_frames(player: u8, msgs: Seq<Seq<char>>) -> Seq<(u8, Seq<u8>)>
    decreases msgs.len(),
{
    if msgs.len() == 0 {
        seq![]
    } else {
        let prev = reply_frames(player, msgs.drop_last());
        let b = vstd::utf8::encode_utf8(msgs.last());
        if private_chat_fits(b) {
            prev.push((CHAT_FROM_HOST, private_chat_payload(player, b)))
        } else {
            prev
        }
    }
}

/// Encodes each message as a private chat frame to `player`; a message that
/// cannot be encoded is dropped and the others still go.
pub fn chat_frames(player: u8, msgs: &Vec<String>) -> (r: Vec<Frame>)
    ensures
        frame_views(r@) == reply_frames(player, texts(msgs@)),
{
    let mut r: Vec<Frame> = Vec::new();
    let mut i: usize = 0;
    while i < msgs.len()
        invariant
            i <= msgs@.len(),
            frame_views(r@) == reply_frames(player, texts(msgs@.subrange(0, i as int))),
        decreases msgs@.len() - i,
    {
        let ghost prev = r@;
        assert(texts(msgs@.subrange(0, i + 1)).drop_last() =~= texts(msgs@.subrange(0, i as int)));
        let b: &[u8] = msgs[i].as_str().as_bytes();
        match private_chat_frame(player, b) {
            Some(f) => {
                r.push(f);
                assert(frame_views(r@) =~= frame_views(prev).push(
                    (CHAT_FROM_HOST, private_chat_payload(player, b@)),
                ));
            },
            None => {},
        }
        i = i + 1;
    }
    assert(msgs@.subrange(0, msgs@.len() as int) =~= msgs@);
    r
}

/// A frame counter after one more frame; it wraps around past its largest
/// value.
pub open spec fn next_count(n: u32) -> u32 {
    if n == u32::MAX {
        0
    } else {
        (n + 1) as u32
    }
}

fn step_count(n: u32) -> (r: u32)
    ensures
        r == next_count(n),
{
    if n == u32::MAX {
        0
    } else {
        n + 1
    }
}

/// One relay session: the match it serves, its counters and its mute set.
pub struct GameHandler {
    pub info: LanGameInfo,
    pub node: NodeInfo,
    /// Action frames received from the node.
    pub tick_recv: u32,
    /// Keepalive frames received from the local client.
    pub tick_ack: u32,
    pub muted_players: MuteSet,
}

impl GameHandler {
    pub open spec fn wf(&self) -> bool {
        self.muted_players.wf()
    }

    /// A session with zeroed counters and nobody muted.
    pub fn new(info: LanGameInfo, node: NodeInfo) -> (r: GameHandler)
        ensures
            r.wf(),
            r.info == info,
            r.node == node,
            r.tick_recv == 0,
            r.tick_ack == 0,
            r.muted_players@ == Set::<u8>::empty(),
    {
        GameHandler { info, node, tick_recv: 0, tick_ack: 0, muted_players: MuteSet::new() }
    }

    /// Carries out the chat command `cmd` (the text after its `!`) for the
    /// local player and returns its private replies.
    pub fn handle_chat_command(&mut self, cmd: &str) -> (r: Vec<String>)
        requires
            old(self).wf(),
        ensures
            final(self).wf(),
            texts(r@) == command_replies(
                parse_command_spec(cmd@),
                old(self).info,
                old(self).node,
                old(self).tick_recv,
                old(self).tick_ack,
                old(self).muted_players@,
            ),
            final(self).muted_players@ == command_mutes(
                parse_command_spec(cmd@),
                old(self).info.slot_info.player_infos@,
                old(self).info.slot_info.slot_player_id,
                old(self).muted_players@,
            ),
            final(self).info == old(self).info,
            final(self).node == old(self).node,
            final(self).tick_recv == old(self).tick_recv,
            final(self).tick_ack == old(self).tick_ack,
    {
        let c = parse_command(cmd);
        run_command(c, &self.info, &self.node, self.tick_recv, self.tick_ack, &mut self.muted_players)
    }

    /// Decides what becomes of a frame from the local client.
    pub fn handle_game_packet(&mut self, pkt: Frame) -> (r: LocalAction)
        requires
            old(self).wf(),
        ensures
            final(self).wf(),
            final(self).info == old(self).info,
            final(self).node == old(self).node,
            final(self).tick_recv == old(self).tick_recv,
            final(self).tick_ack == if pkt.type_id == OUTGOING_KEEP_ALIVE {
                next_count(old(self).tick_ack)
            } else {
                old(self).tick_ack
            },
            pkt.type_id == LEAVE_ACK ==> r is Leave,
            r is Leave ==> pkt.type_id == LEAVE_ACK,
            (pkt.type_id == CHAT_TO_HOST && chat_command(pkt.payload@) is Some) <==> r is Reply,
            r is Reply ==> ({
                let c = parse_command_spec(utf8_lossy(chat_command(pkt.payload@)->0));
                &&& frame_views(r->Reply_0@) == reply_frames(
                    old(self).info.slot_info.slot_player_id,
                    command_replies(
                        c,
                        old(self).info,
                        old(self).node,
                        old(self).tick_recv,
                        old(self).tick_ack,
                        old(self).muted_players@,
                    ),
                )
                &&& final(self).muted_players@ == command_mutes(
                    c,
                    old(self).info.slot_info.player_infos@,
                    old(self).info.slot_info.slot_player_id,
                    old(self).muted_players@,
                )
            }),
            !(r is Reply) ==> final(self).muted_players@ == old(self).muted_players@,
            r is ToNode ==> r->ToNode_0.type_id == pkt.type_id && r->ToNode_0.payload@
                == pkt.payload@,
    {
        if pkt.type_id == LEAVE_ACK {
            return LocalAction::Leave;
        }
        if pkt.type_id == CHAT_TO_HOST {
            match parse_scoped_chat(&pkt.payload) {
                Some(chat) => {
                    if chat.text.len() > 0 && chat.text[0] == COMMAND_MARK {
                        let mut rest: Vec<u8> = Vec::new();
                        let mut i: usize = 1;
                        while i < chat.text.len()
                            invariant
                                1 <= i <= chat.text@.len(),
                                rest@ == chat.text@.subrange(1, i as int),
                            decreases chat.text@.len() - i,
                        {
                            rest.push(chat.text[i]);
                            i = i + 1;
                            assert(rest@ =~= chat.text@.subrange(1, i as int));
                        }
                        assert(rest@ =~= chat.text@.drop_first());
                        let cmd = decode_text(rest.as_slice());
                        let replies = self.handle_chat_command(cmd.as_str());
                        let frames = chat_frames(self.info.slot_info.slot_player_id, &replies);
                        return LocalAction::Reply(frames);
                    }
                },
                None => {},
            }
        }
        if pkt.type_id == OUTGOING_KEEP_ALIVE {
            self.tick_ack = step_count(self.tick_ack);
        }
        LocalAction::ToNode(pkt)
    }

    /// Decides whether a frame from the node goes on to the local client:
    /// `None` drops it.
    pub fn handle_incoming_w3gs(&mut self, pkt: Frame) -> (r: Option<Frame>)
        requires
            old(self).wf(),
        ensures
            final(self).wf(),
            final(self).info == old(self).info,
            final(self).node == old(self).node,
            final(self).tick_ack == old(self).tick_ack,
            final(self).muted_players@ == old(self).muted_players@,
            final(self).tick_recv == if pkt.type_id == INCOMING_ACTION {
                next_count(old(self).tick_recv)
            } else {
                old(self).tick_recv
            },
            r is None <==> (pkt.type_id == CHAT_FROM_HOST && old(self).muted_players@ != Set::<
                u8,
            >::empty() && is_scoped_chat(pkt.payload@) && old(self).muted_players@.contains(
                chat_sender(pkt.payload@),
            )),
            r is Some ==> r->0.type_id == pkt.type_id && r->0.payload@ == pkt.payload@,
    {
        if pkt.type_id == INCOMING_ACTION {
            self.tick_recv = step_count(self.tick_recv);
        } else if pkt.type_id == CHAT_FROM_HOST && !self.muted_players.is_empty() {
            match parse_scoped_chat(&pkt.payload) {
                Some(chat) => {
                    if self.muted_players.contains(chat.from) {
                        return None;
                    }
                },
                None => {},
            }
        }
        Some(pkt)
    }
}

/// Per-session timing state of the relay loop: a clock and the last ping.
pub struct GameLoopState {
    pub time: u32,
    pub ping: Option<u32>,
}

impl GameLoopState {
    pub fn new(_info: &LanGameInfo) -> (r: GameLoopState)
        ensures
            r.time == 0,
            r.ping is None,
    {
        GameLoopState { time: 0, ping: None }
    }
}

} // verus!
