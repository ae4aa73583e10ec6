//! The frontend's routing rules: which engine command or reply each
//! inbound protocol message gives rise to.
//!
//! The surrounding program reads lines, parses them into protocol
//! messages and converts them to plain `UciEvent` values; the routing
//! decision itself is verified here.

use vstd::prelude::*;
use vstd::string::StringExecFns;
use crate::broker::{EngineCommand, SearchControl};
use crate::time_broker::TimeControl;

verus! {

/// An inbound protocol message, reduced to what the routing reads.
pub enum UciEvent {
    /// The `uci` handshake.
    Uci,
    /// The `isready` probe.
    IsReady,
    /// A `position` command.
    Position { startpos: bool, fen: Option<String>, moves: Vec<chess::ChessMove> },
    /// A `go` command.
    Go { time_control: Option<TimeControl>, search_control: Option<SearchControl> },
    /// A token the protocol parser did not recognise, with the parser's
    /// account of it.
    UnknownToken { token: String, error_text: String },
    /// A recognised message the engine does not support, rendered back
    /// to text.
    Unsupported { message_text: String },
}

/// A reply the frontend sends on its own, without the engine broker.
pub enum OutMessage {
    IdName(String),
    IdAuthor(String),
    UciOk,
    InfoString(String),
}

/// What an inbound message leads to: at most one command for the engine
/// broker and any number of direct replies.
pub struct FrontendAction {
    pub command: Option<EngineCommand>,
    pub replies: Vec<OutMessage>,
}

/// Route one inbound message: the handshake is answered directly,
/// `position`, `go` and `isready` go to the broker, and the custom
/// tokens `perft`, `eval` and `show` become their commands; anything
/// else earns an explanatory info string.
pub fn route_message(ev: UciEvent) -> (r: FrontendAction)
    ensures
        match ev {
            UciEvent::Uci => {
                &&& r.command is None
                &&& r.replies@.len() == 3
                &&& (r.replies@[0] matches OutMessage::IdName(s) && s@ == "WolfChess"@)
                &&& (r.replies@[1] matches OutMessage::IdAuthor(s) && s@
                    == "Jan Niklas Richter"@)
                &&& r.replies@[2] is UciOk
            },
            UciEvent::IsReady => {
                &&& (r.command matches Some(c) && c is IsReady)
                &&& r.replies@.len() == 0
            },
            UciEvent::Position { startpos, fen, moves } => {
                &&& (r.command matches Some(c) && c matches EngineCommand::SetPosition {
                    startpos: sp,
                    fen: f,
                    moves: m,
                } && sp == startpos && f == fen && m@ == moves@)
                &&& r.replies@.len() == 0
            },
            UciEvent::Go { time_control, search_control } => {
                &&& (r.command matches Some(c) && c matches EngineCommand::Search {
                    time_control: tc,
                    search_control: sc,
                } && tc == time_control && sc == search_control)
                &&& r.replies@.len() == 0
            },
            UciEvent::UnknownToken { token, error_text } => {
                if token@ == "perft"@ {
                    &&& (r.command matches Some(c) && c matches EngineCommand::Perft {
                        depth,
                    } && depth == 7)
                    &&& r.replies@.len() == 0
                } else if token@ == "eval"@ {
                    &&& (r.command matches Some(c) && c is EvalCurrentPosition)
                    &&& r.replies@.len() == 0
                } else if token@ == "show"@ {
                    &&& (r.command matches Some(c) && c is ShowBoard)
                    &&& r.replies@.len() == 0
                } else {
                    &&& r.command is None
                    &&& r.replies@.len() == 1
                    &&& (r.replies@[0] matches OutMessage::InfoString(s) && s@
                        == "Unknown message - "@ + error_text@ + " "@ + token@)
                }
            },
            UciEvent::Unsupported { message_text } => {
                &&& r.command is None
                &&& r.replies@.len() == 1
                &&& (r.replies@[0] matches OutMessage::InfoString(s) && s@
                    == "Message not yet implemented - "@ + message_text@)
            },
        },
{
    match ev {
        UciEvent::Uci => {
            let mut replies: Vec<OutMessage> = Vec::new();
            replies.push(OutMessage::IdName(String::from_str("WolfChess")));
            replies.push(OutMessage::IdAuthor(String::from_str("Jan Niklas Richter")));
            replies.push(OutMessage::UciOk);
            FrontendAction { command: None, replies }
        },
        UciEvent::IsReady => {
            FrontendAction { command: Some(EngineCommand::IsReady), replies: Vec::new() }
        },
        UciEvent::Position { startpos, fen, moves } => {
            FrontendAction {
                command: Some(EngineCommand::SetPosition { startpos, fen, moves }),
                replies: Vec::new(),
            }
        },
        UciEvent::Go { time_control, search_control } => {
            FrontendAction {
                command: Some(EngineCommand::Search { time_control, search_control }),
                replies: Vec::new(),
            }
        },
        UciEvent::UnknownToken { token, error_text } => {
            if token == String::from_str("perft") {
                FrontendAction { command: Some(EngineCommand::Perft { depth: 7 }), replies: Vec::new() }
            } else if token == String::from_str("eval") {
                FrontendAction {
                    command: Some(EngineCommand::EvalCurrentPosition),
                    replies: Vec::new(),
                }
            } else if token == String::from_str("show") {
                FrontendAction { command: Some(EngineCommand::ShowBoard), replies: Vec::new() }
            } else {
                let mut text = String::from_str("Unknown message - ");
                text.append(error_text.as_str());
                text.append(" ");
                text.append(token.as_str());
                let mut replies: Vec<OutMessage> = Vec::new();
                replies.push(OutMessage::InfoString(text));
                FrontendAction { command: None, replies }
            }
        },
        UciEvent::Unsupported { message_text } => {
            let mut text = String::from_str("Message not yet implemented - ");
            text.append(message_text.as_str());
            let mut replies: Vec<OutMessage> = Vec::new();
            replies.push(OutMessage::InfoString(text));
            FrontendAction { command: None, replies }
        },
    }
}

} // verus!
