//! The layout of a frame, as a function from messages to bytes, and the
//! reading of a run of bytes, as a function from bytes to messages.

use crate::message::{MessageView, Move, PieceKind, Position, StartView};
use crate::wire::endian::{le32, le32_value, le64, le64_value};
use vstd::prelude::*;
use vstd::utf8::{decode_utf8, encode_utf8, valid_utf8};

verus! {

/// The tag of a frame that holds a `Start`.
pub const TAG_START: u8 = 1;

/// The tag of a frame that holds a `Move`.
pub const TAG_MOVE: u8 = 2;

/// The bytes of a frame before its payload: the tag and the length.
pub const HEADER_LEN: usize = 5;

/// The byte that stands for a kind of piece.
pub open spec fn kind_code(k: PieceKind) -> u8 {
    match k {
        PieceKind::Pawn => 0,
        PieceKind::Knight => 1,
        PieceKind::Bishop => 2,
        PieceKind::Rook => 3,
        PieceKind::Queen => 4,
        PieceKind::King => 5,
    }
}

/// The kind of piece that a byte stands for.
pub open spec fn kind_of_code(c: u8) -> Option<PieceKind> {
    if c == 0 {
        Some(PieceKind::Pawn)
    } else if c == 1 {
        Some(PieceKind::Knight)
    } else if c == 2 {
        Some(PieceKind::Bishop)
    } else if c == 3 {
        Some(PieceKind::Rook)
    } else if c == 4 {
        Some(PieceKind::Queen)
    } else if c == 5 {
        Some(PieceKind::King)
    } else {
        None
    }
}

/// A boolean: one byte, 1 or 0.
pub open spec fn flag_bytes(b: bool) -> Seq<u8> {
    seq![if b { 1u8 } else { 0u8 }]
}

/// A square: its file, then its rank.
pub open spec fn square_bytes(p: Position) -> Seq<u8> {
    seq![p.x(), p.y()]
}

/// An optional kind of piece: a presence byte, then the kind's code.
pub open spec fn opt_kind_bytes(k: Option<PieceKind>) -> Seq<u8> {
    match k {
        None => seq![0u8],
        Some(k) => seq![1u8, kind_code(k)],
    }
}

/// An optional number: a presence byte, then four bytes, lowest first.
pub open spec fn opt_u32_bytes(v: Option<u32>) -> Seq<u8> {
    match v {
        None => seq![0u8],
        Some(x) => seq![1u8] + le32(x),
    }
}

/// A text: the length of its UTF-8 form in eight bytes, lowest first,
/// then that form.
pub open spec fn text_bytes(t: Seq<char>) -> Seq<u8> {
    le64(encode_utf8(t).len() as u64) + encode_utf8(t)
}

/// An optional text: a presence byte, then the text.
pub open spec fn opt_text_bytes(t: Option<Seq<char>>) -> Seq<u8> {
    match t {
        None => seq![0u8],
        Some(t) => seq![1u8] + text_bytes(t),
    }
}

/// The payload of a `Move`.
pub open spec fn move_payload(m: Move) -> Seq<u8> {
    square_bytes(m.from) + square_bytes(m.to) + opt_kind_bytes(m.promotion) + flag_bytes(m.forfeit)
        + flag_bytes(m.offer_draw)
}

/// The payload of a `Start`.
pub open spec fn start_payload(s: StartView) -> Seq<u8> {
    flag_bytes(s.is_white) + opt_text_bytes(s.name) + opt_text_bytes(s.fen) + opt_u32_bytes(s.time)
        + opt_u32_bytes(s.inc)
}

/// The tag of the frame of a message.
pub open spec fn tag_of(m: MessageView) -> u8 {
    match m {
        MessageView::Start(_) => TAG_START,
        MessageView::Move(_) => TAG_MOVE,
    }
}

/// The payload of the frame of a message.
pub open spec fn payload_of(m: MessageView) -> Seq<u8> {
    match m {
        MessageView::Start(s) => start_payload(s),
        MessageView::Move(m) => move_payload(m),
    }
}

/// The squares of the message, if it has any, lie on the board.
pub open spec fn on_board(m: MessageView) -> bool {
    match m {
        MessageView::Start(_) => true,
        MessageView::Move(m) => m.on_board(),
    }
}

/// The length of the payload fits the four bytes of the header.
pub open spec fn encodable(m: MessageView) -> bool {
    payload_of(m).len() <= u32::MAX
}

/// A frame: the tag, the length of the payload, the payload.
pub open spec fn frame(tag: u8, payload: Seq<u8>) -> Seq<u8> {
    seq![tag] + le32(payload.len() as u32) + payload
}

/// The frame of a message.
pub open spec fn encoding(m: MessageView) -> Seq<u8> {
    frame(tag_of(m), payload_of(m))
}

/// Reads a boolean from the front of `s`; gives it with what follows.
pub open spec fn take_flag(s: Seq<u8>) -> Option<(bool, Seq<u8>)> {
    if s.len() >= 1 && s[0] <= 1 {
        Some((s[0] == 1, s.skip(1)))
    } else {
        None
    }
}

/// Reads a square from the front of `s`; gives it with what follows.
pub open spec fn take_square(s: Seq<u8>) -> Option<(Position, Seq<u8>)> {
    if s.len() >= 2 && s[0] <= 7 && s[1] <= 7 {
        Some((Position::at(s[0], s[1]), s.skip(2)))
    } else {
        None
    }
}

/// Reads an optional kind of piece from the front of `s`.
pub open spec fn take_opt_kind(s: Seq<u8>) -> Option<(Option<PieceKind>, Seq<u8>)> {
    if s.len() >= 1 && s[0] == 0 {
        Some((None, s.skip(1)))
    } else if s.len() >= 2 && s[0] == 1 && kind_of_code(s[1]) is Some {
        Some((kind_of_code(s[1]), s.skip(2)))
    } else {
        None
    }
}

/// Reads an optional number from the front of `s`.
pub open spec fn take_opt_u32(s: Seq<u8>) -> Option<(Option<u32>, Seq<u8>)> {
    if s.len() >= 1 && s[0] == 0 {
        Some((None, s.skip(1)))
    } else if s.len() >= 5 && s[0] == 1 {
        Some((Some(le32_value(s.skip(1))), s.skip(5)))
    } else {
        None
    }
}

/// Reads a text from the front of `s`.
pub open spec fn take_text(s: Seq<u8>) -> Option<(Seq<char>, Seq<u8>)> {
    if s.len() >= 8 && le64_value(s) <= s.len() - 8 && valid_utf8(
        s.subrange(8, 8 + le64_value(s)),
    ) {
        Some((decode_utf8(s.subrange(8, 8 + le64_value(s))), s.skip(8 + le64_value(s))))
    } else {
        None
    }
}

/// Reads an optional text from the front of `s`.
pub open spec fn take_opt_text(s: Seq<u8>) -> Option<(Option<Seq<char>>, Seq<u8>)> {
    if s.len() >= 1 && s[0] == 0 {
        Some((None, s.skip(1)))
    } else if s.len() >= 1 && s[0] == 1 {
        match take_text(s.skip(1)) {
            Some((t, rest)) => Some((Some(t), rest)),
            None => None,
        }
    } else {
        None
    }
}

/// Reads a payload as a `Move`: every field in turn, and nothing left.
pub open spec fn parse_move(p: Seq<u8>) -> Option<Move> {
    match take_square(p) {
        Some((from, left1)) => match take_square(left1) {
            Some((to, left2)) => match take_opt_kind(left2) {
                Some((promotion, left3)) => match take_flag(left3) {
                    Some((forfeit, left4)) => match take_flag(left4) {
                        Some((offer_draw, left5)) => if left5.len() == 0 {
                            Some(Move { from, to, promotion, forfeit, offer_draw })
                        } else {
                            None
                        },
                        None => None,
                    },
                    None => None,
                },
                None => None,
            },
            None => None,
        },
        None => None,
    }
}

/// Reads a payload as a `Start`: every field in turn, and nothing left.
pub open spec fn parse_start(p: Seq<u8>) -> Option<StartView> {
    match take_flag(p) {
        Some((is_white, left1)) => match take_opt_text(left1) {
            Some((name, left2)) => match take_opt_text(left2) {
                Some((fen, left3)) => match take_opt_u32(left3) {
                    Some((time, left4)) => match take_opt_u32(left4) {
                        Some((inc, left5)) => if left5.len() == 0 {
                            Some(StartView { is_white, name, fen, time, inc })
                        } else {
                            None
                        },
                        None => None,
                    },
                    None => None,
                },
                None => None,
            },
            None => None,
        },
        None => None,
    }
}

/// Reads a payload as the message that the tag announces.
pub open spec fn parse_payload(tag: u8, p: Seq<u8>) -> Option<MessageView> {
    if tag == TAG_START {
        match parse_start(p) {
            Some(s) => Some(MessageView::Start(s)),
            None => None,
        }
    } else if tag == TAG_MOVE {
        match parse_move(p) {
            Some(m) => Some(MessageView::Move(m)),
            None => None,
        }
    } else {
        None
    }
}

/// What a run of bytes holds at its front.
pub enum Parsed {
    /// A whole frame: its message and the number of bytes it takes.
    Complete { message: MessageView, consumed: nat },
    /// The beginning of a frame; more bytes are needed.
    Incomplete,
    /// No frame begins like this.
    Malformed,
}

/// Reads the frame at the front of `s`.
///
/// The tag is judged as soon as it is there, the payload only when every
/// byte of it is.
pub open spec fn parse(s: Seq<u8>) -> Parsed {
    if s.len() == 0 {
        Parsed::Incomplete
    } else if s[0] != TAG_START && s[0] != TAG_MOVE {
        Parsed::Malformed
    } else if s.len() < 5 {
        Parsed::Incomplete
    } else if s.len() - 5 < le32_value(s.skip(1)) {
        Parsed::Incomplete
    } else {
        let end = 5 + le32_value(s.skip(1));
        match parse_payload(s[0], s.subrange(5, end)) {
            Some(message) => Parsed::Complete { message, consumed: end as nat },
            None => Parsed::Malformed,
        }
    }
}

} // verus!
