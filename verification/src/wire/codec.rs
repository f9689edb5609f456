//! Encoding a message into its frame and decoding the frame at the front
//! of a run of bytes.

use crate::message::{Message, MessageView, Move, PieceKind, Position, Start};
use crate::wire::endian::{get_le32, get_le64, put_bytes, put_le32, put_le64};
use crate::wire::format::{
    encodable, encoding, flag_bytes, kind_code, kind_of_code, move_payload, opt_kind_bytes,
    opt_text_bytes, opt_u32_bytes, parse, parse_move, parse_start, square_bytes, start_payload,
    take_flag, take_opt_kind, take_opt_text, take_opt_u32, take_square, take_text, text_bytes,
    Parsed, HEADER_LEN, TAG_MOVE, TAG_START,
};
use vstd::prelude::*;
use vstd::slice::{slice_subrange, slice_to_vec};
use vstd::utf8::{encode_utf8, encode_utf8_decode_utf8, valid_utf8};

verus! {

/// Why a message has no frame.
#[derive(Clone, Copy, Debug, PartialEq, Eq, Structural)]
pub enum EncodeError {
    /// The payload is longer than the four bytes of the header can say.
    TooLong,
}

/// What `decode` found at the front of a run of bytes.
#[derive(Clone, Debug, PartialEq, Eq)]
pub enum Decoded {
    /// A whole frame: its message and the number of bytes it takes.
    Complete { message: Message, consumed: usize },
    /// The beginning of a frame; more bytes are needed.
    Incomplete,
    /// No frame begins like this.
    Malformed,
}

impl View for Decoded {
    type V = Parsed;

    open spec fn view(&self) -> Parsed {
        match self {
            Decoded::Complete { message, consumed } => Parsed::Complete {
                message: message@,
                consumed: *consumed as nat,
            },
            Decoded::Incomplete => Parsed::Incomplete,
            Decoded::Malformed => Parsed::Malformed,
        }
    }
}

/// `String::from_utf8` of std: the text whose UTF-8 form is `bytes`, if
/// `bytes` is the UTF-8 form of a text, and nothing otherwise.
#[verifier::external_body]
fn text_of_utf8(bytes: Vec<u8>) -> (r: Option<String>)
    ensures
        r is Some <==> valid_utf8(bytes@),
        r is Some ==> encode_utf8(r->0@) == bytes@,
{
    match String::from_utf8(bytes) {
        Ok(text) => Some(text),
        Err(_) => None,
    }
}

/// The byte that stands for a kind of piece.
pub fn code_of_kind(k: PieceKind) -> (c: u8)
    ensures
        c == kind_code(k),
{
    match k {
        PieceKind::Pawn => 0,
        PieceKind::Knight => 1,
        PieceKind::Bishop => 2,
        PieceKind::Rook => 3,
        PieceKind::Queen => 4,
        PieceKind::King => 5,
    }
}

/// The kind of piece that a byte stands for, if it stands for one.
pub fn kind_of(c: u8) -> (k: Option<PieceKind>)
    ensures
        k == kind_of_code(c),
{
    if c == 0 {
        Some(PieceKind::Pawn)
    } else if c == 1 {
        Some(PieceKind::Knight)
    } else if c == 2 {
        Some(PieceKind::Bishop)
    } else if c == 3 {
        Some(PieceKind::Rook)
    } else if c == 4 {
        Some(PieceKind::Queen)
    } else if c == 5 {
        Some(PieceKind::King)
    } else {
        None
    }
}

/// Appends a boolean.
fn put_flag(out: &mut Vec<u8>, b: bool)
    ensures
        final(out)@ == old(out)@ + flag_bytes(b),
{
    out.push(if b { 1u8 } else { 0u8 });
    assert(out@ =~= old(out)@ + flag_bytes(b));
}

/// Appends a square.
fn put_square(out: &mut Vec<u8>, p: Position)
    ensures
        final(out)@ == old(out)@ + square_bytes(p),
{
    out.push(p.x());
    out.push(p.y());
    assert(out@ =~= old(out)@ + square_bytes(p));
}

/// Appends an optional kind of piece.
fn put_opt_kind(out: &mut Vec<u8>, k: Option<PieceKind>)
    ensures
        final(out)@ == old(out)@ + opt_kind_bytes(k),
{
    match k {
        None => {
            out.push(0u8);
        },
        Some(kind) => {
            out.push(1u8);
            out.push(code_of_kind(kind));
        },
    }
    assert(out@ =~= old(out)@ + opt_kind_bytes(k));
}

/// Appends an optional number.
fn put_opt_u32(out: &mut Vec<u8>, v: Option<u32>)
    ensures
        final(out)@ == old(out)@ + opt_u32_bytes(v),
{
    match v {
        None => {
            out.push(0u8);
        },
        Some(x) => {
            out.push(1u8);
            put_le32(out, x);
        },
    }
    assert(out@ =~= old(out)@ + opt_u32_bytes(v));
}

/// Appends an optional text.
fn put_opt_text(out: &mut Vec<u8>, t: &Option<String>)
    ensures
        final(out)@ == old(out)@ + opt_text_bytes(crate::message::text_view(*t)),
{
    match t {
        None => {
            out.push(0u8);
            assert(out@ =~= old(out)@ + seq![0u8]);
        },
        Some(text) => {
            let body = text.as_str().as_bytes();
            out.push(1u8);
            put_le64(out, body.len() as u64);
            put_bytes(out, body);
            assert(out@ =~= old(out)@ + (seq![1u8] + text_bytes(text@)));
        },
    }
}

/// Puts the header before a payload that it can describe.
fn seal(tag: u8, payload: &Vec<u8>) -> (r: Vec<u8>)
    requires
        payload@.len() <= u32::MAX,
    ensures
        r@ == crate::wire::format::frame(tag, payload@),
{
    let mut out: Vec<u8> = Vec::new();
    out.push(tag);
    put_le32(&mut out, payload.len() as u32);
    put_bytes(&mut out, payload.as_slice());
    out
}

/// The frame of a move. Every move has one.
pub fn encode_move(m: &Move) -> (r: Vec<u8>)
    ensures
        r@ == encoding(MessageView::Move(*m)),
        encodable(MessageView::Move(*m)),
        12 <= r@.len() <= 13,
{
    let mut payload: Vec<u8> = Vec::new();
    put_square(&mut payload, m.from);
    put_square(&mut payload, m.to);
    put_opt_kind(&mut payload, m.promotion);
    put_flag(&mut payload, m.forfeit);
    put_flag(&mut payload, m.offer_draw);
    assert(payload@ =~= move_payload(*m));
    seal(TAG_MOVE, &payload)
}

/// The frame of a handshake, unless its texts make the payload longer
/// than the header can say.
pub fn encode_start(s: &Start) -> (r: Result<Vec<u8>, EncodeError>)
    ensures
        r is Ok <==> encodable(MessageView::Start(s@)),
        r is Ok ==> r->Ok_0@ == encoding(MessageView::Start(s@)),
{
    let mut payload: Vec<u8> = Vec::new();
    put_flag(&mut payload, s.is_white);
    put_opt_text(&mut payload, &s.name);
    put_opt_text(&mut payload, &s.fen);
    put_opt_u32(&mut payload, s.time);
    put_opt_u32(&mut payload, s.inc);
    assert(payload@ =~= start_payload(s@));
    if payload.len() > 0xffff_ffff {
        Err(EncodeError::TooLong)
    } else {
        Ok(seal(TAG_START, &payload))
    }
}

/// The frame of a message: `TooLong` exactly when the payload is longer
/// than the header can say, which only the texts of a handshake can
/// bring about.
pub fn encode(message: &Message) -> (r: Result<Vec<u8>, EncodeError>)
    ensures
        r is Ok <==> encodable(message@),
        r is Ok ==> r->Ok_0@ == encoding(message@),
{
    match message {
        Message::Start(s) => encode_start(s),
        Message::Move(m) => Ok(encode_move(m)),
    }
}

/// What a reader gave agrees with what the layout says stands at `at`:
/// the same value, and a place to go on from, or nothing at all.
pub open spec fn agrees<T>(got: Option<(T, usize)>, want: Option<(T, Seq<u8>)>, p: Seq<u8>) -> bool {
    match (got, want) {
        (Some((v, next)), Some((w, rest))) => v == w && next <= p.len() && rest == p.skip(
            next as int,
        ),
        (None, None) => true,
        _ => false,
    }
}

/// As `agrees`, for a text that may be absent.
pub open spec fn agrees_text(
    got: Option<(Option<String>, usize)>,
    want: Option<(Option<Seq<char>>, Seq<u8>)>,
    p: Seq<u8>,
) -> bool {
    match (got, want) {
        (Some((v, next)), Some((w, rest))) => crate::message::text_view(v) == w && next <= p.len()
            && rest == p.skip(next as int),
        (None, None) => true,
        _ => false,
    }
}

/// Reads the boolean at `at`.
fn read_flag(p: &[u8], at: usize) -> (r: Option<(bool, usize)>)
    requires
        at <= p.len(),
    ensures
        agrees(r, take_flag(p@.skip(at as int)), p@),
{
    if at < p.len() && p[at] <= 1 {
        assert(p@.skip(at as int).skip(1) =~= p@.skip(at + 1));
        Some((p[at] == 1, at + 1))
    } else {
        None
    }
}

/// Reads the square at `at`.
fn read_square(p: &[u8], at: usize) -> (r: Option<(Position, usize)>)
    requires
        at <= p.len(),
    ensures
        agrees(r, take_square(p@.skip(at as int)), p@),
{
    if p.len() - at < 2 {
        return None;
    }
    match Position::new(p[at], p[at + 1]) {
        Some(square) => {
            assert(p@.skip(at as int).skip(2) =~= p@.skip(at + 2));
            Some((square, at + 2))
        },
        None => None,
    }
}

/// Reads the optional kind of piece at `at`.
fn read_opt_kind(p: &[u8], at: usize) -> (r: Option<(Option<PieceKind>, usize)>)
    requires
        at <= p.len(),
    ensures
        agrees(r, take_opt_kind(p@.skip(at as int)), p@),
{
    if at >= p.len() {
        return None;
    }
    if p[at] == 0 {
        assert(p@.skip(at as int).skip(1) =~= p@.skip(at + 1));
        Some((None, at + 1))
    } else if p[at] == 1 && p.len() - at >= 2 {
        match kind_of(p[at + 1]) {
            Some(kind) => {
                assert(p@.skip(at as int).skip(2) =~= p@.skip(at + 2));
                Some((Some(kind), at + 2))
            },
            None => None,
        }
    } else {
        None
    }
}

/// Reads the optional number at `at`.
fn read_opt_u32(p: &[u8], at: usize) -> (r: Option<(Option<u32>, usize)>)
    requires
        at <= p.len(),
    ensures
        agrees(r, take_opt_u32(p@.skip(at as int)), p@),
{
    if at >= p.len() {
        return None;
    }
    if p[at] == 0 {
        assert(p@.skip(at as int).skip(1) =~= p@.skip(at + 1));
        Some((None, at + 1))
    } else if p[at] == 1 && p.len() - at >= 5 {
        let x = get_le32(p, at + 1);
        assert(p@.skip(at as int).skip(1) =~= p@.skip(at + 1));
        assert(p@.skip(at as int).skip(5) =~= p@.skip(at + 5));
        Some((Some(x), at + 5))
    } else {
        None
    }
}

/// Reads the text at `at`.
fn read_text(p: &[u8], at: usize) -> (r: Option<(String, usize)>)
    requires
        at <= p.len(),
    ensures
        match (r, take_text(p@.skip(at as int))) {
            (Some((v, next)), Some((w, rest))) => v@ == w && next <= p.len() && rest == p@.skip(
                next as int,
            ),
            (None, None) => true,
            _ => false,
        },
{
    if p.len() - at < 8 {
        return None;
    }
    let n = get_le64(p, at);
    if n > (p.len() - at - 8) as u64 {
        return None;
    }
    let from = at + 8;
    let to = from + n as usize;
    let body = slice_to_vec(slice_subrange(p, from, to));
    assert(body@ =~= p@.skip(at as int).subrange(8, 8 + n));
    assert(p@.skip(at as int).skip(8 + n) =~= p@.skip(to as int));
    match text_of_utf8(body) {
        Some(text) => {
            proof {
                encode_utf8_decode_utf8(text@);
            }
            Some((text, to))
        },
        None => None,
    }
}

/// Reads the optional text at `at`.
fn read_opt_text(p: &[u8], at: usize) -> (r: Option<(Option<String>, usize)>)
    requires
        at <= p.len(),
    ensures
        agrees_text(r, take_opt_text(p@.skip(at as int)), p@),
{
    if at >= p.len() {
        return None;
    }
    if p[at] == 0 {
        assert(p@.skip(at as int).skip(1) =~= p@.skip(at + 1));
        Some((None, at + 1))
    } else if p[at] == 1 {
        assert(p@.skip(at as int).skip(1) =~= p@.skip(at + 1));
        match read_text(p, at + 1) {
            Some((text, next)) => Some((Some(text), next)),
            None => None,
        }
    } else {
        None
    }
}

/// Reads a payload as a move: `None` unless the payload is, byte for
/// byte, the payload of a move on the board.
pub fn decode_move(p: &[u8]) -> (r: Option<Move>)
    ensures
        r == parse_move(p@),
{
    assert(p@.skip(0) =~= p@);
    let (from, at) = match read_square(p, 0) {
        Some(found) => found,
        None => {
            return None;
        },
    };
    let (to, at) = match read_square(p, at) {
        Some(found) => found,
        None => {
            return None;
        },
    };
    let (promotion, at) = match read_opt_kind(p, at) {
        Some(found) => found,
        None => {
            return None;
        },
    };
    let (forfeit, at) = match read_flag(p, at) {
        Some(found) => found,
        None => {
            return None;
        },
    };
    let (offer_draw, at) = match read_flag(p, at) {
        Some(found) => found,
        None => {
            return None;
        },
    };
    if at == p.len() {
        Some(Move { from, to, promotion, forfeit, offer_draw })
    } else {
        None
    }
}

/// Reads a payload as a handshake: `None` unless the payload is, byte
/// for byte, the payload of a handshake.
pub fn decode_start(p: &[u8]) -> (r: Option<Start>)
    ensures
        match parse_start(p@) {
            Some(s) => r is Some && r->0@ == s,
            None => r is None,
        },
{
    assert(p@.skip(0) =~= p@);
    let (is_white, at) = match read_flag(p, 0) {
        Some(found) => found,
        None => {
            return None;
        },
    };
    let (name, at) = match read_opt_text(p, at) {
        Some(found) => found,
        None => {
            return None;
        },
    };
    let (fen, at) = match read_opt_text(p, at) {
        Some(found) => found,
        None => {
            return None;
        },
    };
    let (time, at) = match read_opt_u32(p, at) {
        Some(found) => found,
        None => {
            return None;
        },
    };
    let (inc, at) = match read_opt_u32(p, at) {
        Some(found) => found,
        None => {
            return None;
        },
    };
    if at == p.len() {
        Some(Start { is_white, name, fen, time, inc })
    } else {
        None
    }
}

/// Reads the frame at the front of `bytes`.
///
/// Gives the message and the length of its frame when a whole frame is
/// there; `Incomplete` when `bytes` is empty or breaks off inside a frame
/// with a known tag; `Malformed` when the first byte is no tag, or the
/// payload is not, byte for byte, the payload of a message of the kind
/// the tag announces. A coordinate above 7 makes a payload malformed.
pub fn decode(bytes: &[u8]) -> (r: Decoded)
    ensures
        r@ == parse(bytes@),
{
    if bytes.len() == 0 {
        return Decoded::Incomplete;
    }
    let tag = bytes[0];
    if tag != TAG_START && tag != TAG_MOVE {
        return Decoded::Malformed;
    }
    if bytes.len() < HEADER_LEN {
        return Decoded::Incomplete;
    }
    let n = get_le32(bytes, 1);
    if bytes.len() - HEADER_LEN < n as usize {
        return Decoded::Incomplete;
    }
    let end = HEADER_LEN + n as usize;
    let payload = slice_subrange(bytes, HEADER_LEN, end);
    if tag == TAG_START {
        match decode_start(payload) {
            Some(start) => Decoded::Complete { message: Message::Start(start), consumed: end },
            None => Decoded::Malformed,
        }
    } else {
        match decode_move(payload) {
            Some(m) => Decoded::Complete { message: Message::Move(m), consumed: end },
            None => Decoded::Malformed,
        }
    }
}

} // verus!
