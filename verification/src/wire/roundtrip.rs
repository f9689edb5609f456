//! Reading and writing are inverse to each other, field by field and
//! frame by frame.

use crate::message::{MessageView, Move, PieceKind, Position, StartView};
use crate::wire::endian::{
    le32, le32_value, le64, le64_value, lemma_le32_bytes, lemma_le32_value, lemma_le64_bytes,
    lemma_le64_value,
};
use crate::wire::format::{
    encodable, encoding, flag_bytes, frame, kind_code, kind_of_code, move_payload, on_board,
    opt_kind_bytes, opt_text_bytes, opt_u32_bytes, parse, parse_move, parse_payload, parse_start, payload_of,
    square_bytes, start_payload, take_flag, take_opt_kind, take_opt_text, take_opt_u32,
    tag_of, take_square, take_text, text_bytes, Parsed, TAG_MOVE,
};
use vstd::prelude::*;
use vstd::utf8::{
    decode_utf8_encode_utf8, encode_utf8, encode_utf8_decode_utf8, encode_utf8_valid_utf8,
};

verus! {

/// A kind's code stands for that kind, and a code that stands for a
/// kind is that kind's code.
pub proof fn lemma_kind_code(k: PieceKind, c: u8)
    ensures
        kind_of_code(kind_code(k)) == Some(k),
        kind_of_code(c) == Some(k) ==> kind_code(k) == c,
{
}

/// A boolean that was written is read back, whatever follows it.
proof fn lemma_flag_read(b: bool, rest: Seq<u8>)
    ensures
        take_flag(flag_bytes(b) + rest) == Some((b, rest)),
{
    assert((flag_bytes(b) + rest).skip(1) =~= rest);
}

/// What reads as a boolean begins with that boolean as written.
proof fn lemma_flag_written(s: Seq<u8>, b: bool, rest: Seq<u8>)
    requires
        take_flag(s) == Some((b, rest)),
    ensures
        s == flag_bytes(b) + rest,
{
    assert(s =~= flag_bytes(b) + rest);
}

/// A square on the board that was written is read back.
proof fn lemma_square_read(p: Position, rest: Seq<u8>)
    requires
        p.on_board(),
    ensures
        take_square(square_bytes(p) + rest) == Some((p, rest)),
{
    assert((square_bytes(p) + rest).skip(2) =~= rest);
}

/// What reads as a square begins with that square as written, and the
/// square lies on the board.
proof fn lemma_square_written(s: Seq<u8>, p: Position, rest: Seq<u8>)
    requires
        take_square(s) == Some((p, rest)),
    ensures
        p.on_board(),
        s == square_bytes(p) + rest,
{
    assert(s =~= square_bytes(p) + rest);
}

/// An optional kind of piece that was written is read back.
proof fn lemma_opt_kind_read(k: Option<PieceKind>, rest: Seq<u8>)
    ensures
        take_opt_kind(opt_kind_bytes(k) + rest) == Some((k, rest)),
{
    let s = opt_kind_bytes(k) + rest;
    match k {
        None => {
            assert(s.skip(1) =~= rest);
        },
        Some(kind) => {
            lemma_kind_code(kind, 0);
            assert(s.skip(2) =~= rest);
        },
    }
}

/// What reads as an optional kind of piece begins with it as written.
proof fn lemma_opt_kind_written(s: Seq<u8>, k: Option<PieceKind>, rest: Seq<u8>)
    requires
        take_opt_kind(s) == Some((k, rest)),
    ensures
        s == opt_kind_bytes(k) + rest,
{
    if s[0] == 1 {
        lemma_kind_code(k->0, s[1]);
    }
    assert(s =~= opt_kind_bytes(k) + rest);
}

/// An optional number that was written is read back.
proof fn lemma_opt_u32_read(v: Option<u32>, rest: Seq<u8>)
    ensures
        take_opt_u32(opt_u32_bytes(v) + rest) == Some((v, rest)),
{
    let s = opt_u32_bytes(v) + rest;
    match v {
        None => {
            assert(s.skip(1) =~= rest);
        },
        Some(x) => {
            lemma_le32_value(x, rest);
            assert(s.skip(1) =~= le32(x) + rest);
            assert(s.skip(5) =~= rest);
        },
    }
}

/// What reads as an optional number begins with it as written.
proof fn lemma_opt_u32_written(s: Seq<u8>, v: Option<u32>, rest: Seq<u8>)
    requires
        take_opt_u32(s) == Some((v, rest)),
    ensures
        s == opt_u32_bytes(v) + rest,
{
    if s[0] == 1 {
        lemma_le32_bytes(s.skip(1));
        assert(s.skip(1).take(4) =~= s.subrange(1, 5));
    }
    assert(s =~= opt_u32_bytes(v) + rest);
}

/// A text that was written is read back.
proof fn lemma_text_read(t: Seq<char>, rest: Seq<u8>)
    requires
        encode_utf8(t).len() <= u64::MAX,
    ensures
        take_text(text_bytes(t) + rest) == Some((t, rest)),
{
    let body = encode_utf8(t);
    let n = body.len() as u64;
    let s = text_bytes(t) + rest;
    lemma_le64_value(n, body + rest);
    assert(s =~= le64(n) + (body + rest));
    assert(s.subrange(8, 8 + n) =~= body);
    assert(s.skip(8 + n) =~= rest);
    encode_utf8_valid_utf8(t);
    encode_utf8_decode_utf8(t);
}

/// What reads as a text begins with that text as written.
proof fn lemma_text_written(s: Seq<u8>, t: Seq<char>, rest: Seq<u8>)
    requires
        take_text(s) == Some((t, rest)),
    ensures
        encode_utf8(t).len() <= u64::MAX,
        s == text_bytes(t) + rest,
{
    let n = le64_value(s);
    let body = s.subrange(8, 8 + n);
    decode_utf8_encode_utf8(body);
    lemma_le64_bytes(s);
    assert(s =~= s.take(8) + body + s.skip(8 + n));
}

/// An optional text that was written is read back.
proof fn lemma_opt_text_read(t: Option<Seq<char>>, rest: Seq<u8>)
    requires
        t is Some ==> encode_utf8(t->0).len() <= u64::MAX,
    ensures
        take_opt_text(opt_text_bytes(t) + rest) == Some((t, rest)),
{
    let s = opt_text_bytes(t) + rest;
    match t {
        None => {
            assert(s.skip(1) =~= rest);
        },
        Some(text) => {
            lemma_text_read(text, rest);
            assert(s.skip(1) =~= text_bytes(text) + rest);
        },
    }
}

/// What reads as an optional text begins with it as written.
proof fn lemma_opt_text_written(s: Seq<u8>, t: Option<Seq<char>>, rest: Seq<u8>)
    requires
        take_opt_text(s) == Some((t, rest)),
    ensures
        t is Some ==> encode_utf8(t->0).len() <= u64::MAX,
        s == opt_text_bytes(t) + rest,
{
    if s[0] == 1 {
        lemma_text_written(s.skip(1), t->0, rest);
        assert(s =~= seq![1u8] + s.skip(1));
        assert(s =~= seq![1u8] + text_bytes(t->0) + rest);
    } else {
        assert(s =~= opt_text_bytes(t) + rest);
    }
}

/// Five runs joined from the right are the five runs joined from the left.
proof fn lemma_join5(a: Seq<u8>, b: Seq<u8>, c: Seq<u8>, d: Seq<u8>, e: Seq<u8>)
    ensures
        a + (b + (c + (d + (e + Seq::<u8>::empty())))) == a + b + c + d + e,
{
    assert(a + (b + (c + (d + (e + Seq::<u8>::empty())))) =~= a + b + c + d + e);
}

/// The payload of a move on the board reads as that move.
pub proof fn lemma_move_read(m: Move)
    requires
        m.on_board(),
    ensures
        parse_move(move_payload(m)) == Some(m),
        7 <= move_payload(m).len() <= 8,
{
    let e = Seq::<u8>::empty();
    let r4 = flag_bytes(m.offer_draw) + e;
    let r3 = flag_bytes(m.forfeit) + r4;
    let r2 = opt_kind_bytes(m.promotion) + r3;
    let r1 = square_bytes(m.to) + r2;
    lemma_join5(
        square_bytes(m.from),
        square_bytes(m.to),
        opt_kind_bytes(m.promotion),
        flag_bytes(m.forfeit),
        flag_bytes(m.offer_draw),
    );
    lemma_square_read(m.from, r1);
    lemma_square_read(m.to, r2);
    lemma_opt_kind_read(m.promotion, r3);
    lemma_flag_read(m.forfeit, r4);
    lemma_flag_read(m.offer_draw, e);
}

/// A payload that reads as a move is the payload of that move, and the
/// move lies on the board.
pub proof fn lemma_move_written(p: Seq<u8>)
    requires
        parse_move(p) is Some,
    ensures
        parse_move(p)->0.on_board(),
        p == move_payload(parse_move(p)->0),
{
    let (from, left1) = take_square(p)->0;
    let (to, left2) = take_square(left1)->0;
    let (promotion, left3) = take_opt_kind(left2)->0;
    let (forfeit, left4) = take_flag(left3)->0;
    let (offer_draw, left5) = take_flag(left4)->0;
    lemma_square_written(p, from, left1);
    lemma_square_written(left1, to, left2);
    lemma_opt_kind_written(left2, promotion, left3);
    lemma_flag_written(left3, forfeit, left4);
    lemma_flag_written(left4, offer_draw, left5);
    assert(left5 =~= Seq::<u8>::empty());
    lemma_join5(
        square_bytes(from),
        square_bytes(to),
        opt_kind_bytes(promotion),
        flag_bytes(forfeit),
        flag_bytes(offer_draw),
    );
}

/// The texts of the handshake have a length that eight bytes can hold.
pub open spec fn texts_fit(s: StartView) -> bool {
    &&& s.name is Some ==> encode_utf8(s.name->0).len() <= u64::MAX
    &&& s.fen is Some ==> encode_utf8(s.fen->0).len() <= u64::MAX
}

/// The payload of a handshake reads as that handshake.
pub proof fn lemma_start_read(s: StartView)
    requires
        texts_fit(s),
    ensures
        parse_start(start_payload(s)) == Some(s),
{
    let e = Seq::<u8>::empty();
    let r4 = opt_u32_bytes(s.inc) + e;
    let r3 = opt_u32_bytes(s.time) + r4;
    let r2 = opt_text_bytes(s.fen) + r3;
    let r1 = opt_text_bytes(s.name) + r2;
    lemma_join5(
        flag_bytes(s.is_white),
        opt_text_bytes(s.name),
        opt_text_bytes(s.fen),
        opt_u32_bytes(s.time),
        opt_u32_bytes(s.inc),
    );
    lemma_flag_read(s.is_white, r1);
    lemma_opt_text_read(s.name, r2);
    lemma_opt_text_read(s.fen, r3);
    lemma_opt_u32_read(s.time, r4);
    lemma_opt_u32_read(s.inc, e);
}

/// A payload that reads as a handshake is the payload of that handshake.
pub proof fn lemma_start_written(p: Seq<u8>)
    requires
        parse_start(p) is Some,
    ensures
        texts_fit(parse_start(p)->0),
        p == start_payload(parse_start(p)->0),
{
    let (is_white, left1) = take_flag(p)->0;
    let (name, left2) = take_opt_text(left1)->0;
    let (fen, left3) = take_opt_text(left2)->0;
    let (time, left4) = take_opt_u32(left3)->0;
    let (inc, left5) = take_opt_u32(left4)->0;
    lemma_flag_written(p, is_white, left1);
    lemma_opt_text_written(left1, name, left2);
    lemma_opt_text_written(left2, fen, left3);
    lemma_opt_u32_written(left3, time, left4);
    lemma_opt_u32_written(left4, inc, left5);
    assert(left5 =~= Seq::<u8>::empty());
    lemma_join5(
        flag_bytes(is_white),
        opt_text_bytes(name),
        opt_text_bytes(fen),
        opt_u32_bytes(time),
        opt_u32_bytes(inc),
    );
}

/// Decoding inverts encoding: the frame of a message, followed by any
/// bytes at all, reads as that message and takes the frame's length.
/// This holds of every message whose squares lie on the board and whose
/// payload has a length that the header can hold.
pub proof fn lemma_decode_encode(m: MessageView, tail: Seq<u8>)
    requires
        on_board(m),
        encodable(m),
    ensures
        parse(encoding(m) + tail) == (Parsed::Complete {
            message: m,
            consumed: encoding(m).len(),
        }),
        encoding(m).len() == 5 + payload_of(m).len(),
{
    let p = payload_of(m);
    let s = encoding(m) + tail;
    lemma_le32_value(p.len() as u32, p + tail);
    assert(s.skip(1) =~= le32(p.len() as u32) + (p + tail));
    assert(s.subrange(5, 5 + p.len() as int) =~= p);
    match m {
        MessageView::Start(st) => {
            lemma_start_fits(st);
            lemma_start_read(st);
        },
        MessageView::Move(mv) => {
            lemma_move_read(mv);
        },
    }
}

/// A handshake whose payload the header can hold has texts whose
/// lengths eight bytes can hold.
pub proof fn lemma_start_fits(s: StartView)
    requires
        start_payload(s).len() <= u32::MAX,
    ensures
        texts_fit(s),
{
}

/// Encoding inverts decoding: where a run of bytes reads as a message,
/// its front is exactly the frame of that message, the squares of the
/// message lie on the board and its payload fits the header.
pub proof fn lemma_encode_decode(s: Seq<u8>)
    requires
        parse(s) is Complete,
    ensures
        parse(s)->consumed <= s.len(),
        s.take(parse(s)->consumed as int) == encoding(parse(s)->message),
        on_board(parse(s)->message),
        encodable(parse(s)->message),
{
    let n = le32_value(s.skip(1));
    let p = s.subrange(5, 5 + n);
    let m = parse(s)->message;
    assert(parse_payload(s[0], p) == Some(m));
    assert(p == payload_of(m) && s[0] == tag_of(m)) by {
        match m {
            MessageView::Start(st) => {
                lemma_start_written(p);
            },
            MessageView::Move(mv) => {
                lemma_move_written(p);
            },
        }
    }
    lemma_header_written(s, n);
}

/// A run of bytes begins with its first byte, the four bytes of the
/// number read behind it and what follows them.
proof fn lemma_header_written(s: Seq<u8>, n: u32)
    requires
        s.len() >= 5,
        n == le32_value(s.skip(1)),
        n <= s.len() - 5,
    ensures
        s.take(5 + n) == frame(s[0], s.subrange(5, 5 + n)),
{
    lemma_le32_bytes(s.skip(1));
    assert(s.skip(1).take(4) =~= s.subrange(1, 5));
    assert(s.take(5 + n) =~= seq![s[0]] + s.subrange(1, 5) + s.subrange(5, 5 + n));
}

/// Reading is the inverse of writing, and nothing else: a run of bytes
/// reads as the message `m` in `n` bytes if and only if its first `n`
/// bytes are the frame of `m`, the squares of `m` lie on the board and
/// the payload of `m` fits the header.
pub proof fn lemma_parse_inverts_encoding(s: Seq<u8>, m: MessageView, n: nat)
    ensures
        parse(s) == (Parsed::Complete { message: m, consumed: n }) <==> {
            &&& on_board(m)
            &&& encodable(m)
            &&& n == encoding(m).len()
            &&& n <= s.len()
            &&& s.take(n as int) == encoding(m)
        },
{
    let read = Parsed::Complete { message: m, consumed: n };
    let written = on_board(m) && encodable(m) && n == encoding(m).len() && n <= s.len() && s.take(
        n as int,
    ) == encoding(m);
    assert(parse(s) == read ==> written) by {
        if parse(s) == read {
            lemma_encode_decode(s);
        }
    }
    assert(written ==> parse(s) == read) by {
        if written {
            lemma_front_is_read(s, m);
        }
    }
}

/// A run of bytes that begins with the frame of a message reads as that
/// message.
proof fn lemma_front_is_read(s: Seq<u8>, m: MessageView)
    requires
        on_board(m),
        encodable(m),
        encoding(m).len() <= s.len(),
        s.take(encoding(m).len() as int) == encoding(m),
    ensures
        parse(s) == (Parsed::Complete { message: m, consumed: encoding(m).len() }),
{
    let n = encoding(m).len() as int;
    lemma_front_and_rest(s, n);
    lemma_decode_encode(m, s.skip(n));
}

/// A run of bytes is its front and what follows it.
proof fn lemma_front_and_rest(s: Seq<u8>, n: int)
    requires
        0 <= n <= s.len(),
    ensures
        s == s.take(n) + s.skip(n),
{
    assert(s =~= s.take(n) + s.skip(n));
}

/// Every proper beginning of a frame reads as incomplete: no message is
/// given out before the last byte of its frame has come.
pub proof fn lemma_prefix_incomplete(m: MessageView, k: int)
    requires
        encodable(m),
        0 <= k < encoding(m).len(),
    ensures
        parse(encoding(m).take(k)) is Incomplete,
{
    let p = payload_of(m);
    let s = encoding(m).take(k);
    if k >= 5 {
        lemma_le32_value(p.len() as u32, p.take(k - 5));
        assert(s.skip(1) =~= le32(p.len() as u32) + p.take(k - 5));
    }
}

/// A square off the board is refused when the frame is read: a whole
/// frame of a move in which a coordinate is above 7 is malformed.
pub proof fn lemma_off_board_is_malformed(s: Seq<u8>)
    requires
        s.len() >= 9,
        s[0] == TAG_MOVE,
        le32_value(s.skip(1)) <= s.len() - 5,
        s[5] > 7 || s[6] > 7 || s[7] > 7 || s[8] > 7,
    ensures
        parse(s) is Malformed,
{
    let n = le32_value(s.skip(1));
    let p = s.subrange(5, 5 + n);
    if n >= 4 {
        assert(p[0] == s[5] && p[1] == s[6]);
        if take_square(p) is Some {
            let (from, left1) = take_square(p)->0;
            assert(left1[0] == s[7] && left1[1] == s[8]);
        }
    } else {
        if take_square(p) is Some {
            let (from, left1) = take_square(p)->0;
            assert(left1.len() < 2);
        }
    }
}

} // verus!
