//! The accumulator: bytes as they come from the stream, in whatever
//! pieces, and the frames that they make up.

use crate::message::MessageView;
use crate::wire::codec::{decode, Decoded};
use crate::wire::endian::put_bytes;
use crate::wire::format::{encodable, encoding, on_board, parse, Parsed};
use crate::wire::roundtrip::{lemma_decode_encode, lemma_prefix_incomplete};
use vstd::prelude::*;

verus! {

/// The bytes that have come and belong to no message given out yet.
#[derive(Debug)]
pub struct Accumulator {
    bytes: Vec<u8>,
}

impl View for Accumulator {
    type V = Seq<u8>;

    closed spec fn view(&self) -> Seq<u8> {
        self.bytes@
    }
}

impl Accumulator {
    /// An accumulator that holds nothing.
    pub fn new() -> (r: Accumulator)
        ensures
            r@ == Seq::<u8>::empty(),
    {
        Accumulator { bytes: Vec::new() }
    }

    /// The number of bytes held.
    pub fn len(&self) -> (n: usize)
        ensures
            n == self@.len(),
    {
        self.bytes.len()
    }

    /// Takes in the bytes of one read, behind those already held.
    pub fn push(&mut self, chunk: &[u8])
        ensures
            final(self)@ == old(self)@ + chunk@,
    {
        put_bytes(&mut self.bytes, chunk);
    }

    /// Drops every byte held.
    pub fn clear(&mut self)
        ensures
            final(self)@ == Seq::<u8>::empty(),
    {
        self.bytes.clear();
    }

    /// Gives out the message at the front, if a whole frame is held, and
    /// drops the bytes of that frame and no others. Where the front is
    /// incomplete or malformed, nothing is dropped.
    pub fn take_frame(&mut self) -> (r: Decoded)
        ensures
            r@ == parse(old(self)@),
            final(self)@ == left_by(old(self)@),
    {
        let found = decode(self.bytes.as_slice());
        match &found {
            Decoded::Complete { message: _, consumed } => {
                let rest = self.bytes.split_off(*consumed);
                self.bytes = rest;
                assert(self.bytes@ =~= old(self)@.skip(*consumed as int));
            },
            _ => {},
        }
        found
    }
}

/// What is still held once the frame at the front, if a whole one is
/// there, has been given out.
pub open spec fn left_by(held: Seq<u8>) -> Seq<u8> {
    match parse(held) {
        Parsed::Complete { message, consumed } => held.skip(consumed as int),
        _ => held,
    }
}

/// The frames of the given messages, one behind the other.
pub open spec fn stream_of(messages: Seq<MessageView>) -> Seq<u8>
    decreases messages.len(),
{
    if messages.len() == 0 {
        Seq::empty()
    } else {
        encoding(messages[0]) + stream_of(messages.drop_first())
    }
}

/// What came of feeding an accumulator: the messages given out, in
/// order, and the bytes still held.
pub struct Delivery {
    pub messages: Seq<MessageView>,
    pub held: Seq<u8>,
}

/// Feeds `input` one byte at a time to an accumulator that holds `held`,
/// and asks for a frame after every byte.
pub open spec fn trickle(held: Seq<u8>, input: Seq<u8>) -> Delivery
    decreases input.len(),
{
    if input.len() == 0 {
        Delivery { messages: Seq::empty(), held }
    } else {
        let now = held.push(input[0]);
        let later = trickle(left_by(now), input.drop_first());
        match parse(now) {
            Parsed::Complete { message, consumed } => Delivery {
                messages: seq![message] + later.messages,
                held: later.held,
            },
            _ => later,
        }
    }
}

/// An accumulator that holds the first `k` bytes of a frame and is fed
/// the others byte by byte gives out the frame's message once, with the
/// last byte, and goes on with what follows as if from empty.
proof fn lemma_trickle_frame(m: MessageView, k: int, rest: Seq<u8>)
    requires
        on_board(m),
        encodable(m),
        0 <= k < encoding(m).len(),
    ensures
        trickle(encoding(m).take(k), encoding(m).skip(k) + rest) == (Delivery {
            messages: seq![m] + trickle(Seq::empty(), rest).messages,
            held: trickle(Seq::empty(), rest).held,
        }),
    decreases encoding(m).len() - k,
{
    let f = encoding(m);
    let input = f.skip(k) + rest;
    let now = f.take(k).push(input[0]);
    assert(now =~= f.take(k + 1));
    assert(input.drop_first() =~= f.skip(k + 1) + rest);
    if k + 1 < f.len() {
        lemma_prefix_incomplete(m, k + 1);
        lemma_trickle_frame(m, k + 1, rest);
    } else {
        lemma_decode_encode(m, Seq::empty());
        assert(f + Seq::<u8>::empty() =~= f);
        assert(now =~= f);
        assert(f.skip(f.len() as int) =~= Seq::<u8>::empty());
        assert(f.skip(k + 1) + rest =~= rest);
    }
}

/// Delivery byte by byte loses nothing and repeats nothing: an empty
/// accumulator that is fed the frames of any messages, one byte at a
/// time, gives out exactly those messages, each once and in order, and
/// holds nothing at the end. This holds of frames of every length.
pub proof fn lemma_bytewise_delivery(messages: Seq<MessageView>)
    requires
        forall|i: int|
            0 <= i < messages.len() ==> on_board(#[trigger] messages[i]) && encodable(messages[i]),
    ensures
        trickle(Seq::empty(), stream_of(messages)) == (Delivery {
            messages,
            held: Seq::empty(),
        }),
    decreases messages.len(),
{
    if messages.len() == 0 {
        assert(messages =~= Seq::<MessageView>::empty());
    } else {
        let m = messages[0];
        let rest = messages.drop_first();
        assert(on_board(m) && encodable(m));
        assert forall|i: int| 0 <= i < rest.len() implies on_board(#[trigger] rest[i])
            && encodable(rest[i]) by {
            assert(rest[i] == messages[i + 1]);
        }
        lemma_bytewise_delivery(rest);
        let f = encoding(m);
        assert(f.len() >= 5) by {
            lemma_decode_encode(m, Seq::empty());
        }
        lemma_trickle_frame(m, 0, stream_of(rest));
        assert(f.take(0) =~= Seq::<u8>::empty());
        assert(f.skip(0) =~= f);
        assert(stream_of(messages) == f + stream_of(rest));
        assert(seq![m] + rest =~= messages);
    }
}

/// Every message at the front of `held`, one frame after the other
/// until the front is no whole frame, and what is left then.
pub open spec fn drain(held: Seq<u8>) -> Delivery
    decreases held.len(),
{
    match parse(held) {
        Parsed::Complete { message, consumed } => if 0 < consumed <= held.len() {
            let later = drain(held.skip(consumed as int));
            Delivery { messages: seq![message] + later.messages, held: later.held }
        } else {
            Delivery { messages: Seq::empty(), held }
        },
        _ => Delivery { messages: Seq::empty(), held },
    }
}

/// The given pieces, one behind the other.
pub open spec fn joined(pieces: Seq<Seq<u8>>) -> Seq<u8>
    decreases pieces.len(),
{
    if pieces.len() == 0 {
        Seq::empty()
    } else {
        pieces[0] + joined(pieces.drop_first())
    }
}

/// Feeds the pieces one at a time to an accumulator that holds `held`,
/// and takes after each piece every frame that is whole.
pub open spec fn feed(held: Seq<u8>, pieces: Seq<Seq<u8>>) -> Delivery
    decreases pieces.len(),
{
    if pieces.len() == 0 {
        Delivery { messages: Seq::empty(), held }
    } else {
        let now = drain(held + pieces[0]);
        let later = feed(now.held, pieces.drop_first());
        Delivery { messages: now.messages + later.messages, held: later.held }
    }
}

/// A whole frame reads the same whatever follows it.
pub proof fn lemma_parse_ignores_what_follows(a: Seq<u8>, b: Seq<u8>)
    requires
        parse(a) is Complete,
    ensures
        5 <= parse(a)->consumed <= a.len(),
        parse(a + b) == parse(a),
        (a + b).skip(parse(a)->consumed as int) == a.skip(parse(a)->consumed as int) + b,
{
    let n = parse(a)->consumed as int;
    assert((a + b).skip(1).take(4) =~= a.skip(1).take(4));
    assert((a + b).subrange(5, n) =~= a.subrange(5, n));
    assert((a + b).skip(n) =~= a.skip(n) + b);
}

/// To take the frames that are whole and then, with more bytes behind
/// what was left, those that are whole then, is to take the frames of
/// all the bytes at once.
pub proof fn lemma_drain_in_two(a: Seq<u8>, b: Seq<u8>)
    ensures
        drain(a + b) == (Delivery {
            messages: drain(a).messages + drain(drain(a).held + b).messages,
            held: drain(drain(a).held + b).held,
        }),
    decreases a.len(),
{
    match parse(a) {
        Parsed::Complete { message, consumed } => {
            lemma_parse_ignores_what_follows(a, b);
            let rest = a.skip(consumed as int);
            lemma_drain_in_two(rest, b);
            assert(seq![message] + (drain(rest).messages + drain(drain(rest).held + b).messages)
                =~= (seq![message] + drain(rest).messages) + drain(drain(rest).held + b).messages);
        },
        _ => {
            assert(Seq::<MessageView>::empty() + drain(a + b).messages =~= drain(a + b).messages);
        },
    }
}

/// However a stream is cut into pieces, an accumulator that holds no
/// whole frame gives out what it would give out if the stream came in
/// one piece.
pub proof fn lemma_pieces_do_not_matter(held: Seq<u8>, pieces: Seq<Seq<u8>>)
    requires
        drain(held) == (Delivery { messages: Seq::empty(), held }),
    ensures
        feed(held, pieces) == drain(held + joined(pieces)),
    decreases pieces.len(),
{
    if pieces.len() == 0 {
        assert(held + joined(pieces) =~= held);
    } else {
        let first = pieces[0];
        let others = pieces.drop_first();
        let now = drain(held + first);
        lemma_drain_settles(held + first);
        lemma_pieces_do_not_matter(now.held, others);
        lemma_drain_in_two(held + first, joined(others));
        assert((held + first) + joined(others) =~= held + joined(pieces));
    }
}

/// What is left when every whole frame has been taken has no whole
/// frame at its front.
pub proof fn lemma_drain_settles(held: Seq<u8>)
    ensures
        drain(drain(held).held) == (Delivery { messages: Seq::empty(), held: drain(held).held }),
        held.len() == 0 ==> drain(held) == (Delivery { messages: Seq::empty(), held }),
    decreases held.len(),
{
    match parse(held) {
        Parsed::Complete { message, consumed } => {
            if 0 < consumed <= held.len() {
                lemma_drain_settles(held.skip(consumed as int));
            }
        },
        _ => {},
    }
}

/// The frames of any messages, one behind the other, give out exactly
/// those messages, each once and in order, and leave nothing.
pub proof fn lemma_drain_stream(messages: Seq<MessageView>)
    requires
        forall|i: int|
            0 <= i < messages.len() ==> on_board(#[trigger] messages[i]) && encodable(messages[i]),
    ensures
        drain(stream_of(messages)) == (Delivery { messages, held: Seq::empty() }),
    decreases messages.len(),
{
    if messages.len() == 0 {
        assert(messages =~= Seq::<MessageView>::empty());
    } else {
        let m = messages[0];
        let rest = messages.drop_first();
        assert(on_board(m) && encodable(m));
        assert forall|i: int| 0 <= i < rest.len() implies on_board(#[trigger] rest[i])
            && encodable(rest[i]) by {
            assert(rest[i] == messages[i + 1]);
        }
        lemma_drain_stream(rest);
        lemma_decode_encode(m, stream_of(rest));
        let all = encoding(m) + stream_of(rest);
        assert(all.skip(encoding(m).len() as int) =~= stream_of(rest));
        assert(seq![m] + rest =~= messages);
    }
}

/// Delivery in pieces loses nothing and repeats nothing: an empty
/// accumulator that is fed the frames of any messages, cut into pieces
/// in any way at all, gives out exactly those messages, each once and in
/// order, and holds nothing at the end.
pub proof fn lemma_piecewise_delivery(messages: Seq<MessageView>, pieces: Seq<Seq<u8>>)
    requires
        forall|i: int|
            0 <= i < messages.len() ==> on_board(#[trigger] messages[i]) && encodable(messages[i]),
        joined(pieces) == stream_of(messages),
    ensures
        feed(Seq::empty(), pieces) == (Delivery { messages, held: Seq::empty() }),
{
    lemma_drain_settles(Seq::empty());
    lemma_pieces_do_not_matter(Seq::empty(), pieces);
    lemma_drain_stream(messages);
    assert(Seq::<u8>::empty() + joined(pieces) =~= joined(pieces));
}

} // verus!
