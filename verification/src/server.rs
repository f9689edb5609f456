//! The rendezvous server: two players, a handshake with each, and the
//! relay of their moves in turn.
//!
//! The server decides; it neither listens nor reads nor writes, and it
//! does not know the rules of chess. Whoever runs it tells it of each
//! connection and of each read, writes the frames it hands out, and
//! answers its one question: whether a move is legal on the board.

use crate::arbiter::{Outcome, TurnArbiter};
use crate::message::{Color, Message, MessageView, Move, Start, StartView};
use crate::session::{
    Fault, Link, ReadOutcome, Reading, Received, Reception, Role, Session, SessionState,
};
use crate::wire::codec::encode_move;
use crate::wire::format::{encodable, encoding, parse, start_payload, Parsed};
use crate::wire::roundtrip::{lemma_decode_encode, lemma_move_read};
use vstd::prelude::*;
use vstd::utf8::{is_ascii_chars, is_ascii_chars_encode_utf8};

verus! {

/// Why a move was dropped. Nothing has changed, and the same player is
/// asked again.
#[derive(Clone, Copy, Debug, PartialEq, Eq, Structural)]
pub enum Discard {
    /// It came from the side that is not to move.
    WrongTurn,
    /// The rules engine found it illegal.
    IllegalMove,
}

/// A frame for the player who is still there when the other is gone.
#[derive(Clone, Debug, PartialEq, Eq)]
pub struct Notice {
    pub to: Color,
    pub frame: Vec<u8>,
}

/// What the one who runs the server has to do next.
#[derive(Clone, Debug, PartialEq, Eq)]
pub enum Effect {
    /// Nothing.
    Idle,
    /// Both players have announced themselves: write to each the frame
    /// that assigns its side. The game begins.
    Begin { to_white: Vec<u8>, to_black: Vec<u8> },
    /// Ask the rules engine to apply the move to the board, and tell the
    /// server with `resolve` whether it was legal.
    Judge { mover: Color, mv: Move },
    /// Write the frame to both players. Where `last` is set the game is
    /// over and both sessions are closed.
    Relay { frame: Vec<u8>, last: bool },
    /// A move was dropped.
    Discarded(Discard),
    /// The game is over and both sessions are closed. Where a notice is
    /// given, write it to the player it names. The fault is the one that
    /// ended the game just now, if a fault did.
    Ended { notice: Option<Notice>, fault: Option<Fault> },
}

/// A notice, with its frame as a sequence.
pub struct NoticeView {
    pub to: Color,
    pub frame: Seq<u8>,
}

/// An effect, with its frames as sequences.
pub enum EffectView {
    Idle,
    Begin { to_white: Seq<u8>, to_black: Seq<u8> },
    Judge { mover: Color, mv: Move },
    Relay { frame: Seq<u8>, last: bool },
    Discarded(Discard),
    Ended { notice: Option<NoticeView>, fault: Option<Fault> },
}

impl View for Effect {
    type V = EffectView;

    open spec fn view(&self) -> EffectView {
        match self {
            Effect::Idle => EffectView::Idle,
            Effect::Begin { to_white, to_black } => EffectView::Begin {
                to_white: to_white@,
                to_black: to_black@,
            },
            Effect::Judge { mover, mv } => EffectView::Judge { mover: *mover, mv: *mv },
            Effect::Relay { frame, last } => EffectView::Relay { frame: frame@, last: *last },
            Effect::Discarded(why) => EffectView::Discarded(*why),
            Effect::Ended { notice, fault } => EffectView::Ended {
                notice: match notice {
                    Some(n) => Some(NoticeView { to: n.to, frame: n.frame@ }),
                    None => None,
                },
                fault: *fault,
            },
        }
    }
}

/// What the server waits for.
#[derive(Clone, Copy, Debug, PartialEq, Eq, Structural)]
pub enum Expect {
    /// A player to connect.
    Connection,
    /// Bytes from the given player.
    Bytes(Color),
    /// The answer of the rules engine.
    Ruling,
    /// Nothing: the game is over.
    Nothing,
}

/// The name that the server gives to a player.
pub open spec fn player_name(c: Color) -> Seq<char> {
    match c {
        Color::White => "Player 1"@,
        Color::Black => "Player 2"@,
    }
}

/// The `Start` by which the server assigns a side: the standard start,
/// without a clock.
pub open spec fn assignment(c: Color) -> StartView {
    StartView {
        is_white: c == Color::White,
        name: Some(player_name(c)),
        fen: None,
        time: None,
        inc: None,
    }
}

/// The frame of the forfeit that stands for a player who is gone.
pub open spec fn resignation_frame() -> Seq<u8> {
    encoding(MessageView::Move(Move::resignation()))
}

/// What a server is, as plain values.
pub struct Table {
    pub white: Link,
    pub black: Link,
    pub arbiter: TurnArbiter,
    /// The move that the rules engine has been asked about.
    pub pending: Option<Move>,
}

impl Table {
    /// A server to which nobody has connected.
    pub open spec fn fresh() -> Table {
        Table {
            white: Link::fresh(Role::Server),
            black: Link::fresh(Role::Server),
            arbiter: TurnArbiter::fresh(),
            pending: None,
        }
    }

    /// The session of a side.
    pub open spec fn seat(self, c: Color) -> Link {
        match c {
            Color::White => self.white,
            Color::Black => self.black,
        }
    }

    /// The server with the session of one side replaced.
    pub open spec fn with_seat(self, c: Color, l: Link) -> Table {
        match c {
            Color::White => Table { white: l, ..self },
            Color::Black => Table { black: l, ..self },
        }
    }

    /// The game is over.
    pub open spec fn over(self) -> bool {
        self.arbiter.outcome() is Some
    }

    /// The sides have been assigned.
    pub open spec fn begun(self) -> bool {
        self.white.color is Some
    }

    /// What holds of every server: both sessions are the server's end;
    /// the sides are assigned to both players at once, White to the
    /// first and Black to the second, and only when both have announced
    /// themselves; while the game is on no session is closed, and once
    /// it is over none is open; a session that has announced itself was
    /// open; and a move waits for the rules engine only in a game that
    /// has begun and is on, is no signal and lies on the board.
    pub open spec fn wf(self) -> bool {
        &&& self.white.role is Server
        &&& self.black.role is Server
        &&& self.white.color is Some <==> self.black.color is Some
        &&& self.begun() ==> {
            &&& self.white.color == Some(Color::White)
            &&& self.black.color == Some(Color::Black)
            &&& self.white.greeted
            &&& self.black.greeted
        }
        &&& self.over() ==> !(self.white.stage is Open) && !(self.black.stage is Open)
        &&& !self.over() ==> !(self.white.stage is Closed) && !(self.black.stage is Closed)
        &&& self.white.greeted ==> !(self.white.stage is Connecting)
        &&& self.black.greeted ==> !(self.black.stage is Connecting)
        &&& self.pending is Some ==> {
            &&& self.begun()
            &&& !self.over()
            &&& !self.pending->0.is_signal()
            &&& self.pending->0.on_board()
        }
    }

    /// The side that the next player to connect gets: White the first,
    /// Black the second, and nobody after that or after the end.
    pub open spec fn accept_says(self) -> Option<Color> {
        if self.over() {
            None
        } else if self.white.stage is Connecting {
            Some(Color::White)
        } else if self.black.stage is Connecting {
            Some(Color::Black)
        } else {
            None
        }
    }

    /// The server once the next player has connected.
    pub open spec fn accepted(self) -> Table {
        match self.accept_says() {
            Some(c) => self.with_seat(c, self.seat(c).opened()),
            None => self,
        }
    }

    /// The server once `from` is gone: the game is over, no move waits
    /// and both sessions are closed. A game that was over stays as it
    /// was.
    pub open spec fn lost(self, from: Color) -> Table {
        if self.over() {
            self
        } else {
            Table {
                white: self.white.shut(),
                black: self.black.shut(),
                arbiter: self.arbiter.after_loss_of(from),
                pending: None,
            }
        }
    }

    /// What is to do once `from` is gone through `fault`, or through the
    /// end of its stream: the other player, if its handshake was
    /// complete, is sent a forfeit in place of the one who is gone. In a
    /// game that was over nothing is to do.
    pub open spec fn lost_says(self, from: Color, fault: Option<Fault>) -> EffectView {
        if self.over() {
            EffectView::Ended { notice: None, fault: None }
        } else if self.seat(from.other()).state() is Active {
            EffectView::Ended {
                notice: Some(NoticeView { to: from.other(), frame: resignation_frame() }),
                fault,
            }
        } else {
            EffectView::Ended { notice: None, fault }
        }
    }

    /// A move from `from` has come out of its session: whether the
    /// server takes it for the move of the side to move.
    pub open spec fn in_turn(self, from: Color) -> bool {
        !self.over() && self.arbiter.turn() == from
    }

    /// The server once the session of `from` has said `rec`.
    ///
    /// A `Start` from the second of the two to announce itself assigns
    /// the sides. A move out of turn changes nothing. A signal in turn
    /// ends the game and closes both sessions. Any other move in turn
    /// waits for the rules engine, unless one waits already: a second
    /// move from the side to move is a breach, and that side is gone.
    /// The end of the stream and a fault mean that `from` is gone.
    pub open spec fn reacted(self, from: Color, rec: Reception) -> Table {
        match rec {
            Reception::Message(MessageView::Start(_)) => if self.seat(from.other()).greeted {
                Table {
                    white: self.white.sent(MessageView::Start(assignment(Color::White))),
                    black: self.black.sent(MessageView::Start(assignment(Color::Black))),
                    ..self
                }
            } else {
                self
            },
            Reception::Message(MessageView::Move(mv)) => if !self.in_turn(from) {
                self
            } else if self.pending is Some {
                self.lost(from)
            } else if mv.is_signal() {
                Table {
                    white: self.white.sent(MessageView::Move(mv)),
                    black: self.black.sent(MessageView::Move(mv)),
                    arbiter: self.arbiter.after(mv, from),
                    pending: None,
                }
            } else {
                Table { pending: Some(mv), ..self }
            },
            Reception::Eof | Reception::Failed(_) => self.lost(from),
            Reception::Pending | Reception::WouldBlock | Reception::Closed => self,
        }
    }

    /// What is to do once the session of `from` has said `rec`.
    pub open spec fn react_says(self, from: Color, rec: Reception) -> EffectView {
        match rec {
            Reception::Message(MessageView::Start(_)) => if self.seat(from.other()).greeted {
                EffectView::Begin {
                    to_white: encoding(MessageView::Start(assignment(Color::White))),
                    to_black: encoding(MessageView::Start(assignment(Color::Black))),
                }
            } else {
                EffectView::Idle
            },
            Reception::Message(MessageView::Move(mv)) => if !self.in_turn(from) {
                EffectView::Discarded(Discard::WrongTurn)
            } else if self.pending is Some {
                self.lost_says(from, Some(Fault::UnexpectedMessage))
            } else if mv.is_signal() {
                EffectView::Relay { frame: encoding(MessageView::Move(mv)), last: true }
            } else {
                EffectView::Judge { mover: from, mv }
            },
            Reception::Eof => self.lost_says(from, None),
            Reception::Failed(fault) => self.lost_says(from, Some(fault)),
            Reception::Pending | Reception::WouldBlock => EffectView::Idle,
            Reception::Closed => if self.over() {
                EffectView::Ended { notice: None, fault: None }
            } else {
                EffectView::Idle
            },
        }
    }

    /// The server once it has asked the session of `from` for a message.
    pub open spec fn polled(self, from: Color) -> Table {
        self.with_seat(from, self.seat(from).polled()).reacted(from, self.seat(from).poll_says())
    }

    /// What is to do once the session of `from` has been asked for a
    /// message.
    pub open spec fn poll_says(self, from: Color) -> EffectView {
        self.with_seat(from, self.seat(from).polled()).react_says(
            from,
            self.seat(from).poll_says(),
        )
    }

    /// The server once it has been told of a read from `from`.
    pub open spec fn received(self, from: Color, read: Reading) -> Table {
        self.with_seat(from, self.seat(from).received(read)).reacted(
            from,
            self.seat(from).receive_says(read),
        )
    }

    /// What is to do once the server has been told of a read from
    /// `from`.
    pub open spec fn receive_says(self, from: Color, read: Reading) -> EffectView {
        self.with_seat(from, self.seat(from).received(read)).react_says(
            from,
            self.seat(from).receive_says(read),
        )
    }

    /// The server once the rules engine has answered: the move that
    /// waited waits no more, and if it was legal the turn has passed.
    pub open spec fn resolved(self, legal: bool) -> Table {
        match self.pending {
            Some(mv) => Table {
                arbiter: if legal {
                    self.arbiter.after(mv, self.arbiter.turn())
                } else {
                    self.arbiter
                },
                pending: None,
                ..self
            },
            None => self,
        }
    }

    /// What is to do once the rules engine has answered: a legal move
    /// goes to both players, an illegal one is dropped.
    pub open spec fn resolve_says(self, legal: bool) -> EffectView {
        match self.pending {
            Some(mv) => if legal {
                EffectView::Relay { frame: encoding(MessageView::Move(mv)), last: false }
            } else {
                EffectView::Discarded(Discard::IllegalMove)
            },
            None => EffectView::Idle,
        }
    }

    /// What the server waits for: nothing once the game is over; else
    /// the rules engine while a move waits for it; else a player to
    /// connect while one is missing; else, during the handshake, the
    /// first player who has not announced itself; else the side to
    /// move.
    pub open spec fn expects(self) -> Expect {
        if self.over() {
            Expect::Nothing
        } else if self.pending is Some {
            Expect::Ruling
        } else if self.white.stage is Connecting || self.black.stage is Connecting {
            Expect::Connection
        } else if !self.white.greeted {
            Expect::Bytes(Color::White)
        } else if !self.black.greeted {
            Expect::Bytes(Color::Black)
        } else {
            Expect::Bytes(self.arbiter.turn())
        }
    }
}

/// What the server relies on when a session has said something: how the
/// session then differs from what it was.
pub open spec fn stepped(was: Link, is: Link, rec: Reception) -> bool {
    &&& is.role == was.role
    &&& is.color == was.color
    &&& match rec {
        Reception::Message(MessageView::Start(_)) => {
            &&& was.stage is Open
            &&& !was.greeted
            &&& is.stage is Open
            &&& is.greeted
        },
        Reception::Message(MessageView::Move(_)) => {
            &&& was.state() is Active
            &&& is.state() is Active
        },
        Reception::Eof | Reception::Failed(_) => was.stage is Open && is == was.shut(),
        Reception::Pending | Reception::WouldBlock => {
            &&& was.stage is Open
            &&& is.stage is Open
            &&& is.greeted == was.greeted
        },
        Reception::Closed => !(was.stage is Open) && is == was,
    }
}

/// A session of the server that is asked for a message differs from
/// what it was as the server relies on.
pub proof fn lemma_poll_steps(l: Link)
    requires
        l.role is Server,
    ensures
        stepped(l, l.polled(), l.poll_says()),
{
}

/// A session of the server that is told of a read differs from what it
/// was as the server relies on.
pub proof fn lemma_receive_steps(l: Link, read: Reading)
    requires
        l.role is Server,
    ensures
        stepped(l, l.received(read), l.receive_says(read)),
{
    if l.stage is Open {
        match read {
            Reading::Data(bytes) => {
                if bytes.len() > 0 {
                    lemma_poll_steps(l.fed(bytes));
                }
            },
            _ => {},
        }
    }
}

/// The frame by which the server assigns a side has a length that the
/// header can hold.
pub proof fn lemma_assignment_encodable(c: Color)
    ensures
        encodable(MessageView::Start(assignment(c))),
{
    reveal_strlit("Player 1");
    reveal_strlit("Player 2");
    let name = player_name(c);
    assert(is_ascii_chars(name));
    is_ascii_chars_encode_utf8(name);
    assert(start_payload(assignment(c)).len() == 21);
}

/// A move goes to the rules engine, and a signal to the players, only
/// when it comes from the side to move in a game that is on; and what
/// goes on is the move that came.
pub proof fn lemma_only_in_turn(t: Table, from: Color, rec: Reception)
    ensures
        t.react_says(from, rec) matches EffectView::Judge { mover, mv } ==> {
            &&& rec == Reception::Message(MessageView::Move(mv))
            &&& mover == from
            &&& t.arbiter.turn() == from
            &&& !t.over()
            &&& !mv.is_signal()
            &&& t.reacted(from, rec).pending == Some(mv)
            &&& t.reacted(from, rec).arbiter == t.arbiter
        },
        t.react_says(from, rec) matches EffectView::Relay { frame, last } ==> {
            &&& rec matches Reception::Message(MessageView::Move(mv))
            &&& mv.is_signal()
            &&& frame == encoding(MessageView::Move(mv))
            &&& last
            &&& t.arbiter.turn() == from
            &&& !t.over()
            &&& t.reacted(from, rec).over()
        },
        rec is Message && rec->Message_0 is Move && t.arbiter.turn() != from && !t.over() ==> {
            &&& t.react_says(from, rec) == EffectView::Discarded(Discard::WrongTurn)
            &&& t.reacted(from, rec) == t
        },
{
}

/// The frame that goes to both players after a legal move is the frame
/// of that very move: each of them reads it as the move that the mover
/// sent, and the turn has passed to the other side.
pub proof fn lemma_relay_is_the_move(t: Table, tail: Seq<u8>)
    requires
        t.wf(),
        t.pending is Some,
    ensures
        t.resolve_says(true) == (EffectView::Relay {
            frame: encoding(MessageView::Move(t.pending->0)),
            last: false,
        }),
        parse(encoding(MessageView::Move(t.pending->0)) + tail) == (Parsed::Complete {
            message: MessageView::Move(t.pending->0),
            consumed: encoding(MessageView::Move(t.pending->0)).len(),
        }),
        t.resolved(true).arbiter.turn() == t.arbiter.turn().other(),
        t.resolved(true).pending is None,
        t.resolved(false) == (Table { pending: None, ..t }),
        t.resolve_says(false) == EffectView::Discarded(Discard::IllegalMove),
{
    lemma_move_read(t.pending->0);
    lemma_decode_encode(MessageView::Move(t.pending->0), tail);
}

/// A move that the side to move has sent is taken when its frame has
/// come whole: in a game that is on, with no move waiting and nothing
/// held of that player's bytes, the frame of a move on the board puts the
/// move before the rules engine, or, if it is a signal, goes out again to
/// both players and ends the game. The same frame from the other side is
/// dropped and changes the turn of nobody.
pub proof fn lemma_frame_is_taken(t: Table, from: Color, mv: Move)
    requires
        t.wf(),
        t.begun(),
        !t.over(),
        t.pending is None,
        t.seat(from).held == Seq::<u8>::empty(),
        mv.on_board(),
    ensures
        t.receive_says(from, Reading::Data(encoding(MessageView::Move(mv)))) == (if t.arbiter.turn()
            != from {
            EffectView::Discarded(Discard::WrongTurn)
        } else if mv.is_signal() {
            EffectView::Relay { frame: encoding(MessageView::Move(mv)), last: true }
        } else {
            EffectView::Judge { mover: from, mv }
        }),
        t.arbiter.turn() != from ==> t.received(
            from,
            Reading::Data(encoding(MessageView::Move(mv))),
        ) == t,
        t.received(from, Reading::Data(encoding(MessageView::Move(mv)))).wf(),
{
    let frame = encoding(MessageView::Move(mv));
    let seat = t.seat(from);
    lemma_move_read(mv);
    lemma_decode_encode(MessageView::Move(mv), Seq::empty());
    assert(seat.held + frame =~= frame + Seq::<u8>::empty());
    assert(frame.skip(frame.len() as int) =~= Seq::<u8>::empty());
    assert(seat.fed(frame).held == frame + Seq::<u8>::empty());
    assert(seat.received(Reading::Data(frame)) == seat);
    assert(t.with_seat(from, seat) == t);
    lemma_receive_steps(seat, Reading::Data(frame));
}

/// Once the game is over it stays over: nobody is let in, no read and no
/// answer of the rules engine changes the server, and nothing is handed
/// out to be written.
pub proof fn lemma_over_is_final(t: Table, from: Color, read: Reading, legal: bool)
    requires
        t.wf(),
        t.over(),
    ensures
        t.accept_says() is None,
        t.accepted() == t,
        t.received(from, read) == t,
        t.receive_says(from, read) == (EffectView::Ended { notice: None, fault: None }),
        t.polled(from) == t,
        t.poll_says(from) == (EffectView::Ended { notice: None, fault: None }),
        t.resolved(legal) == t,
        t.resolve_says(legal) == EffectView::Idle,
        t.lost(from) == t,
        t.lost_says(from, Some(Fault::Io)) == (EffectView::Ended { notice: None, fault: None }),
        t.expects() == Expect::Nothing,
{
    let l = t.seat(from);
    assert(t.with_seat(from, l) == t);
}

/// The rendezvous server of one game.
#[derive(Debug)]
pub struct Server {
    white: Session,
    black: Session,
    arbiter: TurnArbiter,
    pending: Option<Move>,
}

impl View for Server {
    type V = Table;

    closed spec fn view(&self) -> Table {
        Table {
            white: self.white@,
            black: self.black@,
            arbiter: self.arbiter,
            pending: self.pending,
        }
    }
}

impl Server {
    /// A server to which nobody has connected.
    pub fn new() -> (r: Server)
        ensures
            r@ == Table::fresh(),
            r@.wf(),
    {
        Server {
            white: Session::new(Role::Server),
            black: Session::new(Role::Server),
            arbiter: TurnArbiter::new(),
            pending: None,
        }
    }

    /// The side to move.
    pub fn turn(&self) -> (r: Color)
        ensures
            r == self@.arbiter.turn(),
    {
        self.arbiter.turn()
    }

    /// How the game ended, if it has.
    pub fn outcome(&self) -> (r: Option<Outcome>)
        ensures
            r == self@.arbiter.outcome(),
    {
        self.arbiter.outcome()
    }

    /// The state of the session of a side.
    pub fn session_state(&self, c: Color) -> (r: SessionState)
        ensures
            r == self@.seat(c).state(),
    {
        match c {
            Color::White => self.white.state(),
            Color::Black => self.black.state(),
        }
    }

    /// Whether the server is as its own functions leave it. This holds
    /// of every server made by `new` and changed by nothing but the
    /// functions below.
    pub fn is_wf(&self) -> (r: bool)
        ensures
            r == self@.wf(),
    {
        let over = self.arbiter.outcome().is_some();
        let white = self.white.state();
        let black = self.black.state();
        let white_open = matches!(white, SessionState::Handshaking | SessionState::Active);
        let black_open = matches!(black, SessionState::Handshaking | SessionState::Active);
        let white_closed = matches!(white, SessionState::Closed);
        let black_closed = matches!(black, SessionState::Closed);
        let white_connecting = matches!(white, SessionState::Connecting);
        let black_connecting = matches!(black, SessionState::Connecting);
        let roles = matches!(self.white.role(), Role::Server) && matches!(
            self.black.role(),
            Role::Server
        );
        let sides = match (self.white.color(), self.black.color()) {
            (None, None) => true,
            (Some(Color::White), Some(Color::Black)) => self.white.greeted()
                && self.black.greeted(),
            _ => false,
        };
        let stages = if over {
            !white_open && !black_open
        } else {
            !white_closed && !black_closed
        };
        let greetings = !(self.white.greeted() && white_connecting) && !(self.black.greeted()
            && black_connecting);
        let waiting = match self.pending {
            Some(mv) => {
                proof {
                    use_type_invariant(mv.from);
                    use_type_invariant(mv.to);
                }
                self.white.color().is_some() && !over && !mv.ends_game()
            },
            None => true,
        };
        roles && sides && stages && greetings && waiting
    }

    /// What the server waits for.
    pub fn expects(&self) -> (r: Expect)
        ensures
            r == self@.expects(),
    {
        if self.arbiter.outcome().is_some() {
            Expect::Nothing
        } else if self.pending.is_some() {
            Expect::Ruling
        } else if self.is_connecting(Color::White) || self.is_connecting(Color::Black) {
            Expect::Connection
        } else if !self.has_greeted(Color::White) {
            Expect::Bytes(Color::White)
        } else if !self.has_greeted(Color::Black) {
            Expect::Bytes(Color::Black)
        } else {
            Expect::Bytes(self.arbiter.turn())
        }
    }

    fn is_connecting(&self, c: Color) -> (r: bool)
        ensures
            r == (self@.seat(c).stage is Connecting),
    {
        match self.session_state(c) {
            SessionState::Connecting => true,
            _ => false,
        }
    }

    fn has_greeted(&self, c: Color) -> (r: bool)
        ensures
            r == self@.seat(c).greeted,
    {
        match c {
            Color::White => self.white.greeted(),
            Color::Black => self.black.greeted(),
        }
    }

    /// A player has connected: gives the side that is its own from now
    /// on, White to the first and Black to the second. A third player,
    /// or one who comes after the end, gets none and is to be turned
    /// away.
    pub fn accept(&mut self) -> (r: Option<Color>)
        requires
            old(self)@.wf(),
        ensures
            r == old(self)@.accept_says(),
            final(self)@ == old(self)@.accepted(),
            final(self)@.wf(),
    {
        if self.arbiter.outcome().is_some() {
            None
        } else if self.is_connecting(Color::White) {
            self.white.open();
            Some(Color::White)
        } else if self.is_connecting(Color::Black) {
            self.black.open();
            Some(Color::Black)
        } else {
            None
        }
    }

    /// The `Start` by which the server assigns a side.
    fn assign(c: Color) -> (r: Message)
        ensures
            r@ == MessageView::Start(assignment(c)),
    {
        let name = match c {
            Color::White => "Player 1".to_owned(),
            Color::Black => "Player 2".to_owned(),
        };
        Message::Start(
            Start { is_white: c.is_white(), name: Some(name), fen: None, time: None, inc: None },
        )
    }

    /// Ends the game because `from` is gone.
    fn lose(&mut self, from: Color, fault: Option<Fault>) -> (r: Effect)
        ensures
            r@ == old(self)@.lost_says(from, fault),
            final(self)@ == old(self)@.lost(from),
    {
        if self.arbiter.outcome().is_some() {
            return Effect::Ended { notice: None, fault: None };
        }
        let survivor = from.opponent();
        let farewell = Message::Move(Move::resign());
        let sent = match survivor {
            Color::White => self.white.send(&farewell),
            Color::Black => self.black.send(&farewell),
        };
        self.white.close();
        self.black.close();
        self.arbiter.abandon(from);
        self.pending = None;
        match sent {
            Ok(frame) => Effect::Ended { notice: Some(Notice { to: survivor, frame }), fault },
            Err(_) => Effect::Ended { notice: None, fault },
        }
    }

    /// Acts on what the session of `from` has just said.
    fn react(&mut self, from: Color, received: Received, Ghost(before): Ghost<Table>) -> (r: Effect)
        requires
            before.wf(),
            old(self)@ == before.with_seat(from, old(self)@.seat(from)),
            stepped(before.seat(from), old(self)@.seat(from), received@),
        ensures
            r@ == old(self)@.react_says(from, received@),
            final(self)@ == old(self)@.reacted(from, received@),
            final(self)@.wf(),
    {
        match received {
            Received::Message(Message::Start(_)) => {
                if self.has_greeted(from.opponent()) {
                    proof {
                        lemma_assignment_encodable(Color::White);
                        lemma_assignment_encodable(Color::Black);
                    }
                    let to_white = self.white.send(&Server::assign(Color::White));
                    let to_black = self.black.send(&Server::assign(Color::Black));
                    match (to_white, to_black) {
                        (Ok(to_white), Ok(to_black)) => Effect::Begin { to_white, to_black },
                        _ => {
                            assert(false);
                            Effect::Idle
                        },
                    }
                } else {
                    Effect::Idle
                }
            },
            Received::Message(Message::Move(mv)) => {
                if !self.arbiter.expects(from) {
                    Effect::Discarded(Discard::WrongTurn)
                } else if self.pending.is_some() {
                    self.lose(from, Some(Fault::UnexpectedMessage))
                } else if mv.ends_game() {
                    let relayed = Message::Move(mv);
                    let first = self.white.send(&relayed);
                    let second = self.black.send(&relayed);
                    let _ = self.arbiter.try_accept(&mv, from);
                    match (first, second) {
                        (Ok(frame), Ok(_)) => Effect::Relay { frame, last: true },
                        _ => {
                            assert(false);
                            Effect::Idle
                        },
                    }
                } else {
                    proof {
                        use_type_invariant(mv.from);
                        use_type_invariant(mv.to);
                    }
                    self.pending = Some(mv);
                    Effect::Judge { mover: from, mv }
                }
            },
            Received::Eof => self.lose(from, None),
            Received::Failed(fault) => self.lose(from, Some(fault)),
            Received::Pending | Received::WouldBlock => Effect::Idle,
            Received::Closed => {
                if self.arbiter.outcome().is_some() {
                    Effect::Ended { notice: None, fault: None }
                } else {
                    Effect::Idle
                }
            },
        }
    }

    /// Asks the session of `from` for a message and acts on it.
    ///
    /// A whole frame that is held is taken; bytes that make no whole
    /// frame stay where they are and nothing is to do.
    pub fn poll(&mut self, from: Color) -> (r: Effect)
        requires
            old(self)@.wf(),
        ensures
            r@ == old(self)@.poll_says(from),
            final(self)@ == old(self)@.polled(from),
            final(self)@.wf(),
    {
        let ghost before = self@;
        proof {
            lemma_poll_steps(before.seat(from));
        }
        let received = match from {
            Color::White => self.white.poll(),
            Color::Black => self.black.poll(),
        };
        self.react(from, received, Ghost(before))
    }

    /// Tells the server what a read on the stream of `from` brought, and
    /// acts on it.
    ///
    /// Bytes are taken in, and a message is asked for as `poll` does.
    /// The end of the stream and a failed read mean that `from` is gone:
    /// the game is over, and the other player is told so.
    pub fn receive(&mut self, from: Color, read: ReadOutcome<'_>) -> (r: Effect)
        requires
            old(self)@.wf(),
        ensures
            r@ == old(self)@.receive_says(from, read@),
            final(self)@ == old(self)@.received(from, read@),
            final(self)@.wf(),
    {
        let ghost before = self@;
        proof {
            lemma_receive_steps(before.seat(from), read@);
        }
        let received = match from {
            Color::White => self.white.receive(read),
            Color::Black => self.black.receive(read),
        };
        self.react(from, received, Ghost(before))
    }

    /// Tells the server that a write to the stream of `to` failed: that
    /// player is gone, as after a failed read.
    pub fn write_failed(&mut self, to: Color) -> (r: Effect)
        requires
            old(self)@.wf(),
        ensures
            r@ == old(self)@.lost_says(to, Some(Fault::Io)),
            final(self)@ == old(self)@.lost(to),
            final(self)@.wf(),
    {
        self.lose(to, Some(Fault::Io))
    }

    /// Tells the server what the rules engine said of the move that
    /// waits: a legal move is accepted, the turn passes, and its frame
    /// is to go to both players; an illegal one is dropped, and the same
    /// player is to move. Where no move waits nothing happens.
    pub fn resolve(&mut self, legal: bool) -> (r: Effect)
        requires
            old(self)@.wf(),
        ensures
            r@ == old(self)@.resolve_says(legal),
            final(self)@ == old(self)@.resolved(legal),
            final(self)@.wf(),
    {
        match self.pending {
            None => Effect::Idle,
            Some(mv) => {
                self.pending = None;
                if legal {
                    let mover = self.arbiter.turn();
                    let _ = self.arbiter.try_accept(&mv, mover);
                    Effect::Relay { frame: encode_move(&mv), last: false }
                } else {
                    Effect::Discarded(Discard::IllegalMove)
                }
            },
        }
    }
}

} // verus!
