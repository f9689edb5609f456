//! The peer client: its end of the connection, the side it was given, and
//! what a click on the board means.
//!
//! The client decides; it neither connects nor reads nor writes nor
//! draws, and it does not know the rules of chess. Whoever runs it tells
//! it of each read and of each click, writes the frames it hands out,
//! asks the rules engine what the client wants to know and applies to
//! the board what the client hands down.

use crate::message::{Color, Message, MessageView, Move, Position, Start, StartView};
use crate::session::{
    lemma_whole_frame_is_received, Fault, Link, ReadOutcome, Reading, Received, Reception, Role,
    SendError, Session, SessionState,
};
use crate::wire::format::{encodable, encoding};
use vstd::prelude::*;

verus! {

/// Why the game is over for the client.
#[derive(Clone, Copy, Debug, PartialEq, Eq, Structural)]
pub enum Ending {
    /// A move came that is a signal: a forfeit, or an offer of a draw.
    Signal(Move),
    /// The server has closed the stream.
    Disconnected,
    /// The session failed.
    Fault(Fault),
    /// The session is not open.
    Closed,
}

/// What the one who runs the client has to do after a read.
#[derive(Clone, Debug, PartialEq, Eq)]
pub enum Event {
    /// No whole message is there yet: read again.
    More,
    /// The stream has nothing yet: come back later.
    WouldBlock,
    /// The server has assigned the side: set the board up as the
    /// message says, seen from that side.
    Assigned(Start),
    /// The server has confirmed a move: apply it to the board.
    Apply(Move),
    /// The game is over, and the session is closed.
    Ended(Ending),
}

/// An event, with its message as what it holds.
pub enum EventView {
    More,
    WouldBlock,
    Assigned(StartView),
    Apply(Move),
    Ended(Ending),
}

impl View for Event {
    type V = EventView;

    open spec fn view(&self) -> EventView {
        match self {
            Event::More => EventView::More,
            Event::WouldBlock => EventView::WouldBlock,
            Event::Assigned(s) => EventView::Assigned(s@),
            Event::Apply(mv) => EventView::Apply(*mv),
            Event::Ended(why) => EventView::Ended(*why),
        }
    }
}

/// What a click on a square came to.
#[derive(Clone, Copy, Debug, PartialEq, Eq, Structural)]
pub enum Click {
    /// The square is now the selected one.
    Selected,
    /// A square was selected and it is the client's turn: ask the rules
    /// engine whether the move is legal, and tell the client with
    /// `submit`.
    Propose(Move),
}

/// What became of the move that the client proposed.
#[derive(Clone, Debug, PartialEq, Eq)]
pub enum Submission {
    /// No move was proposed.
    Nothing,
    /// The move is illegal: pick again. Its target is now selected.
    Rejected,
    /// Write the frame to the server, and wait for the move to come
    /// back before applying it.
    Send(Vec<u8>),
    /// The session does not let the move out.
    Refused(SendError),
}

/// A submission, with its frame as a sequence.
pub enum SubmissionView {
    Nothing,
    Rejected,
    Send(Seq<u8>),
    Refused(SendError),
}

impl View for Submission {
    type V = SubmissionView;

    open spec fn view(&self) -> SubmissionView {
        match self {
            Submission::Nothing => SubmissionView::Nothing,
            Submission::Rejected => SubmissionView::Rejected,
            Submission::Send(frame) => SubmissionView::Send(frame@),
            Submission::Refused(why) => SubmissionView::Refused(*why),
        }
    }
}

/// What a client is, as plain values.
pub struct Desk {
    pub link: Link,
    /// The square that the last click selected.
    pub selected: Option<Position>,
    /// The move that the rules engine has been asked about.
    pub offer: Option<Move>,
}

impl Desk {
    /// A client that has not connected.
    pub open spec fn fresh() -> Desk {
        Desk { link: Link::fresh(Role::Client), selected: None, offer: None }
    }

    /// The client once the stream to the server is there and it has
    /// tried to announce itself with `hello`.
    pub open spec fn connected(self, hello: StartView) -> Desk {
        let open = self.link.opened();
        if open.refusal(MessageView::Start(hello)) is None {
            Desk { link: open.sent(MessageView::Start(hello)), ..self }
        } else {
            Desk { link: open, ..self }
        }
    }

    /// The client once its session has said `rec`.
    ///
    /// The selected square stays selected through the assignment of the
    /// side, the end of the stream, a fault and a closed session; in all
    /// of these no move is proposed any more. A signal closes the
    /// session, and then nothing is selected or proposed. A move that is
    /// no signal, and a read that brought no whole message, change
    /// nothing.
    pub open spec fn reacted(self, rec: Reception) -> Desk {
        match rec {
            Reception::Message(MessageView::Start(_)) => Desk { offer: None, ..self },
            Reception::Message(MessageView::Move(mv)) => if mv.is_signal() {
                Desk { link: self.link.shut(), selected: None, offer: None }
            } else {
                self
            },
            Reception::Pending | Reception::WouldBlock => self,
            Reception::Eof | Reception::Failed(_) | Reception::Closed => Desk {
                offer: None,
                ..self
            },
        }
    }

    /// What is to do once the session has said `rec`.
    pub open spec fn react_says(self, rec: Reception) -> EventView {
        match rec {
            Reception::Message(MessageView::Start(s)) => EventView::Assigned(s),
            Reception::Message(MessageView::Move(mv)) => if mv.is_signal() {
                EventView::Ended(Ending::Signal(mv))
            } else {
                EventView::Apply(mv)
            },
            Reception::Pending => EventView::More,
            Reception::WouldBlock => EventView::WouldBlock,
            Reception::Eof => EventView::Ended(Ending::Disconnected),
            Reception::Failed(fault) => EventView::Ended(Ending::Fault(fault)),
            Reception::Closed => EventView::Ended(Ending::Closed),
        }
    }

    /// The client once it has asked its session for a message.
    pub open spec fn polled(self) -> Desk {
        (Desk { link: self.link.polled(), ..self }).reacted(self.link.poll_says())
    }

    /// What is to do once the session has been asked for a message.
    pub open spec fn poll_says(self) -> EventView {
        self.react_says(self.link.poll_says())
    }

    /// The client once it has been told of a read.
    pub open spec fn received(self, read: Reading) -> Desk {
        (Desk { link: self.link.received(read), ..self }).reacted(self.link.receive_says(read))
    }

    /// What is to do once the client has been told of a read.
    pub open spec fn receive_says(self, read: Reading) -> EventView {
        self.react_says(self.link.receive_says(read))
    }

    /// Whether it is the client's turn when `to_move` is the side to
    /// move on its board: the session is active, and that side is the
    /// client's own.
    pub open spec fn my_turn(self, to_move: Color) -> bool {
        self.link.state() is Active && self.link.color == Some(to_move)
    }

    /// What a click on `square` comes to: a move from the selected
    /// square, when one is selected and it is the client's turn, and a
    /// selection otherwise.
    pub open spec fn click_says(self, square: Position, to_move: Color) -> Click {
        if self.my_turn(to_move) && self.selected is Some {
            Click::Propose(
                Move {
                    from: self.selected->0,
                    to: square,
                    promotion: None,
                    forfeit: false,
                    offer_draw: false,
                },
            )
        } else {
            Click::Selected
        }
    }

    /// The client once `square` has been clicked: the square is
    /// selected, and the move proposed, if any, waits for the rules
    /// engine.
    pub open spec fn clicked(self, square: Position, to_move: Color) -> Desk {
        Desk {
            selected: Some(square),
            offer: match self.click_says(square, to_move) {
                Click::Propose(mv) => Some(mv),
                Click::Selected => None,
            },
            ..self
        }
    }

    /// The client once a click has fallen off the board: out of the
    /// client's turn nothing is selected any more, and in its turn
    /// nothing changes.
    pub open spec fn clicked_outside(self, to_move: Color) -> Desk {
        if self.my_turn(to_move) {
            self
        } else {
            Desk { selected: None, ..self }
        }
    }

    /// What becomes of the proposed move once the rules engine has
    /// answered.
    pub open spec fn submit_says(self, legal: bool) -> SubmissionView {
        match self.offer {
            None => SubmissionView::Nothing,
            Some(mv) => if !legal {
                SubmissionView::Rejected
            } else {
                match self.link.refusal(MessageView::Move(mv)) {
                    None => SubmissionView::Send(encoding(MessageView::Move(mv))),
                    Some(why) => SubmissionView::Refused(why),
                }
            },
        }
    }

    /// The client once the rules engine has answered: no move waits any
    /// more; after a legal move nothing is selected, and after an
    /// illegal one its target still is.
    pub open spec fn submitted(self, legal: bool) -> Desk {
        match self.offer {
            None => self,
            Some(mv) => if !legal {
                Desk { offer: None, ..self }
            } else {
                Desk {
                    link: if self.link.refusal(MessageView::Move(mv)) is None {
                        self.link.sent(MessageView::Move(mv))
                    } else {
                        self.link
                    },
                    selected: None,
                    offer: None,
                }
            },
        }
    }
}

/// The side that the server assigns is taken by the client when the
/// frame has come whole: a client that holds no bytes and has not been
/// assigned a side is told of the assignment and has that side from then
/// on, and is active if it has announced itself. The square that was
/// selected stays selected.
pub proof fn lemma_assignment_is_taken(d: Desk, start: StartView)
    requires
        d.link.role is Client,
        d.link.stage is Open,
        d.link.color is None,
        d.link.held == Seq::<u8>::empty(),
        encodable(MessageView::Start(start)),
    ensures
        d.receive_says(Reading::Data(encoding(MessageView::Start(start)))) == EventView::Assigned(
            start,
        ),
        d.received(Reading::Data(encoding(MessageView::Start(start)))).link.color == Some(
            Color::of_flag(start.is_white),
        ),
        d.link.greeted ==> d.received(
            Reading::Data(encoding(MessageView::Start(start))),
        ).link.state() is Active,
        d.received(Reading::Data(encoding(MessageView::Start(start)))).selected == d.selected,
{
    let m = MessageView::Start(start);
    let read = Reading::Data(encoding(m));
    lemma_whole_frame_is_received(d.link, m);
    assert(d.link.admits_in(m));
    assert(d.link.receive_says(read) == Reception::Message(m));
    assert(d.link.received(read) == d.link.got(m));
}

/// A move that the server sends is taken by the client when the frame
/// has come whole: an active client that holds no bytes is told to apply
/// a move on the board that is no signal, and stays as it is; it is told
/// of the end, and is closed, by one that is a signal.
pub proof fn lemma_move_is_taken(d: Desk, mv: Move)
    requires
        d.link.state() is Active,
        d.link.held == Seq::<u8>::empty(),
        mv.on_board(),
    ensures
        d.receive_says(Reading::Data(encoding(MessageView::Move(mv)))) == (if mv.is_signal() {
            EventView::Ended(Ending::Signal(mv))
        } else {
            EventView::Apply(mv)
        }),
        !mv.is_signal() ==> d.received(Reading::Data(encoding(MessageView::Move(mv)))) == d,
        mv.is_signal() ==> d.received(
            Reading::Data(encoding(MessageView::Move(mv))),
        ).link.state() is Closed,
{
    let m = MessageView::Move(mv);
    let read = Reading::Data(encoding(m));
    lemma_move_fits(mv);
    lemma_whole_frame_is_received(d.link, m);
    assert(d.link.admits_in(m));
    assert(d.link.receive_says(read) == Reception::Message(m));
    assert(d.link.received(read) == d.link);
}

/// The frame of a move has a length that the header can hold.
proof fn lemma_move_fits(mv: Move)
    ensures
        encodable(MessageView::Move(mv)),
{
}

/// The client of one player.
#[derive(Debug)]
pub struct Client {
    session: Session,
    selected: Option<Position>,
    offer: Option<Move>,
}

impl View for Client {
    type V = Desk;

    closed spec fn view(&self) -> Desk {
        Desk { link: self.session@, selected: self.selected, offer: self.offer }
    }
}

impl Client {
    /// A client that has not connected.
    pub fn new() -> (r: Client)
        ensures
            r@ == Desk::fresh(),
    {
        Client { session: Session::new(Role::Client), selected: None, offer: None }
    }

    /// The state of the session.
    pub fn state(&self) -> (r: SessionState)
        ensures
            r == self@.link.state(),
    {
        self.session.state()
    }

    /// The side that the server has assigned, once it has.
    pub fn color(&self) -> (r: Option<Color>)
        ensures
            r == self@.link.color,
    {
        self.session.color()
    }

    /// The square that the last click selected.
    pub fn selected(&self) -> (r: Option<Position>)
        ensures
            r == self@.selected,
    {
        self.selected
    }

    /// The stream to the server is there: gives the frame by which the
    /// client announces itself, with its name and its wishes for the
    /// game, to be written to the server. The server assigns the side
    /// whatever `hello` says of it. Refused, with the session open and
    /// nothing sent, where `hello` is too long for a frame or the client
    /// has announced itself before.
    pub fn connect(&mut self, hello: Start) -> (r: Result<Vec<u8>, SendError>)
        ensures
            final(self)@ == old(self)@.connected(hello@),
            match r {
                Ok(frame) => {
                    &&& old(self)@.link.opened().refusal(MessageView::Start(hello@)) is None
                    &&& frame@ == encoding(MessageView::Start(hello@))
                },
                Err(why) => old(self)@.link.opened().refusal(MessageView::Start(hello@)) == Some(
                    why,
                ),
            },
    {
        self.session.open();
        self.session.send(&Message::Start(hello))
    }

    /// Acts on what the session has just said.
    fn react(&mut self, received: Received) -> (r: Event)
        ensures
            r@ == old(self)@.react_says(received@),
            final(self)@ == old(self)@.reacted(received@),
    {
        match received {
            Received::Message(Message::Start(start)) => {
                self.offer = None;
                Event::Assigned(start)
            },
            Received::Message(Message::Move(mv)) => {
                if mv.ends_game() {
                    self.session.close();
                    self.selected = None;
                    self.offer = None;
                    Event::Ended(Ending::Signal(mv))
                } else {
                    Event::Apply(mv)
                }
            },
            Received::Pending => Event::More,
            Received::WouldBlock => Event::WouldBlock,
            Received::Eof => {
                self.offer = None;
                Event::Ended(Ending::Disconnected)
            },
            Received::Failed(fault) => {
                self.offer = None;
                Event::Ended(Ending::Fault(fault))
            },
            Received::Closed => {
                self.offer = None;
                Event::Ended(Ending::Closed)
            },
        }
    }

    /// Asks the session for the next message that is held, whole, and
    /// says what is to do with it.
    pub fn poll(&mut self) -> (r: Event)
        ensures
            r@ == old(self)@.poll_says(),
            final(self)@ == old(self)@.polled(),
    {
        let received = self.session.poll();
        self.react(received)
    }

    /// Tells the client what a read on the stream brought, and says what
    /// is to do.
    ///
    /// A read that would block is told apart from the end of the stream:
    /// the first changes nothing, the second ends the game.
    pub fn receive(&mut self, read: ReadOutcome<'_>) -> (r: Event)
        ensures
            r@ == old(self)@.receive_says(read@),
            final(self)@ == old(self)@.received(read@),
    {
        let received = self.session.receive(read);
        self.react(received)
    }

    /// A square of the board was clicked while `to_move` is the side to
    /// move on the client's board.
    ///
    /// The square becomes the selected one. Where a square was selected
    /// before and it is the client's turn, the move from that square to
    /// this one is proposed.
    pub fn click(&mut self, square: Position, to_move: Color) -> (r: Click)
        ensures
            r == old(self)@.click_says(square, to_move),
            final(self)@ == old(self)@.clicked(square, to_move),
    {
        let mine = match self.session.state() {
            SessionState::Active => match self.session.color() {
                Some(side) => side == to_move,
                None => false,
            },
            _ => false,
        };
        let answer = match self.selected {
            Some(from) => if mine {
                Click::Propose(Move::step(from, square))
            } else {
                Click::Selected
            },
            None => Click::Selected,
        };
        self.selected = Some(square);
        self.offer = match answer {
            Click::Propose(mv) => Some(mv),
            Click::Selected => None,
        };
        answer
    }

    /// The board was clicked off its squares while `to_move` is the side
    /// to move on the client's board: out of the client's turn the
    /// selection is dropped, and in its turn nothing changes.
    pub fn click_outside(&mut self, to_move: Color)
        ensures
            final(self)@ == old(self)@.clicked_outside(to_move),
    {
        let mine = match self.session.state() {
            SessionState::Active => match self.session.color() {
                Some(side) => side == to_move,
                None => false,
            },
            _ => false,
        };
        if !mine {
            self.selected = None;
        }
    }

    /// Tells the client whether the rules engine found the proposed move
    /// legal: a legal move is handed out as a frame for the server, an
    /// illegal one is dropped.
    pub fn submit(&mut self, legal: bool) -> (r: Submission)
        ensures
            r@ == old(self)@.submit_says(legal),
            final(self)@ == old(self)@.submitted(legal),
    {
        match self.offer {
            None => Submission::Nothing,
            Some(mv) => {
                self.offer = None;
                if !legal {
                    Submission::Rejected
                } else {
                    self.selected = None;
                    match self.session.send(&Message::Move(mv)) {
                        Ok(frame) => Submission::Send(frame),
                        Err(why) => Submission::Refused(why),
                    }
                }
            },
        }
    }

    /// Gives the game up: hands out the frame of a forfeit for the
    /// server and closes the session. Refused, and nothing changed,
    /// where the session is not active.
    pub fn forfeit(&mut self) -> (r: Result<Vec<u8>, SendError>)
        ensures
            match r {
                Ok(frame) => {
                    &&& old(self)@.link.state() is Active
                    &&& frame@ == encoding(MessageView::Move(Move::resignation()))
                    &&& final(self)@ == (Desk {
                        link: old(self)@.link.shut(),
                        selected: None,
                        offer: None,
                    })
                },
                Err(why) => {
                    &&& !(old(self)@.link.state() is Active)
                    &&& old(self)@.link.refusal(MessageView::Move(Move::resignation())) == Some(why)
                    &&& final(self)@ == old(self)@
                },
            },
    {
        match self.session.send(&Message::Move(Move::resign())) {
            Ok(frame) => {
                self.selected = None;
                self.offer = None;
                Ok(frame)
            },
            Err(why) => Err(why),
        }
    }

    /// Closes the session.
    pub fn close(&mut self)
        ensures
            final(self)@ == (Desk { link: old(self)@.link.shut(), ..old(self)@ }),
    {
        self.session.close();
    }
}

} // verus!
