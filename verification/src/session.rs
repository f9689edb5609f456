//! The session: one connection to a peer, from its opening through the
//! handshake and the exchange of moves to its end.
//!
//! A session does no reading or writing of its own. It is told what a
//! read brought and says what that means; it is asked to send a message
//! and gives the bytes to write.

use crate::message::{Color, Message, MessageView};
use crate::wire::accumulator::{left_by, Accumulator};
use crate::wire::codec::{encode, Decoded};
use crate::wire::format::{encodable, encoding, on_board, parse, Parsed};
use crate::wire::roundtrip::lemma_decode_encode;
use vstd::prelude::*;

verus! {

/// The end of the connection that a session is.
#[derive(Clone, Copy, Debug, PartialEq, Eq, Structural)]
pub enum Role {
    /// The rendezvous server's end: it assigns the side.
    Server,
    /// A player's end: it is assigned a side.
    Client,
}

/// Whether the stream of a session is there.
#[derive(Clone, Copy, Debug, PartialEq, Eq, Structural)]
pub enum Stage {
    /// Not yet established.
    Connecting,
    /// Established and in use.
    Open,
    /// Gone, for good.
    Closed,
}

/// The state of a session.
#[derive(Clone, Copy, Debug, PartialEq, Eq, Structural)]
pub enum SessionState {
    /// The stream is not yet established.
    Connecting,
    /// The stream is open; the two `Start` messages have not both passed.
    Handshaking,
    /// Moves may flow either way.
    Active,
    /// Terminal.
    Closed,
}

/// What is fatal to a session.
#[derive(Clone, Copy, Debug, PartialEq, Eq, Structural)]
pub enum Fault {
    /// The stream failed on a read or a write.
    Io,
    /// The bytes received are no frame.
    MalformedFrame,
    /// A message came that the state of the session does not allow: a
    /// move before the handshake was complete, or a second `Start`.
    UnexpectedMessage,
}

/// Why a message was not sent. The session is as it was.
#[derive(Clone, Copy, Debug, PartialEq, Eq, Structural)]
pub enum SendError {
    /// The session is not open.
    Closed,
    /// The state of the session does not allow this message: a move
    /// before the handshake is complete, or a second `Start`.
    UnexpectedMessage,
    /// The message has no frame.
    TooLong,
}

/// What a read on the stream brought.
#[derive(Clone, Copy, Debug)]
pub enum ReadOutcome<'a> {
    /// The bytes read. None at all means that the peer has closed the
    /// stream.
    Data(&'a [u8]),
    /// Nothing is there yet, and the stream does not wait.
    WouldBlock,
    /// The read failed.
    Failed,
}

/// What a session has to say after a read, or when asked for a message.
#[derive(Clone, Debug, PartialEq, Eq)]
pub enum Received {
    /// One message, whole.
    Message(Message),
    /// No whole frame is held: read again.
    Pending,
    /// The stream had nothing yet; the session is as it was.
    WouldBlock,
    /// The peer has closed the stream; the session is closed.
    Eof,
    /// The session is closed for the given reason.
    Failed(Fault),
    /// The session is not open.
    Closed,
}

/// What a read brought, with its bytes as a sequence.
pub enum Reading {
    Data(Seq<u8>),
    WouldBlock,
    Failed,
}

impl View for ReadOutcome<'_> {
    type V = Reading;

    open spec fn view(&self) -> Reading {
        match self {
            ReadOutcome::Data(bytes) => Reading::Data(bytes@),
            ReadOutcome::WouldBlock => Reading::WouldBlock,
            ReadOutcome::Failed => Reading::Failed,
        }
    }
}

/// What a session has to say, with the message as what it holds.
pub enum Reception {
    Message(MessageView),
    Pending,
    WouldBlock,
    Eof,
    Failed(Fault),
    Closed,
}

impl View for Received {
    type V = Reception;

    open spec fn view(&self) -> Reception {
        match self {
            Received::Message(m) => Reception::Message(m@),
            Received::Pending => Reception::Pending,
            Received::WouldBlock => Reception::WouldBlock,
            Received::Eof => Reception::Eof,
            Received::Failed(fault) => Reception::Failed(*fault),
            Received::Closed => Reception::Closed,
        }
    }
}

/// What a session is, as plain values.
pub struct Link {
    pub role: Role,
    pub stage: Stage,
    /// The side that the server's `Start` assigned, once it has passed.
    pub color: Option<Color>,
    /// Whether the client's `Start` has passed.
    pub greeted: bool,
    /// The bytes received that belong to no message given out yet.
    pub held: Seq<u8>,
}

impl Link {
    /// A session before its stream is established.
    pub open spec fn fresh(role: Role) -> Link {
        Link { role, stage: Stage::Connecting, color: None, greeted: false, held: Seq::empty() }
    }

    /// The state of the session.
    pub open spec fn state(self) -> SessionState {
        match self.stage {
            Stage::Connecting => SessionState::Connecting,
            Stage::Closed => SessionState::Closed,
            Stage::Open => if self.color is Some && self.greeted {
                SessionState::Active
            } else {
                SessionState::Handshaking
            },
        }
    }

    /// Whether this end has sent its `Start`.
    pub open spec fn start_sent(self) -> bool {
        match self.role {
            Role::Server => self.color is Some,
            Role::Client => self.greeted,
        }
    }

    /// Whether this end has received the `Start` of the other.
    pub open spec fn start_received(self) -> bool {
        match self.role {
            Role::Server => self.greeted,
            Role::Client => self.color is Some,
        }
    }

    /// The session once its stream is established.
    pub open spec fn opened(self) -> Link {
        if self.stage is Connecting {
            Link { stage: Stage::Open, ..self }
        } else {
            self
        }
    }

    /// The session once it is closed: it holds no bytes any more.
    pub open spec fn shut(self) -> Link {
        Link { stage: Stage::Closed, held: Seq::empty(), ..self }
    }

    /// Whether the session may send `m` now: a `Start` while open and
    /// none has been sent, a move while active.
    pub open spec fn admits_out(self, m: MessageView) -> bool {
        match m {
            MessageView::Start(_) => self.stage is Open && !self.start_sent(),
            MessageView::Move(_) => self.state() is Active,
        }
    }

    /// Whether the session may receive `m` now: a `Start` while open and
    /// none has been received, a move while active.
    pub open spec fn admits_in(self, m: MessageView) -> bool {
        match m {
            MessageView::Start(_) => self.stage is Open && !self.start_received(),
            MessageView::Move(_) => self.state() is Active,
        }
    }

    /// The session once the `Start` of the given end has passed: the
    /// server's assigns the side, the client's is noted.
    pub open spec fn with_start(self, from: Role, is_white: bool) -> Link {
        match from {
            Role::Server => Link { color: Some(Color::of_flag(is_white)), ..self },
            Role::Client => Link { greeted: true, ..self },
        }
    }

    /// The session once it has sent `m`: its own `Start` is noted, and a
    /// move that is a signal closes it.
    pub open spec fn sent(self, m: MessageView) -> Link {
        match m {
            MessageView::Start(s) => self.with_start(self.role, s.is_white),
            MessageView::Move(mv) => if mv.is_signal() {
                self.shut()
            } else {
                self
            },
        }
    }

    /// The session once it has received `m`: the `Start` of the other
    /// end is noted.
    pub open spec fn got(self, m: MessageView) -> Link {
        match m {
            MessageView::Start(s) => self.with_start(self.peer(), s.is_white),
            MessageView::Move(_) => self,
        }
    }

    /// The other end.
    pub open spec fn peer(self) -> Role {
        match self.role {
            Role::Server => Role::Client,
            Role::Client => Role::Server,
        }
    }

    /// Why `m` cannot be sent now, if it cannot.
    pub open spec fn refusal(self, m: MessageView) -> Option<SendError> {
        if !(self.stage is Open) {
            Some(SendError::Closed)
        } else if !self.admits_out(m) {
            Some(SendError::UnexpectedMessage)
        } else if !encodable(m) {
            Some(SendError::TooLong)
        } else {
            None
        }
    }

    /// The session once the bytes of a read have come in.
    pub open spec fn fed(self, bytes: Seq<u8>) -> Link {
        if self.stage is Open {
            Link { held: self.held + bytes, ..self }
        } else {
            self
        }
    }

    /// The session once it has been asked for a message: a whole frame
    /// at the front of what it holds is taken off, and its message
    /// passes or, if the state does not allow it, closes the session; a
    /// malformed front closes the session; an incomplete one stays.
    pub open spec fn polled(self) -> Link {
        if !(self.stage is Open) {
            self
        } else {
            match parse(self.held) {
                Parsed::Complete { message, consumed } => if self.admits_in(message) {
                    (Link { held: left_by(self.held), ..self }).got(message)
                } else {
                    self.shut()
                },
                Parsed::Incomplete => self,
                Parsed::Malformed => self.shut(),
            }
        }
    }

    /// What the session says when asked for a message.
    pub open spec fn poll_says(self) -> Reception {
        if !(self.stage is Open) {
            Reception::Closed
        } else {
            match parse(self.held) {
                Parsed::Complete { message, consumed } => if self.admits_in(message) {
                    Reception::Message(message)
                } else {
                    Reception::Failed(Fault::UnexpectedMessage)
                },
                Parsed::Incomplete => Reception::Pending,
                Parsed::Malformed => Reception::Failed(Fault::MalformedFrame),
            }
        }
    }

    /// The session once it has been told of a read: bytes are taken in
    /// and a message is asked for; a read of no bytes is the end of the
    /// stream and closes the session, as a failed read does; a read that
    /// would block changes nothing, and no read changes a session that
    /// is not open.
    pub open spec fn received(self, read: Reading) -> Link {
        if !(self.stage is Open) {
            self
        } else {
            match read {
                Reading::Data(bytes) => if bytes.len() == 0 {
                    self.shut()
                } else {
                    self.fed(bytes).polled()
                },
                Reading::WouldBlock => self,
                Reading::Failed => self.shut(),
            }
        }
    }

    /// What the session says when told of a read.
    pub open spec fn receive_says(self, read: Reading) -> Reception {
        if !(self.stage is Open) {
            Reception::Closed
        } else {
            match read {
                Reading::Data(bytes) => if bytes.len() == 0 {
                    Reception::Eof
                } else {
                    self.fed(bytes).poll_says()
                },
                Reading::WouldBlock => Reception::WouldBlock,
                Reading::Failed => Reception::Failed(Fault::Io),
            }
        }
    }
}

/// One connection to a peer.
#[derive(Debug)]
pub struct Session {
    role: Role,
    stage: Stage,
    color: Option<Color>,
    greeted: bool,
    inbox: Accumulator,
}

impl View for Session {
    type V = Link;

    closed spec fn view(&self) -> Link {
        Link {
            role: self.role,
            stage: self.stage,
            color: self.color,
            greeted: self.greeted,
            held: self.inbox@,
        }
    }
}

impl Session {
    /// A session of the given end, before its stream is established.
    pub fn new(role: Role) -> (r: Session)
        ensures
            r@ == Link::fresh(role),
    {
        Session {
            role,
            stage: Stage::Connecting,
            color: None,
            greeted: false,
            inbox: Accumulator::new(),
        }
    }

    /// The end of the connection that this session is.
    pub fn role(&self) -> (r: Role)
        ensures
            r == self@.role,
    {
        self.role
    }

    /// The state of the session.
    pub fn state(&self) -> (r: SessionState)
        ensures
            r == self@.state(),
    {
        match self.stage {
            Stage::Connecting => SessionState::Connecting,
            Stage::Closed => SessionState::Closed,
            Stage::Open => if self.color.is_some() && self.greeted {
                SessionState::Active
            } else {
                SessionState::Handshaking
            },
        }
    }

    /// The side assigned, once the server's `Start` has passed.
    pub fn color(&self) -> (r: Option<Color>)
        ensures
            r == self@.color,
    {
        self.color
    }

    /// Whether the client's `Start` has passed.
    pub fn greeted(&self) -> (r: bool)
        ensures
            r == self@.greeted,
    {
        self.greeted
    }

    /// The number of bytes received that belong to no message yet.
    pub fn held(&self) -> (n: usize)
        ensures
            n == self@.held.len(),
    {
        self.inbox.len()
    }

    /// The stream is established: a connecting session begins its
    /// handshake. Any other session stays as it is.
    pub fn open(&mut self)
        ensures
            final(self)@ == old(self)@.opened(),
    {
        match self.stage {
            Stage::Connecting => {
                self.stage = Stage::Open;
            },
            _ => {},
        }
    }

    /// Closes the session. A closed session stays closed, so to close
    /// twice is to close once.
    pub fn close(&mut self)
        ensures
            final(self)@ == old(self)@.shut(),
            final(self)@.state() is Closed,
    {
        self.stage = Stage::Closed;
        self.inbox.clear();
    }

    fn start_sent(&self) -> (r: bool)
        ensures
            r == self@.start_sent(),
    {
        match self.role {
            Role::Server => self.color.is_some(),
            Role::Client => self.greeted,
        }
    }

    fn start_received(&self) -> (r: bool)
        ensures
            r == self@.start_received(),
    {
        match self.role {
            Role::Server => self.greeted,
            Role::Client => self.color.is_some(),
        }
    }

    fn is_open(&self) -> (r: bool)
        ensures
            r == (self@.stage is Open),
    {
        match self.stage {
            Stage::Open => true,
            _ => false,
        }
    }

    fn is_active(&self) -> (r: bool)
        ensures
            r == (self@.state() is Active),
    {
        self.is_open() && self.color.is_some() && self.greeted
    }

    /// Notes the `Start` that `from` has sent.
    fn note_start(&mut self, from: Role, is_white: bool)
        ensures
            final(self)@ == old(self)@.with_start(from, is_white),
    {
        match from {
            Role::Server => {
                self.color = Some(Color::from_is_white(is_white));
            },
            Role::Client => {
                self.greeted = true;
            },
        }
    }

    /// Gives the frame of `message` to write to the stream, whole, if
    /// the session may send it now.
    ///
    /// A `Start` may be sent once, while the session is open; a move
    /// while it is active. The server's `Start` assigns the side. A move
    /// that is a signal closes the session. Where the message is
    /// refused, the session stays as it was.
    pub fn send(&mut self, message: &Message) -> (r: Result<Vec<u8>, SendError>)
        ensures
            match r {
                Ok(frame) => {
                    &&& old(self)@.refusal(message@) is None
                    &&& frame@ == encoding(message@)
                    &&& final(self)@ == old(self)@.sent(message@)
                },
                Err(e) => old(self)@.refusal(message@) == Some(e) && final(self)@ == old(self)@,
            },
    {
        if !self.is_open() {
            return Err(SendError::Closed);
        }
        let admitted = match message {
            Message::Start(_) => !self.start_sent(),
            Message::Move(_) => self.is_active(),
        };
        if !admitted {
            return Err(SendError::UnexpectedMessage);
        }
        match encode(message) {
            Ok(frame) => {
                match message {
                    Message::Start(s) => {
                        self.note_start(self.role, s.is_white);
                    },
                    Message::Move(mv) => {
                        if mv.ends_game() {
                            self.close();
                        }
                    },
                }
                Ok(frame)
            },
            Err(_) => Err(SendError::TooLong),
        }
    }

    /// Takes in the bytes of one read. A session that is not open takes
    /// none.
    pub fn feed(&mut self, bytes: &[u8])
        ensures
            final(self)@ == old(self)@.fed(bytes@),
    {
        if self.is_open() {
            self.inbox.push(bytes);
        }
    }

    /// Gives out the next message, if a whole frame is held.
    ///
    /// `Pending` where the front of what is held breaks off inside a
    /// frame; `Failed` and the session closed where the front is no
    /// frame, or is a message that the state does not allow; `Closed`
    /// where the session is not open.
    pub fn poll(&mut self) -> (r: Received)
        ensures
            r@ == old(self)@.poll_says(),
            final(self)@ == old(self)@.polled(),
    {
        if !self.is_open() {
            return Received::Closed;
        }
        match self.inbox.take_frame() {
            Decoded::Incomplete => Received::Pending,
            Decoded::Malformed => {
                self.close();
                Received::Failed(Fault::MalformedFrame)
            },
            Decoded::Complete { message, consumed: _ } => {
                let admitted = match &message {
                    Message::Start(_) => !self.start_received(),
                    Message::Move(_) => self.is_active(),
                };
                if admitted {
                    match &message {
                        Message::Start(s) => {
                            let from = match self.role {
                                Role::Server => Role::Client,
                                Role::Client => Role::Server,
                            };
                            self.note_start(from, s.is_white);
                        },
                        Message::Move(_) => {},
                    }
                    Received::Message(message)
                } else {
                    self.close();
                    Received::Failed(Fault::UnexpectedMessage)
                }
            },
        }
    }

    /// Says what a read means to the session.
    ///
    /// Bytes are taken in and the next message is asked for, as `poll`
    /// does. A read of no bytes is the end of the stream and closes the
    /// session, and so does a failed read. A read that would block
    /// changes nothing. A session that is not open says `Closed`.
    pub fn receive(&mut self, read: ReadOutcome<'_>) -> (r: Received)
        ensures
            r@ == old(self)@.receive_says(read@),
            final(self)@ == old(self)@.received(read@),
    {
        if !self.is_open() {
            return Received::Closed;
        }
        match read {
            ReadOutcome::Data(bytes) => {
                if bytes.len() == 0 {
                    self.close();
                    Received::Eof
                } else {
                    self.feed(bytes);
                    self.poll()
                }
            },
            ReadOutcome::WouldBlock => Received::WouldBlock,
            ReadOutcome::Failed => {
                self.close();
                Received::Failed(Fault::Io)
            },
        }
    }
}

/// To close is idempotent: a session closed twice is as one closed once,
/// and a closed session gives nothing out, sends nothing, takes no bytes
/// in and cannot be opened again.
pub proof fn lemma_close_idempotent(l: Link, m: MessageView, read: Reading)
    ensures
        l.shut().shut() == l.shut(),
        l.shut().state() is Closed,
        l.shut().opened() == l.shut(),
        l.shut().received(read) == l.shut(),
        l.shut().receive_says(read) is Closed,
        l.shut().polled() == l.shut(),
        l.shut().poll_says() is Closed,
        l.shut().refusal(m) == Some(SendError::Closed),
{
}

/// An open session that holds nothing and is told of a read that brought
/// the frame of a message, whole, gives that message out and holds
/// nothing afterwards, if its state allows the message; if not, it fails
/// and is closed.
pub proof fn lemma_whole_frame_is_received(l: Link, m: MessageView)
    requires
        l.stage is Open,
        l.held == Seq::<u8>::empty(),
        on_board(m),
        encodable(m),
    ensures
        l.receive_says(Reading::Data(encoding(m))) == (if l.admits_in(m) {
            Reception::Message(m)
        } else {
            Reception::Failed(Fault::UnexpectedMessage)
        }),
        l.received(Reading::Data(encoding(m))) == (if l.admits_in(m) {
            l.got(m)
        } else {
            l.shut()
        }),
{
    let frame = encoding(m);
    lemma_decode_encode(m, Seq::empty());
    assert(frame + Seq::<u8>::empty() =~= frame);
    assert(l.held + frame =~= frame);
    assert(frame.skip(frame.len() as int) =~= Seq::<u8>::empty());
    assert(l.fed(frame).held == frame);
    assert((Link { held: left_by(frame), ..l.fed(frame) }) == l);
}

/// A session lets a move pass, in or out, only once both `Start`
/// messages have passed, and it lets no second `Start` in or out.
pub proof fn lemma_start_before_moves(l: Link, m: MessageView)
    ensures
        m is Move && (l.admits_in(m) || l.admits_out(m)) ==> l.start_sent() && l.start_received()
            && l.color is Some,
        m is Start && l.start_received() ==> !l.admits_in(m),
        m is Start && l.start_sent() ==> !l.admits_out(m),
        m is Start && l.admits_in(m) ==> l.got(m).start_received(),
        m is Start && l.admits_out(m) ==> l.sent(m).start_sent(),
{
}

} // verus!
