//! The values that travel between the peers.

use vstd::prelude::*;

verus! {

/// One of the two sides of a game.
#[derive(Clone, Copy, Debug, PartialEq, Eq, Structural)]
pub enum Color {
    White,
    Black,
}

impl Color {
    /// The other side.
    pub open spec fn other(self) -> Color {
        match self {
            Color::White => Color::Black,
            Color::Black => Color::White,
        }
    }

    /// The other side.
    pub fn opponent(self) -> (r: Color)
        ensures
            r == self.other(),
    {
        match self {
            Color::White => Color::Black,
            Color::Black => Color::White,
        }
    }

    /// The side that a `Start` with this `is_white` assigns.
    pub open spec fn of_flag(is_white: bool) -> Color {
        if is_white {
            Color::White
        } else {
            Color::Black
        }
    }

    /// The side that a `Start` with this `is_white` assigns.
    pub fn from_is_white(is_white: bool) -> (r: Color)
        ensures
            r == Color::of_flag(is_white),
    {
        if is_white {
            Color::White
        } else {
            Color::Black
        }
    }

    /// Whether this is the white side.
    pub fn is_white(self) -> (r: bool)
        ensures
            r == (self == Color::White),
            Color::of_flag(r) == self,
    {
        match self {
            Color::White => true,
            Color::Black => false,
        }
    }
}

/// The kind of a piece.
#[derive(Clone, Copy, Debug, PartialEq, Eq, Structural)]
pub enum PieceKind {
    Pawn,
    Knight,
    Bishop,
    Rook,
    Queen,
    King,
}

/// A square of the board: file `x` and rank `y`, both counted from 0 and
/// both at most 7. A value of this type always lies on the board.
#[derive(Clone, Copy, Debug, PartialEq, Eq, Structural)]
pub struct Position {
    pub(crate) x: u8,
    pub(crate) y: u8,
}

impl Position {
    /// The file of the square.
    pub open(crate) spec fn spec_x(&self) -> u8 {
        self.x
    }

    /// The rank of the square.
    pub open(crate) spec fn spec_y(&self) -> u8 {
        self.y
    }

    /// The square with the given file and rank.
    pub open(crate) spec fn at(x: u8, y: u8) -> Position {
        Position { x, y }
    }

    /// Both coordinates lie on the board.
    pub open spec fn on_board(self) -> bool {
        self.x() <= 7 && self.y() <= 7
    }

    #[verifier::type_invariant]
    pub(crate) open spec fn inv(self) -> bool {
        self.on_board()
    }

    /// The square with the given file and rank, if it lies on the board.
    pub fn new(x: u8, y: u8) -> (r: Option<Position>)
        ensures
            r is Some <==> x <= 7 && y <= 7,
            r is Some ==> r->0 == Position::at(x, y),
    {
        if x <= 7 && y <= 7 {
            Some(Position { x, y })
        } else {
            None
        }
    }

    /// The file of the square.
    #[verifier::when_used_as_spec(spec_x)]
    pub fn x(&self) -> (r: u8)
        ensures
            r == self.x(),
            r <= 7,
    {
        proof {
            use_type_invariant(self);
        }
        self.x
    }

    /// The rank of the square.
    #[verifier::when_used_as_spec(spec_y)]
    pub fn y(&self) -> (r: u8)
        ensures
            r == self.y(),
            r <= 7,
    {
        proof {
            use_type_invariant(self);
        }
        self.y
    }
}

/// One ply, or a signal that ends the game.
///
/// A move with `forfeit` or `offer_draw` set has no effect on the board.
#[derive(Clone, Copy, Debug, PartialEq, Eq, Structural)]
pub struct Move {
    pub from: Position,
    pub to: Position,
    pub promotion: Option<PieceKind>,
    pub forfeit: bool,
    pub offer_draw: bool,
}

impl Move {
    /// Both squares lie on the board.
    pub open spec fn on_board(self) -> bool {
        self.from.on_board() && self.to.on_board()
    }

    /// The move carries one of the two signals that end the game.
    pub open spec fn is_signal(self) -> bool {
        self.forfeit || self.offer_draw
    }

    /// The forfeit that stands for a player who is gone.
    pub open spec fn resignation() -> Move {
        Move {
            from: Position::at(0, 0),
            to: Position::at(0, 0),
            promotion: None,
            forfeit: true,
            offer_draw: false,
        }
    }

    /// A move of a piece, without promotion and without a signal.
    pub fn step(from: Position, to: Position) -> (r: Move)
        ensures
            r == (Move { from, to, promotion: None, forfeit: false, offer_draw: false }),
    {
        Move { from, to, promotion: None, forfeit: false, offer_draw: false }
    }

    /// The forfeit that stands for a player who is gone.
    pub fn resign() -> (r: Move)
        ensures
            r == Move::resignation(),
    {
        let origin = Position { x: 0, y: 0 };
        Move { from: origin, to: origin, promotion: None, forfeit: true, offer_draw: false }
    }

    /// Whether the move carries one of the two signals that end the game.
    pub fn ends_game(&self) -> (r: bool)
        ensures
            r == self.is_signal(),
    {
        self.forfeit || self.offer_draw
    }
}

/// The handshake message: the side assigned to the receiver and the
/// parameters of the game. Clocks are in milliseconds; an absent `fen`,
/// `time` or `inc` stands for the standard start without a clock.
#[derive(Clone, Debug, PartialEq, Eq)]
pub struct Start {
    pub is_white: bool,
    pub name: Option<String>,
    pub fen: Option<String>,
    pub time: Option<u32>,
    pub inc: Option<u32>,
}

/// What a `Start` holds, with its texts as sequences of characters.
pub struct StartView {
    pub is_white: bool,
    pub name: Option<Seq<char>>,
    pub fen: Option<Seq<char>>,
    pub time: Option<u32>,
    pub inc: Option<u32>,
}

/// The characters of an optional text.
pub open spec fn text_view(t: Option<String>) -> Option<Seq<char>> {
    match t {
        Some(s) => Some(s@),
        None => None,
    }
}

impl View for Start {
    type V = StartView;

    open spec fn view(&self) -> StartView {
        StartView {
            is_white: self.is_white,
            name: text_view(self.name),
            fen: text_view(self.fen),
            time: self.time,
            inc: self.inc,
        }
    }
}

/// One of the two kinds of message.
#[derive(Clone, Debug, PartialEq, Eq)]
pub enum Message {
    Start(Start),
    Move(Move),
}

/// What a `Message` holds.
pub enum MessageView {
    Start(StartView),
    Move(Move),
}

impl View for Message {
    type V = MessageView;

    open spec fn view(&self) -> MessageView {
        match self {
            Message::Start(s) => MessageView::Start(s@),
            Message::Move(m) => MessageView::Move(*m),
        }
    }
}

} // verus!
