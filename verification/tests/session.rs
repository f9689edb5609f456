use chess_relay::message::{Color, Message, Move, Position, Start};
use chess_relay::session::{
    Fault, ReadOutcome, Received, Role, SendError, Session, SessionState,
};
use chess_relay::wire::codec::{encode, encode_move};

fn session_start(is_white: bool) -> Message {
    Message::Start(Start { is_white, name: None, fen: None, time: None, inc: None })
}

fn session_step() -> Move {
    Move::step(Position::new(4, 1).unwrap(), Position::new(4, 3).unwrap())
}

fn session_active_client(is_white: bool) -> Session {
    let mut s = Session::new(Role::Client);
    s.open();
    s.send(&session_start(true)).unwrap();
    s.feed(&encode(&session_start(is_white)).unwrap());
    assert_eq!(s.poll(), Received::Message(session_start(is_white)));
    s
}

#[test]
fn session_begins_connecting() {
    let s = Session::new(Role::Client);
    assert_eq!(s.state(), SessionState::Connecting);
    assert_eq!(s.role(), Role::Client);
    assert_eq!(s.color(), None);
    assert_eq!(s.held(), 0);
    assert!(!s.greeted());
}

#[test]
fn open_begins_the_handshake() {
    let mut s = Session::new(Role::Server);
    s.open();
    assert_eq!(s.state(), SessionState::Handshaking);
    s.open();
    assert_eq!(s.state(), SessionState::Handshaking);
}

#[test]
fn client_handshake_ends_active_with_the_assigned_side() {
    let mut s = Session::new(Role::Client);
    s.open();
    let frame = s.send(&session_start(true)).unwrap();
    assert_eq!(frame, encode(&session_start(true)).unwrap());
    assert_eq!(s.state(), SessionState::Handshaking);
    assert_eq!(s.color(), None);
    s.feed(&encode(&session_start(false)).unwrap());
    assert_eq!(s.poll(), Received::Message(session_start(false)));
    assert_eq!(s.state(), SessionState::Active);
    assert_eq!(s.color(), Some(Color::Black));
}

#[test]
fn server_handshake_ends_active_with_the_assigned_side() {
    let mut s = Session::new(Role::Server);
    s.open();
    s.feed(&encode(&session_start(false)).unwrap());
    assert_eq!(s.poll(), Received::Message(session_start(false)));
    assert!(s.greeted());
    assert_eq!(s.color(), None);
    assert_eq!(s.state(), SessionState::Handshaking);
    s.send(&session_start(true)).unwrap();
    assert_eq!(s.color(), Some(Color::White));
    assert_eq!(s.state(), SessionState::Active);
}

#[test]
fn nothing_is_sent_before_the_stream_is_there() {
    let mut s = Session::new(Role::Client);
    assert_eq!(s.send(&session_start(true)), Err(SendError::Closed));
    assert_eq!(s.send(&Message::Move(session_step())), Err(SendError::Closed));
    assert_eq!(s.state(), SessionState::Connecting);
}

#[test]
fn move_is_not_sent_before_the_handshake_is_complete() {
    let mut s = Session::new(Role::Client);
    s.open();
    assert_eq!(s.send(&Message::Move(session_step())), Err(SendError::UnexpectedMessage));
    s.send(&session_start(true)).unwrap();
    assert_eq!(s.send(&Message::Move(session_step())), Err(SendError::UnexpectedMessage));
    assert_eq!(s.state(), SessionState::Handshaking);
}

#[test]
fn start_is_sent_once() {
    let mut s = Session::new(Role::Client);
    s.open();
    s.send(&session_start(true)).unwrap();
    assert_eq!(s.send(&session_start(true)), Err(SendError::UnexpectedMessage));
    let mut s = session_active_client(true);
    assert_eq!(s.send(&session_start(true)), Err(SendError::UnexpectedMessage));
    assert_eq!(s.state(), SessionState::Active);
}

#[test]
fn move_received_before_the_handshake_closes_the_session() {
    let mut s = Session::new(Role::Client);
    s.open();
    s.feed(&encode_move(&session_step()));
    assert_eq!(s.poll(), Received::Failed(Fault::UnexpectedMessage));
    assert_eq!(s.state(), SessionState::Closed);
    assert_eq!(s.held(), 0);
}

#[test]
fn second_start_received_closes_the_session() {
    let mut s = session_active_client(true);
    s.feed(&encode(&session_start(true)).unwrap());
    assert_eq!(s.poll(), Received::Failed(Fault::UnexpectedMessage));
    assert_eq!(s.state(), SessionState::Closed);
}

#[test]
fn malformed_frame_closes_the_session() {
    let mut s = session_active_client(true);
    s.feed(&[2, 7, 0, 0, 0, 9, 1, 4, 3, 0, 0, 0]);
    assert_eq!(s.poll(), Received::Failed(Fault::MalformedFrame));
    assert_eq!(s.state(), SessionState::Closed);
    let mut s = session_active_client(true);
    assert_eq!(s.receive(ReadOutcome::Data(&[77])), Received::Failed(Fault::MalformedFrame));
    assert_eq!(s.state(), SessionState::Closed);
}

#[test]
fn moves_flow_both_ways_when_active() {
    let mut s = session_active_client(true);
    let m = session_step();
    assert_eq!(s.send(&Message::Move(m)).unwrap(), encode_move(&m));
    assert_eq!(s.receive(ReadOutcome::Data(&encode_move(&m))), Received::Message(Message::Move(m)));
    assert_eq!(s.state(), SessionState::Active);
    assert_eq!(s.held(), 0);
}

#[test]
fn partial_reads_are_put_together() {
    let mut s = session_active_client(false);
    let m = session_step();
    let frame = encode_move(&m);
    assert_eq!(s.receive(ReadOutcome::Data(&frame[..3])), Received::Pending);
    assert_eq!(s.held(), 3);
    assert_eq!(s.receive(ReadOutcome::Data(&frame[3..11])), Received::Pending);
    assert_eq!(s.receive(ReadOutcome::WouldBlock), Received::WouldBlock);
    assert_eq!(s.held(), 11);
    assert_eq!(s.receive(ReadOutcome::Data(&frame[11..])), Received::Message(Message::Move(m)));
    assert_eq!(s.held(), 0);
}

#[test]
fn two_frames_in_one_read_come_out_one_by_one() {
    let mut s = Session::new(Role::Client);
    s.open();
    s.send(&session_start(true)).unwrap();
    let m = session_step();
    let mut bytes = encode(&session_start(true)).unwrap();
    bytes.extend_from_slice(&encode_move(&m));
    assert_eq!(s.receive(ReadOutcome::Data(&bytes)), Received::Message(session_start(true)));
    assert_eq!(s.held(), 12);
    assert_eq!(s.poll(), Received::Message(Message::Move(m)));
    assert_eq!(s.poll(), Received::Pending);
}

#[test]
fn would_block_is_not_the_end_of_the_stream() {
    let mut s = session_active_client(true);
    assert_eq!(s.receive(ReadOutcome::WouldBlock), Received::WouldBlock);
    assert_eq!(s.state(), SessionState::Active);
    assert_eq!(s.receive(ReadOutcome::Data(&[])), Received::Eof);
    assert_eq!(s.state(), SessionState::Closed);
}

#[test]
fn failed_read_closes_the_session() {
    let mut s = session_active_client(true);
    assert_eq!(s.receive(ReadOutcome::Failed), Received::Failed(Fault::Io));
    assert_eq!(s.state(), SessionState::Closed);
}

#[test]
fn sending_a_forfeit_closes_the_session() {
    let mut s = session_active_client(true);
    let frame = s.send(&Message::Move(Move::resign())).unwrap();
    assert_eq!(frame, vec![2, 7, 0, 0, 0, 0, 0, 0, 0, 0, 1, 0]);
    assert_eq!(s.state(), SessionState::Closed);
    assert_eq!(s.send(&Message::Move(session_step())), Err(SendError::Closed));
}

#[test]
fn receiving_a_forfeit_leaves_the_session_to_its_owner() {
    let mut s = session_active_client(true);
    let forfeit = Move::resign();
    assert_eq!(
        s.receive(ReadOutcome::Data(&encode_move(&forfeit))),
        Received::Message(Message::Move(forfeit))
    );
    assert_eq!(s.state(), SessionState::Active);
}

#[test]
fn close_twice_is_close_once() {
    let mut once = session_active_client(true);
    once.feed(&[2, 7]);
    once.close();
    let mut twice = session_active_client(true);
    twice.feed(&[2, 7]);
    twice.close();
    twice.close();
    for s in [&mut once, &mut twice] {
        assert_eq!(s.state(), SessionState::Closed);
        assert_eq!(s.color(), Some(Color::White));
        assert_eq!(s.held(), 0);
        assert_eq!(s.poll(), Received::Closed);
        assert_eq!(s.receive(ReadOutcome::Data(&[1, 2, 3])), Received::Closed);
        assert_eq!(s.receive(ReadOutcome::Data(&[])), Received::Closed);
        assert_eq!(s.receive(ReadOutcome::WouldBlock), Received::Closed);
        assert_eq!(s.receive(ReadOutcome::Failed), Received::Closed);
        assert_eq!(s.send(&Message::Move(session_step())), Err(SendError::Closed));
        assert_eq!(s.held(), 0);
        s.open();
        assert_eq!(s.state(), SessionState::Closed);
    }
}

#[test]
fn closed_session_takes_no_bytes() {
    let mut s = Session::new(Role::Client);
    s.feed(&[1, 2, 3]);
    assert_eq!(s.held(), 0);
    assert_eq!(s.poll(), Received::Closed);
    s.close();
    s.feed(&[1, 2, 3]);
    assert_eq!(s.held(), 0);
}
