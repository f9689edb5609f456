use chess_relay::arbiter::{Outcome, Rejection, TurnArbiter, Verdict};
use chess_relay::message::{Color, Move, Position};

fn arbiter_step(x: u8) -> Move {
    Move::step(Position::new(x, 1).unwrap(), Position::new(x, 2).unwrap())
}

fn arbiter_signal(forfeit: bool, offer_draw: bool) -> Move {
    Move { forfeit, offer_draw, ..arbiter_step(0) }
}

#[test]
fn white_moves_first() {
    let arbiter = TurnArbiter::new();
    assert_eq!(arbiter.turn(), Color::White);
    assert_eq!(arbiter.outcome(), None);
    assert!(arbiter.expects(Color::White));
    assert!(!arbiter.expects(Color::Black));
}

#[test]
fn accepted_move_passes_the_turn() {
    let mut arbiter = TurnArbiter::new();
    assert_eq!(arbiter.try_accept(&arbiter_step(4), Color::White), Verdict::Accepted);
    assert_eq!(arbiter.turn(), Color::Black);
    assert_eq!(arbiter.try_accept(&arbiter_step(4), Color::Black), Verdict::Accepted);
    assert_eq!(arbiter.turn(), Color::White);
}

#[test]
fn move_out_of_turn_is_rejected_and_changes_nothing() {
    let mut arbiter = TurnArbiter::new();
    let before = arbiter;
    assert_eq!(
        arbiter.try_accept(&arbiter_step(4), Color::Black),
        Verdict::Rejected(Rejection::WrongTurn)
    );
    assert_eq!(arbiter, before);
    assert_eq!(arbiter.try_accept(&arbiter_step(4), Color::White), Verdict::Accepted);
    let before = arbiter;
    assert_eq!(
        arbiter.try_accept(&arbiter_step(3), Color::White),
        Verdict::Rejected(Rejection::WrongTurn)
    );
    assert_eq!(arbiter, before);
}

#[test]
fn alternating_moves_are_all_accepted() {
    let mut arbiter = TurnArbiter::new();
    for i in 0..100u32 {
        let mover = if i % 2 == 0 { Color::White } else { Color::Black };
        assert_eq!(arbiter.turn(), mover);
        assert_eq!(arbiter.try_accept(&arbiter_step((i % 8) as u8), mover), Verdict::Accepted);
    }
    assert_eq!(arbiter.turn(), Color::White);
}

#[test]
fn accepted_exactly_when_the_mover_is_expected() {
    let movers = [
        Color::Black,
        Color::White,
        Color::White,
        Color::Black,
        Color::Black,
        Color::Black,
        Color::White,
    ];
    let mut arbiter = TurnArbiter::new();
    let mut accepted = 0u32;
    for mover in movers {
        let expected = if accepted % 2 == 0 { Color::White } else { Color::Black };
        let verdict = arbiter.try_accept(&arbiter_step(1), mover);
        if mover == expected {
            assert_eq!(verdict, Verdict::Accepted);
            accepted += 1;
        } else {
            assert_eq!(verdict, Verdict::Rejected(Rejection::WrongTurn));
        }
    }
    assert_eq!(accepted, 3);
}

#[test]
fn forfeit_in_turn_ends_the_game_without_passing_the_turn() {
    let mut arbiter = TurnArbiter::new();
    let outcome = Outcome::Forfeit { by: Color::White };
    assert_eq!(arbiter.try_accept(&arbiter_signal(true, false), Color::White), Verdict::Ended(outcome));
    assert_eq!(arbiter.turn(), Color::White);
    assert_eq!(arbiter.outcome(), Some(outcome));
    assert!(!arbiter.expects(Color::White));
}

#[test]
fn draw_offer_in_turn_ends_the_game() {
    let mut arbiter = TurnArbiter::new();
    assert_eq!(arbiter.try_accept(&arbiter_step(0), Color::White), Verdict::Accepted);
    let outcome = Outcome::DrawOffered { by: Color::Black };
    assert_eq!(arbiter.try_accept(&arbiter_signal(false, true), Color::Black), Verdict::Ended(outcome));
    assert_eq!(arbiter.turn(), Color::Black);
    assert_eq!(arbiter.outcome(), Some(outcome));
}

#[test]
fn forfeit_goes_before_draw_offer() {
    let mut arbiter = TurnArbiter::new();
    assert_eq!(
        arbiter.try_accept(&arbiter_signal(true, true), Color::White),
        Verdict::Ended(Outcome::Forfeit { by: Color::White })
    );
}

#[test]
fn signal_out_of_turn_is_rejected() {
    let mut arbiter = TurnArbiter::new();
    assert_eq!(
        arbiter.try_accept(&arbiter_signal(true, false), Color::Black),
        Verdict::Rejected(Rejection::WrongTurn)
    );
    assert_eq!(arbiter.outcome(), None);
}

#[test]
fn nothing_is_accepted_after_the_end() {
    let mut arbiter = TurnArbiter::new();
    arbiter.try_accept(&arbiter_signal(true, false), Color::White);
    let before = arbiter;
    for mover in [Color::White, Color::Black] {
        assert_eq!(
            arbiter.try_accept(&arbiter_step(0), mover),
            Verdict::Rejected(Rejection::GameOver)
        );
        assert_eq!(
            arbiter.try_accept(&arbiter_signal(true, false), mover),
            Verdict::Rejected(Rejection::GameOver)
        );
    }
    assert_eq!(arbiter, before);
}

#[test]
fn abandon_ends_the_game_once() {
    let mut arbiter = TurnArbiter::new();
    arbiter.abandon(Color::Black);
    assert_eq!(arbiter.outcome(), Some(Outcome::Abandoned { by: Color::Black }));
    arbiter.abandon(Color::White);
    assert_eq!(arbiter.outcome(), Some(Outcome::Abandoned { by: Color::Black }));
    assert_eq!(arbiter.turn(), Color::White);
}

#[test]
fn colours_are_each_other_s_opponents() {
    assert_eq!(Color::White.opponent(), Color::Black);
    assert_eq!(Color::Black.opponent(), Color::White);
    assert_eq!(Color::from_is_white(true), Color::White);
    assert_eq!(Color::from_is_white(false), Color::Black);
    assert!(Color::White.is_white());
    assert!(!Color::Black.is_white());
}

#[test]
fn signals_are_told_from_moves() {
    assert!(!arbiter_step(0).ends_game());
    assert!(arbiter_signal(true, false).ends_game());
    assert!(arbiter_signal(false, true).ends_game());
    let resign = Move::resign();
    assert!(resign.forfeit && !resign.offer_draw);
    assert_eq!(resign.from, Position::new(0, 0).unwrap());
    assert_eq!(resign.to, Position::new(0, 0).unwrap());
    assert_eq!(resign.promotion, None);
}
