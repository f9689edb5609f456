use chess_relay::message::{Message, Move, PieceKind, Position, Start};
use chess_relay::wire::accumulator::Accumulator;
use chess_relay::wire::codec::{
    code_of_kind, decode, decode_move, decode_start, encode, encode_move, encode_start, kind_of,
    Decoded,
};
use chess_relay::wire::endian::{get_le32, get_le64, put_bytes, put_le32, put_le64};
use chess_relay::wire::format::{HEADER_LEN, TAG_MOVE, TAG_START};

fn wire_square(x: u8, y: u8) -> Position {
    Position::new(x, y).unwrap()
}

fn wire_pawn_push() -> Move {
    Move::step(wire_square(4, 1), wire_square(4, 3))
}

fn wire_full_start() -> Start {
    Start {
        is_white: false,
        name: Some("Zoë".to_string()),
        fen: Some("8/8/8/8/8/8/8/K6k w - - 0 1".to_string()),
        time: Some(300_000),
        inc: Some(2_000),
    }
}

fn wire_bare_start() -> Start {
    Start { is_white: true, name: None, fen: None, time: None, inc: None }
}

fn wire_all_kinds() -> Vec<PieceKind> {
    vec![
        PieceKind::Pawn,
        PieceKind::Knight,
        PieceKind::Bishop,
        PieceKind::Rook,
        PieceKind::Queen,
        PieceKind::King,
    ]
}

#[test]
fn le32_is_lowest_byte_first() {
    let mut out = vec![9u8];
    put_le32(&mut out, 0x0403_0201);
    assert_eq!(out, vec![9, 1, 2, 3, 4]);
    assert_eq!(get_le32(&out, 1), 0x0403_0201);
}

#[test]
fn le32_holds_the_extremes() {
    for x in [0u32, 1, 255, 256, 65_535, 65_536, 300_000, u32::MAX] {
        let mut out = Vec::new();
        put_le32(&mut out, x);
        assert_eq!(out, x.to_le_bytes().to_vec());
        assert_eq!(get_le32(&out, 0), x);
    }
}

#[test]
fn le64_is_lowest_byte_first() {
    let mut out = Vec::new();
    put_le64(&mut out, 0x0807_0605_0403_0201);
    assert_eq!(out, vec![1, 2, 3, 4, 5, 6, 7, 8]);
    assert_eq!(get_le64(&out, 0), 0x0807_0605_0403_0201);
}

#[test]
fn le64_holds_the_extremes() {
    for x in [0u64, 1, 0xffff_ffff, 0x1_0000_0000, u64::MAX] {
        let mut out = vec![7u8, 7];
        put_le64(&mut out, x);
        assert_eq!(out[2..].to_vec(), x.to_le_bytes().to_vec());
        assert_eq!(get_le64(&out, 2), x);
    }
}

#[test]
fn put_bytes_appends() {
    let mut out = vec![1u8, 2];
    put_bytes(&mut out, &[3, 4, 5]);
    put_bytes(&mut out, &[]);
    assert_eq!(out, vec![1, 2, 3, 4, 5]);
}

#[test]
fn kind_codes_are_zero_to_five() {
    let codes: Vec<u8> = wire_all_kinds().into_iter().map(code_of_kind).collect();
    assert_eq!(codes, vec![0, 1, 2, 3, 4, 5]);
    for kind in wire_all_kinds() {
        assert_eq!(kind_of(code_of_kind(kind)), Some(kind));
    }
    assert_eq!(kind_of(6), None);
    assert_eq!(kind_of(255), None);
}

#[test]
fn move_frame_is_tag_length_payload() {
    let frame = encode_move(&wire_pawn_push());
    assert_eq!(frame, vec![TAG_MOVE, 7, 0, 0, 0, 4, 1, 4, 3, 0, 0, 0]);
    assert_eq!(frame.len(), HEADER_LEN + 7);
}

#[test]
fn move_frame_with_promotion_and_signals() {
    let m = Move {
        from: wire_square(0, 6),
        to: wire_square(1, 7),
        promotion: Some(PieceKind::Queen),
        forfeit: true,
        offer_draw: true,
    };
    assert_eq!(encode_move(&m), vec![2, 8, 0, 0, 0, 0, 6, 1, 7, 1, 4, 1, 1]);
}

#[test]
fn bare_start_frame_is_five_payload_bytes() {
    let frame = encode_start(&wire_bare_start()).unwrap();
    assert_eq!(frame, vec![TAG_START, 5, 0, 0, 0, 1, 0, 0, 0, 0]);
}

#[test]
fn start_frame_lays_out_every_field() {
    let start = Start {
        is_white: false,
        name: Some("Al".to_string()),
        fen: None,
        time: Some(300_000),
        inc: Some(1),
    };
    let frame = encode_start(&start).unwrap();
    let expected: Vec<u8> = vec![
        1, 23, 0, 0, 0, // tag and length
        0, // is_white
        1, 2, 0, 0, 0, 0, 0, 0, 0, b'A', b'l', // name
        0, // fen
        1, 0xe0, 0x93, 0x04, 0x00, // time
        1, 1, 0, 0, 0, // inc
    ];
    assert_eq!(frame, expected);
}

#[test]
fn text_is_written_as_utf8() {
    let start = Start {
        is_white: true,
        name: Some("ë".to_string()),
        fen: None,
        time: None,
        inc: None,
    };
    let frame = encode_start(&start).unwrap();
    assert_eq!(frame, vec![1, 15, 0, 0, 0, 1, 1, 2, 0, 0, 0, 0, 0, 0, 0, 0xc3, 0xab, 0, 0, 0]);
}

#[test]
fn encode_picks_the_tag_by_kind() {
    let m = wire_pawn_push();
    assert_eq!(encode(&Message::Move(m)).unwrap(), encode_move(&m));
    let s = wire_full_start();
    assert_eq!(encode(&Message::Start(s.clone())).unwrap(), encode_start(&s).unwrap());
    assert_eq!(encode(&Message::Start(s)).unwrap()[0], TAG_START);
}

#[test]
fn move_round_trip() {
    let m = wire_pawn_push();
    let frame = encode_move(&m);
    assert_eq!(
        decode(&frame),
        Decoded::Complete { message: Message::Move(m), consumed: frame.len() }
    );
}

#[test]
fn move_round_trip_over_every_field() {
    let mut promotions: Vec<Option<PieceKind>> = vec![None];
    promotions.extend(wire_all_kinds().into_iter().map(Some));
    for x in 0..8u8 {
        for y in 0..8u8 {
            for promotion in promotions.iter() {
                for flags in 0..4u8 {
                    let m = Move {
                        from: wire_square(x, y),
                        to: wire_square(7 - y, x),
                        promotion: *promotion,
                        forfeit: flags & 1 == 1,
                        offer_draw: flags & 2 == 2,
                    };
                    let frame = encode_move(&m);
                    assert_eq!(
                        decode(&frame),
                        Decoded::Complete { message: Message::Move(m), consumed: frame.len() }
                    );
                }
            }
        }
    }
}

#[test]
fn start_round_trip_all_absent() {
    let s = wire_bare_start();
    let frame = encode_start(&s).unwrap();
    assert_eq!(
        decode(&frame),
        Decoded::Complete { message: Message::Start(s), consumed: frame.len() }
    );
}

#[test]
fn start_round_trip_all_present() {
    let s = wire_full_start();
    let frame = encode_start(&s).unwrap();
    assert_eq!(
        decode(&frame),
        Decoded::Complete { message: Message::Start(s), consumed: frame.len() }
    );
}

#[test]
fn start_round_trip_with_empty_and_long_texts() {
    let s = Start {
        is_white: true,
        name: Some(String::new()),
        fen: Some("x".repeat(70_000)),
        time: Some(0),
        inc: Some(u32::MAX),
    };
    let frame = encode_start(&s).unwrap();
    assert_eq!(frame.len(), 5 + 1 + 9 + 9 + 70_000 + 5 + 5);
    assert_eq!(
        decode(&frame),
        Decoded::Complete { message: Message::Start(s), consumed: frame.len() }
    );
}

#[test]
fn payload_readers_invert_the_writers() {
    let m = wire_pawn_push();
    let frame = encode_move(&m);
    assert_eq!(decode_move(&frame[HEADER_LEN..]), Some(m));
    let s = wire_full_start();
    let frame = encode_start(&s).unwrap();
    assert_eq!(decode_start(&frame[HEADER_LEN..]), Some(s));
}

#[test]
fn decode_leaves_what_follows_the_frame() {
    let m = wire_pawn_push();
    let mut bytes = encode_move(&m);
    let n = bytes.len();
    bytes.extend_from_slice(&[1, 99, 99]);
    assert_eq!(decode(&bytes), Decoded::Complete { message: Message::Move(m), consumed: n });
}

#[test]
fn nothing_is_incomplete() {
    assert_eq!(decode(&[]), Decoded::Incomplete);
}

#[test]
fn every_proper_prefix_is_incomplete() {
    let frames = vec![
        encode_move(&wire_pawn_push()),
        encode_start(&wire_bare_start()).unwrap(),
        encode_start(&wire_full_start()).unwrap(),
    ];
    for frame in frames {
        for k in 0..frame.len() {
            assert_eq!(decode(&frame[..k]), Decoded::Incomplete);
        }
    }
}

#[test]
fn unknown_tag_is_malformed_at_once() {
    assert_eq!(decode(&[0]), Decoded::Malformed);
    assert_eq!(decode(&[3]), Decoded::Malformed);
    assert_eq!(decode(&[255, 7, 0, 0, 0, 4, 1, 4, 3, 0, 0, 0]), Decoded::Malformed);
}

#[test]
fn position_off_the_board_is_refused_at_decode() {
    for at in 5..9 {
        for bad in [8u8, 9, 100, 255] {
            let mut frame = encode_move(&wire_pawn_push());
            frame[at] = bad;
            assert_eq!(decode(&frame), Decoded::Malformed);
        }
        let mut frame = encode_move(&wire_pawn_push());
        frame[at] = 7;
        assert!(matches!(decode(&frame), Decoded::Complete { .. }));
    }
}

#[test]
fn position_is_made_only_on_the_board() {
    assert!(Position::new(0, 0).is_some());
    assert!(Position::new(7, 7).is_some());
    assert_eq!(Position::new(8, 0), None);
    assert_eq!(Position::new(0, 8), None);
    assert_eq!(Position::new(255, 255), None);
    let p = Position::new(3, 5).unwrap();
    assert_eq!((p.x(), p.y()), (3, 5));
}

#[test]
fn bad_flag_is_malformed() {
    let mut frame = encode_move(&wire_pawn_push());
    frame[10] = 2;
    assert_eq!(decode(&frame), Decoded::Malformed);
    let mut frame = encode_move(&wire_pawn_push());
    frame[11] = 2;
    assert_eq!(decode(&frame), Decoded::Malformed);
    let mut frame = encode_start(&wire_bare_start()).unwrap();
    frame[5] = 7;
    assert_eq!(decode(&frame), Decoded::Malformed);
}

#[test]
fn bad_presence_byte_is_malformed() {
    let mut frame = encode_move(&wire_pawn_push());
    frame[9] = 2;
    assert_eq!(decode(&frame), Decoded::Malformed);
    for at in 6..10 {
        let mut frame = encode_start(&wire_bare_start()).unwrap();
        frame[at] = 2;
        assert_eq!(decode(&frame), Decoded::Malformed);
    }
}

#[test]
fn unknown_promotion_is_malformed() {
    assert_eq!(decode(&[2, 8, 0, 0, 0, 0, 6, 0, 7, 1, 6, 0, 0]), Decoded::Malformed);
    assert!(matches!(
        decode(&[2, 8, 0, 0, 0, 0, 6, 0, 7, 1, 5, 0, 0]),
        Decoded::Complete { .. }
    ));
}

#[test]
fn length_that_disagrees_with_the_payload_is_malformed() {
    // one byte too many inside the payload
    assert_eq!(decode(&[2, 8, 0, 0, 0, 4, 1, 4, 3, 0, 0, 0, 0]), Decoded::Malformed);
    // one byte too few
    assert_eq!(decode(&[2, 6, 0, 0, 0, 4, 1, 4, 3, 0, 0]), Decoded::Malformed);
    // no payload at all
    assert_eq!(decode(&[2, 0, 0, 0, 0]), Decoded::Malformed);
    assert_eq!(decode(&[1, 0, 0, 0, 0]), Decoded::Malformed);
}

#[test]
fn tag_that_disagrees_with_the_payload_is_malformed() {
    let mut frame = encode_move(&wire_pawn_push());
    frame[0] = TAG_START;
    assert_eq!(decode(&frame), Decoded::Malformed);
    let mut frame = encode_start(&wire_bare_start()).unwrap();
    frame[0] = TAG_MOVE;
    assert_eq!(decode(&frame), Decoded::Malformed);
}

#[test]
fn text_that_is_not_utf8_is_malformed() {
    let good = Start { is_white: true, name: Some("ab".to_string()), fen: None, time: None, inc: None };
    let mut frame = encode_start(&good).unwrap();
    assert!(matches!(decode(&frame), Decoded::Complete { .. }));
    frame[15] = 0xff;
    assert_eq!(decode(&frame), Decoded::Malformed);
    frame[15] = 0xc3;
    frame[16] = 0x28;
    assert_eq!(decode(&frame), Decoded::Malformed);
}

#[test]
fn text_longer_than_the_payload_is_malformed() {
    let good = Start { is_white: true, name: Some("ab".to_string()), fen: None, time: None, inc: None };
    let mut frame = encode_start(&good).unwrap();
    frame[7] = 200;
    assert_eq!(decode(&frame), Decoded::Malformed);
    let mut frame = encode_start(&good).unwrap();
    for at in 7..15 {
        frame[at] = 0xff;
    }
    assert_eq!(decode(&frame), Decoded::Malformed);
}

#[test]
fn decoded_text_is_the_text_and_not_its_bytes() {
    let frame = vec![1, 15, 0, 0, 0, 1, 1, 2, 0, 0, 0, 0, 0, 0, 0, 0xc3, 0xab, 0, 0, 0];
    match decode(&frame) {
        Decoded::Complete { message: Message::Start(s), consumed } => {
            assert_eq!(consumed, 20);
            assert_eq!(s.name, Some("ë".to_string()));
            assert_eq!(s.name.unwrap().chars().count(), 1);
        }
        other => panic!("unexpected: {:?}", other),
    }
}

#[test]
fn payload_is_laid_out_as_bincode_lays_out_the_fields() {
    let m = Move {
        from: wire_square(4, 1),
        to: wire_square(4, 3),
        promotion: Some(PieceKind::Knight),
        forfeit: false,
        offer_draw: true,
    };
    let fields = (4u8, 1u8, 4u8, 3u8, Some(1u8), false, true);
    assert_eq!(encode_move(&m)[HEADER_LEN..].to_vec(), bincode::serialize(&fields).unwrap());
    let s = wire_full_start();
    let fields = (s.is_white, s.name.clone(), s.fen.clone(), s.time, s.inc);
    assert_eq!(
        encode_start(&s).unwrap()[HEADER_LEN..].to_vec(),
        bincode::serialize(&fields).unwrap()
    );
    let s = wire_bare_start();
    let fields = (s.is_white, s.name.clone(), s.fen.clone(), s.time, s.inc);
    assert_eq!(
        encode_start(&s).unwrap()[HEADER_LEN..].to_vec(),
        bincode::serialize(&fields).unwrap()
    );
}

#[test]
fn accumulator_one_byte_at_a_time_move() {
    let m = wire_pawn_push();
    let frame = encode_move(&m);
    assert!(frame.len() <= 16);
    let mut acc = Accumulator::new();
    let mut got = Vec::new();
    for (i, b) in frame.iter().enumerate() {
        acc.push(&[*b]);
        match acc.take_frame() {
            Decoded::Complete { message, consumed } => {
                assert_eq!(i + 1, frame.len());
                assert_eq!(consumed, frame.len());
                got.push(message);
            }
            Decoded::Incomplete => assert!(i + 1 < frame.len()),
            Decoded::Malformed => panic!("malformed at byte {}", i),
        }
    }
    assert_eq!(got, vec![Message::Move(m)]);
    assert_eq!(acc.len(), 0);
    assert_eq!(acc.take_frame(), Decoded::Incomplete);
}

#[test]
fn accumulator_one_byte_at_a_time_stream() {
    let messages = vec![
        Message::Start(wire_full_start()),
        Message::Move(wire_pawn_push()),
        Message::Start(wire_bare_start()),
        Message::Move(Move::resign()),
        Message::Move(wire_pawn_push()),
    ];
    let mut stream = Vec::new();
    for m in messages.iter() {
        let frame = encode(m).unwrap();
        assert!(frame.len() <= 256);
        stream.extend_from_slice(&frame);
    }
    let mut acc = Accumulator::new();
    let mut got = Vec::new();
    for b in stream {
        acc.push(&[b]);
        if let Decoded::Complete { message, .. } = acc.take_frame() {
            got.push(message);
        }
    }
    assert_eq!(got, messages);
    assert_eq!(acc.len(), 0);
}

#[test]
fn accumulator_takes_one_frame_at_a_time() {
    let a = wire_pawn_push();
    let b = Move::step(wire_square(4, 6), wire_square(4, 4));
    let mut acc = Accumulator::new();
    let mut both = encode_move(&a);
    both.extend_from_slice(&encode_move(&b));
    both.extend_from_slice(&[2, 7]);
    acc.push(&both);
    assert_eq!(acc.len(), 26);
    assert_eq!(acc.take_frame(), Decoded::Complete { message: Message::Move(a), consumed: 12 });
    assert_eq!(acc.len(), 14);
    assert_eq!(acc.take_frame(), Decoded::Complete { message: Message::Move(b), consumed: 12 });
    assert_eq!(acc.take_frame(), Decoded::Incomplete);
    assert_eq!(acc.len(), 2);
}

#[test]
fn accumulator_keeps_what_is_malformed() {
    let mut acc = Accumulator::new();
    acc.push(&[9, 9, 9]);
    assert_eq!(acc.take_frame(), Decoded::Malformed);
    assert_eq!(acc.len(), 3);
    acc.clear();
    assert_eq!(acc.len(), 0);
    assert_eq!(acc.take_frame(), Decoded::Incomplete);
}

#[test]
fn accumulator_in_pieces_of_any_size() {
    let messages = vec![
        Message::Start(wire_full_start()),
        Message::Move(wire_pawn_push()),
        Message::Move(Move::resign()),
        Message::Start(wire_bare_start()),
    ];
    let mut stream = Vec::new();
    for m in messages.iter() {
        stream.extend_from_slice(&encode(m).unwrap());
    }
    for size in 1..=stream.len() {
        let mut acc = Accumulator::new();
        let mut got = Vec::new();
        for piece in stream.chunks(size) {
            acc.push(piece);
            while let Decoded::Complete { message, .. } = acc.take_frame() {
                got.push(message);
            }
        }
        assert_eq!(got, messages);
        assert_eq!(acc.len(), 0);
    }
}
