use tetris::pieces::PieceType;
use tetris::sequence::{make_piece_sequence, get_piece_from_sequence, rng_from_seed, SEQUENCE_LEN};

fn type_index(t: PieceType) -> usize {
    match t {
        PieceType::O => 0,
        PieceType::I => 1,
        PieceType::L => 2,
        PieceType::J => 3,
        PieceType::S => 4,
        PieceType::Z => 5,
        PieceType::T => 6,
    }
}

#[test]
fn bag_aligned_windows_hold_each_type_once() {
    let mut rng = rng_from_seed(42);
    let s = make_piece_sequence(&mut rng);
    assert_eq!(s.len(), SEQUENCE_LEN);
    for bag in 0..50 {
        let mut counts = [0usize; 7];
        for k in 0..7 {
            counts[type_index(s[bag * 7 + k])] += 1;
        }
        assert_eq!(counts, [1, 1, 1, 1, 1, 1, 1]);
    }
}

#[test]
fn no_type_absent_for_fourteen_draws() {
    let mut rng = rng_from_seed(7);
    let s = make_piece_sequence(&mut rng);
    for start in 0..(SEQUENCE_LEN - 14) {
        let mut seen = [false; 7];
        for i in start..start + 14 {
            seen[type_index(s[i])] = true;
        }
        assert_eq!(seen, [true; 7]);
    }
}

#[test]
fn same_seed_gives_same_sequence() {
    let mut rng_a = rng_from_seed(123);
    let mut rng_b = rng_from_seed(123);
    let a = make_piece_sequence(&mut rng_a);
    let b = make_piece_sequence(&mut rng_b);
    assert_eq!(a.len(), b.len());
    for i in 0..a.len() {
        assert_eq!(type_index(a[i]), type_index(b[i]));
    }
}

#[test]
fn sequence_lookup_wraps_around() {
    let mut rng = rng_from_seed(5);
    let s = make_piece_sequence(&mut rng);
    let direct = get_piece_from_sequence(&s, 3);
    let wrapped = get_piece_from_sequence(&s, 3 + SEQUENCE_LEN);
    assert_eq!(type_index(direct), type_index(wrapped));
    assert_eq!(type_index(get_piece_from_sequence(&s, 349)), type_index(s[349]));
    assert_eq!(type_index(get_piece_from_sequence(&s, 350)), type_index(s[0]));
}
