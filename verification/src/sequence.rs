//! The fair piece sequencer: 50 bags of 7, each bag a random permutation of
//! all 7 piece types, concatenated into one sequence of 350 draws that the
//! engine cycles through.

use vstd::prelude::*;
use crate::pieces::PieceType;

verus! {

/// How many draws the ordered sequence holds: `SEQUENCE_BAGS` bags of 7.
pub const SEQUENCE_BAGS: usize = 50;

pub const SEQUENCE_LEN: usize = 350;

/// How many times the type `t` occurs among the first `n` draws of `s`.
pub open spec fn count_upto(s: Seq<PieceType>, t: PieceType, n: int) -> nat
    decreases n,
{
    if n <= 0 {
        0
    } else {
        count_upto(s, t, n - 1) + (if s[n - 1] == t { 1nat } else { 0nat })
    }
}

/// How many times the type `t` occurs in `s`.
pub open spec fn count_of(s: Seq<PieceType>, t: PieceType) -> nat {
    count_upto(s, t, s.len() as int)
}

/// The `g`-th bag-aligned window of 7 draws.
pub open spec fn bag_at(s: Seq<PieceType>, g: int) -> Seq<PieceType> {
    s.subrange(7 * g, 7 * g + 7)
}

/// Bag fairness: every bag-aligned window of 7 draws holds each of the 7
/// piece types exactly once.
pub open spec fn bag_fair(s: Seq<PieceType>) -> bool {
    forall|g: int, t: PieceType| 0 <= g && 7 * g + 7 <= s.len()
        ==> #[trigger] count_of(bag_at(s, g), t) == 1
}

/// One unshuffled bag: each of the 7 piece types once.
pub open spec fn base_bag() -> Seq<PieceType> {
    seq![PieceType::O, PieceType::I, PieceType::L, PieceType::J,
         PieceType::S, PieceType::Z, PieceType::T]
}

/// Declares the generator type of the `rand` crate so that it can cross
/// this library's signatures; the library never looks inside it.
#[verifier::external_type_specification]
#[verifier::external_body]
pub struct ExStdRng(rand::rngs::StdRng);

/// Relies on rand::rngs::StdRng::seed_from_u64 (trait rand::SeedableRng):
/// builds a generator from the seed; nothing about the generator's output
/// is assumed here.
#[verifier::external_body]
pub fn rng_from_seed(seed: u64) -> rand::rngs::StdRng {
    <rand::rngs::StdRng as rand::SeedableRng>::seed_from_u64(seed)
}

/// Relies on rand::seq::SliceRandom::shuffle: it reorders the slice in place
/// by element swaps, so whatever came back holds the same elements with the
/// same counts as before; nothing about the order is assumed.
#[verifier::external_body]
fn shuffle_bag(rng: &mut rand::rngs::StdRng, bag: &mut Vec<PieceType>)
    ensures
        final(bag)@.len() == old(bag)@.len(),
        forall|t: PieceType| #[trigger] count_of(final(bag)@, t) == count_of(old(bag)@, t),
{
    rand::seq::SliceRandom::shuffle(bag.as_mut_slice(), rng);
}

/// Each of the 7 piece types occurs exactly once in the unshuffled bag.
proof fn lemma_base_bag_counts(t: PieceType)
    ensures
        count_of(base_bag(), t) == 1,
{
    reveal_with_fuel(count_upto, 8);
    match t {
        PieceType::O => assert(count_of(base_bag(), PieceType::O) == 1),
        PieceType::I => assert(count_of(base_bag(), PieceType::I) == 1),
        PieceType::L => assert(count_of(base_bag(), PieceType::L) == 1),
        PieceType::J => assert(count_of(base_bag(), PieceType::J) == 1),
        PieceType::S => assert(count_of(base_bag(), PieceType::S) == 1),
        PieceType::Z => assert(count_of(base_bag(), PieceType::Z) == 1),
        PieceType::T => assert(count_of(base_bag(), PieceType::T) == 1),
    }
}

/// Build the full 350-draw sequence: 50 bags, each a fresh permutation of
/// the 7 types drawn from the given generator.
pub fn make_piece_sequence(rng: &mut rand::rngs::StdRng) -> (s: Vec<PieceType>)
    ensures
        s@.len() == SEQUENCE_LEN,
        bag_fair(s@),
{
    let mut sequence: Vec<PieceType> = Vec::new();
    let mut bag_index: usize = 0;
    while bag_index < SEQUENCE_BAGS
        invariant
            bag_index <= SEQUENCE_BAGS,
            sequence@.len() == 7 * bag_index,
            forall|g: int, t: PieceType| 0 <= g < bag_index
                ==> #[trigger] count_of(bag_at(sequence@, g), t) == 1,
        decreases SEQUENCE_BAGS - bag_index,
    {
        let mut bag: Vec<PieceType> = Vec::new();
        bag.push(PieceType::O);
        bag.push(PieceType::I);
        bag.push(PieceType::L);
        bag.push(PieceType::J);
        bag.push(PieceType::S);
        bag.push(PieceType::Z);
        bag.push(PieceType::T);
        proof {
            assert(bag@ =~= base_bag());
        }
        shuffle_bag(rng, &mut bag);
        let ghost shuffled = bag@;
        let ghost pre = sequence@;
        sequence.append(&mut bag);
        proof {
            assert forall|g: int, t: PieceType| 0 <= g < bag_index + 1
                implies #[trigger] count_of(bag_at(sequence@, g), t) == 1 by {
                if g < bag_index {
                    assert(bag_at(sequence@, g) =~= bag_at(pre, g));
                } else {
                    assert(bag_at(sequence@, g) =~= shuffled);
                    lemma_base_bag_counts(t);
                }
            }
        }
        bag_index = bag_index + 1;
    }
    sequence
}

/// The draw at logical position `index` of the unbounded stream: the stored
/// sequence is cycled, so the stream never exhausts.
pub fn get_piece_from_sequence(sequence: &Vec<PieceType>, index: usize) -> (r: PieceType)
    requires
        sequence@.len() > 0,
    ensures
        r == sequence@[index as int % sequence@.len() as int],
{
    sequence[index % sequence.len()]
}

/// A type that occurs at least once among the first `n` draws occurs at some
/// position below `n`.
proof fn lemma_count_upto_pos_exists(s: Seq<PieceType>, t: PieceType, n: int)
    requires
        count_upto(s, t, n) >= 1,
        n <= s.len(),
    ensures
        exists|i: int| 0 <= i < n && s[i] == t,
    decreases n,
{
    if n > 0 {
        if s[n - 1] == t {
            assert(0 <= n - 1 < n && s[n - 1] == t);
        } else {
            lemma_count_upto_pos_exists(s, t, n - 1);
        }
    }
}

/// Law: a bag-fair sequence leaves no type absent from 14 consecutive draws;
/// every window of 14 draws contains every piece type.
pub proof fn lemma_no_long_absence(s: Seq<PieceType>, start: int, t: PieceType)
    requires
        bag_fair(s),
        0 <= start,
        start + 14 <= s.len(),
    ensures
        exists|i: int| start <= i < start + 14 && s[i] == t,
{
    let g = (start + 6) / 7;
    vstd::arithmetic::div_mod::lemma_fundamental_div_mod(start + 6, 7);
    vstd::arithmetic::div_mod::lemma_mod_bound(start + 6, 7);
    assert(start <= 7 * g && 7 * g + 7 <= start + 14);
    assert(count_of(bag_at(s, g), t) == 1);
    lemma_count_upto_pos_exists(bag_at(s, g), t, 7);
    let j = choose|j: int| 0 <= j < 7 && bag_at(s, g)[j] == t;
    assert(s[7 * g + j] == t);
    assert(start <= 7 * g + j < start + 14);
}

} // verus!
