//! The rules of one round: which hand wins, and how the opponent picks a hand.
use vstd::arithmetic::div_mod::{lemma_mod_add_multiples_vanish, lemma_sub_mod_noop};
use vstd::prelude::*;

verus! {

/// The hand that no player has chosen yet.
pub const NO_HAND: usize = 0;

/// Rock.
pub const ROCK: usize = 1;

/// Scissors.
pub const SCISSORS: usize = 2;

/// Paper.
pub const PAPER: usize = 3;

/// A hand that a player can show: rock, scissors or paper.
pub open spec fn is_hand(h: int) -> bool {
    1 <= h <= 3
}

/// The outcome of a round, from the user's point of view.
#[derive(Clone, Copy, Debug, PartialEq, Eq, Structural)]
pub enum RoundResult {
    Tie,
    Loss,
    Win,
    /// A remainder outside 0..3; no pair of hands leads here.
    Error,
}

/// The outcome for a remainder of `(user + 3 - cpu) mod 3`.
pub open spec fn result_of_remainder(n: int) -> RoundResult {
    if n == 0 {
        RoundResult::Tie
    } else if n == 1 {
        RoundResult::Loss
    } else if n == 2 {
        RoundResult::Win
    } else {
        RoundResult::Error
    }
}

/// The outcome of a round where the user shows `user` and the opponent `cpu`.
pub open spec fn outcome(user: int, cpu: int) -> RoundResult {
    result_of_remainder((user + 3 - cpu) % 3)
}

/// The text shown for each outcome.
pub open spec fn result_text(r: RoundResult) -> Seq<char> {
    match r {
        RoundResult::Tie => "あいこ"@,
        RoundResult::Loss => "負け・・・"@,
        RoundResult::Win => "勝ち！"@,
        RoundResult::Error => "エラー"@,
    }
}

impl RoundResult {
    /// Maps the remainder of the round's formula to its outcome.
    pub fn from_remainder(n: usize) -> (r: RoundResult)
        ensures
            r == result_of_remainder(n as int),
    {
        match n {
            0 => RoundResult::Tie,
            1 => RoundResult::Loss,
            2 => RoundResult::Win,
            _ => RoundResult::Error,
        }
    }

    /// The text that announces this outcome.
    pub fn text(&self) -> (r: &'static str)
        ensures
            r@ == result_text(*self),
    {
        match self {
            RoundResult::Tie => "あいこ",
            RoundResult::Loss => "負け・・・",
            RoundResult::Win => "勝ち！",
            RoundResult::Error => "エラー",
        }
    }
}

/// Relies on rand's `Rng::gen_range` over the thread-local generator: for a
/// non-empty range `lo..hi` it returns a value in that range, and it panics
/// on an empty one.
#[verifier::external_body]
fn random_in_range(lo: usize, hi: usize) -> (r: usize)
    requires
        lo < hi,
    ensures
        lo <= r < hi,
{
    rand::Rng::gen_range(&mut rand::thread_rng(), lo..hi)
}

/// Picks the opponent's hand at random: rock, scissors or paper.
pub fn dicide_cpu_hand() -> (r: usize)
    ensures
        is_hand(r as int),
{
    random_in_range(ROCK, PAPER + 1)
}

/// Reducing both hands modulo 3 first leaves the round's remainder unchanged.
proof fn lemma_reduced_remainder(a: int, b: int)
    ensures
        (a % 3 + 3 - b % 3) % 3 == (a + 3 - b) % 3,
{
    lemma_sub_mod_noop(a, b, 3);
    lemma_mod_add_multiples_vanish(a % 3 - b % 3, 3);
    lemma_mod_add_multiples_vanish(a - b, 3);
}

/// The outcome of a round where the user shows `my_hand` and the opponent
/// `cpu_hand`, by the remainder of `(my_hand + 3 - cpu_hand) mod 3`.
pub fn janken(my_hand: usize, cpu_hand: usize) -> (r: RoundResult)
    ensures
        r == outcome(my_hand as int, cpu_hand as int),
        is_hand(my_hand as int) && is_hand(cpu_hand as int) ==> r != RoundResult::Error,
{
    let n: usize = (my_hand % 3 + 3 - cpu_hand % 3) % 3;
    proof {
        lemma_reduced_remainder(my_hand as int, cpu_hand as int);
    }
    RoundResult::from_remainder(n)
}

/// Every pair of hands has an outcome, and it is a tie, a loss or a win.
pub proof fn lemma_outcome_total(user: int, cpu: int)
    requires
        is_hand(user),
        is_hand(cpu),
    ensures
        outcome(user, cpu) == RoundResult::Tie || outcome(user, cpu) == RoundResult::Loss
            || outcome(user, cpu) == RoundResult::Win,
{
}

/// The same hand on both sides is a tie.
pub proof fn lemma_same_hand_ties(h: int)
    requires
        is_hand(h),
    ensures
        outcome(h, h) == RoundResult::Tie,
{
}

/// The user wins with `a` against `b` exactly when the user loses with `b`
/// against `a`.
pub proof fn lemma_win_mirrors_loss(a: int, b: int)
    requires
        is_hand(a),
        is_hand(b),
    ensures
        (outcome(a, b) == RoundResult::Win) == (outcome(b, a) == RoundResult::Loss),
{
}

} // verus!
