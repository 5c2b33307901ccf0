//! The state of the game page and what each user action does to it.
use crate::card::{BgColor, JankenResultCard, Player};
use crate::outcome::{dicide_cpu_hand, is_hand, janken, outcome, result_text, RoundResult, NO_HAND};
use vstd::prelude::*;

verus! {

/// A picture fetched to console the user after a loss: its address and the
/// status the image service reported.
#[derive(Clone, Debug)]
pub struct ApiResponse {
    pub message: String,
    pub status: String,
}

/// What the page holds: the hands of the last round (`0` for both before the
/// first round), its result, and the comfort picture fetched since then.
#[derive(Clone, Debug)]
pub struct GameState {
    pub my_hand: usize,
    pub cpu_hand: usize,
    pub result: Option<RoundResult>,
    pub image: Option<ApiResponse>,
}

/// The cards of a round: the user's in blue, the opponent's in red.
pub open spec fn cards_of(my_hand: usize, cpu_hand: usize) -> Seq<JankenResultCard> {
    seq![
        JankenResultCard { color: BgColor::Blue, player: Player::You, hand: my_hand },
        JankenResultCard { color: BgColor::Red, player: Player::Cpu, hand: cpu_hand },
    ]
}

impl GameState {
    /// Both hands unset with no result, or both set with the result they give.
    pub open spec fn wf(&self) -> bool {
        ||| (self.my_hand == NO_HAND && self.cpu_hand == NO_HAND && self.result is None)
        ||| (is_hand(self.my_hand as int) && is_hand(self.cpu_hand as int) && self.result
            == Some(outcome(self.my_hand as int, self.cpu_hand as int)))
    }

    /// The state right after a round where the user showed `hand` and the
    /// opponent `cpu`: no picture from an earlier round is kept.
    pub open spec fn is_round(&self, hand: int, cpu: int) -> bool {
        &&& self.my_hand == hand
        &&& self.cpu_hand == cpu
        &&& self.result == Some(outcome(hand, cpu))
        &&& self.image is None
    }

    /// The page before the first round.
    pub fn new() -> (s: GameState)
        ensures
            s.my_hand == NO_HAND,
            s.cpu_hand == NO_HAND,
            s.result is None,
            s.image is None,
            s.wf(),
    {
        GameState { my_hand: NO_HAND, cpu_hand: NO_HAND, result: None, image: None }
    }

    /// Plays a round where the user shows `hand` and the opponent `cpu_hand`.
    pub fn select_hand(&mut self, hand: usize, cpu_hand: usize)
        requires
            is_hand(hand as int),
            is_hand(cpu_hand as int),
        ensures
            final(self).is_round(hand as int, cpu_hand as int),
            final(self).wf(),
    {
        let r = janken(hand, cpu_hand);
        self.my_hand = hand;
        self.cpu_hand = cpu_hand;
        self.result = Some(r);
        self.image = None;
    }

    /// Plays a round where the user shows `hand` against a hand the opponent
    /// picks at random; returns the opponent's hand.
    pub fn choose_hand(&mut self, hand: usize) -> (cpu: usize)
        requires
            is_hand(hand as int),
        ensures
            is_hand(cpu as int),
            final(self).is_round(hand as int, cpu as int),
            final(self).wf(),
    {
        let cpu = dicide_cpu_hand();
        self.select_hand(hand, cpu);
        cpu
    }

    /// Whether the comfort block (its button and picture) is shown: only
    /// after a loss.
    pub fn comfort_visible(&self) -> (r: bool)
        ensures
            r == (self.result == Some(RoundResult::Loss)),
    {
        match self.result {
            Some(RoundResult::Loss) => true,
            _ => false,
        }
    }

    /// Takes the outcome of a picture request: a picture replaces the one
    /// held, and a failed request (`None`) changes nothing.
    pub fn receive_image(&mut self, fetched: Option<ApiResponse>)
        ensures
            fetched is None ==> *final(self) == *old(self),
            fetched is Some ==> final(self).image == fetched,
            final(self).my_hand == old(self).my_hand,
            final(self).cpu_hand == old(self).cpu_hand,
            final(self).result == old(self).result,
    {
        if fetched.is_some() {
            self.image = fetched;
        }
    }

    /// The text that announces the result, empty before the first round.
    pub fn result_text(&self) -> (r: &'static str)
        ensures
            self.result is None ==> r@ == Seq::<char>::empty(),
            self.result is Some ==> r@ == result_text(self.result->Some_0),
    {
        match self.result {
            Some(res) => res.text(),
            None => {
                proof {
                    reveal_strlit("");
                }
                ""
            },
        }
    }

    /// The source of the comfort picture: the fetched address, or the empty
    /// string, which shows nothing, before any picture came.
    pub fn comfort_image_src(&self) -> (r: &str)
        ensures
            self.image is None ==> r@ == Seq::<char>::empty(),
            self.image is Some ==> r@ == self.image->Some_0.message@,
    {
        match &self.image {
            Some(a) => a.message.as_str(),
            None => {
                proof {
                    reveal_strlit("");
                }
                ""
            },
        }
    }

    /// The two cards under the hand buttons, the user's first.
    pub fn result_cards(&self) -> (r: Vec<JankenResultCard>)
        ensures
            r@ == cards_of(self.my_hand, self.cpu_hand),
    {
        let you = JankenResultCard { color: BgColor::Blue, player: Player::You, hand: self.my_hand };
        let cpu = JankenResultCard { color: BgColor::Red, player: Player::Cpu, hand: self.cpu_hand };
        let r = vec![you, cpu];
        assert(r@ =~= cards_of(self.my_hand, self.cpu_hand));
        r
    }
}

/// A round leaves nothing of what came before it: any two states that a
/// round with the same two hands produced are equal, and each is a valid
/// state; selecting the same hand again starts a round of its own.
pub proof fn lemma_round_forgets_history(s: GameState, t: GameState, hand: int, cpu: int)
    requires
        is_hand(hand),
        is_hand(cpu),
        s.is_round(hand, cpu),
        t.is_round(hand, cpu),
    ensures
        s == t,
        s.wf(),
{
}

} // verus!
