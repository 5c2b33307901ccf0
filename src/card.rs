//! The card that shows one player's hand below the hand buttons.
use vstd::prelude::*;

verus! {

/// The player a card belongs to.
#[derive(Clone, Copy, Debug, PartialEq, Eq, Structural)]
pub enum Player {
    You,
    Cpu,
}

/// The background colour of a card.
#[derive(Clone, Copy, Debug, PartialEq, Eq, Structural)]
pub enum BgColor {
    Red,
    Blue,
}

/// The picture of rock.
pub const ROCK_IMAGE: &'static str = "https://jskm.sakura.ne.jp/js01/kadai/img02/g.png";

/// The picture of scissors.
pub const SCISSORS_IMAGE: &'static str = "https://jskm.sakura.ne.jp/js01/kadai/img02/c.png";

/// The picture of paper.
pub const PAPER_IMAGE: &'static str = "https://jskm.sakura.ne.jp/js01/kadai/img02/p.png";

/// The label of a player.
pub open spec fn player_label(p: Player) -> Seq<char> {
    match p {
        Player::You => "YOU"@,
        Player::Cpu => "CPU"@,
    }
}

/// The CSS name of a colour.
pub open spec fn color_name(c: BgColor) -> Seq<char> {
    match c {
        BgColor::Blue => "blue"@,
        BgColor::Red => "red"@,
    }
}

/// The picture of a hand, counted from zero: rock, scissors, paper.
pub open spec fn hand_picture(index: int) -> Seq<char> {
    if index == 0 {
        ROCK_IMAGE@
    } else if index == 1 {
        SCISSORS_IMAGE@
    } else {
        PAPER_IMAGE@
    }
}

/// The picture of the hand at `index` (0 rock, 1 scissors, 2 paper).
pub fn hand_image(index: usize) -> (r: &'static str)
    requires
        index < 3,
    ensures
        r@ == hand_picture(index as int),
{
    match index {
        0 => ROCK_IMAGE,
        1 => SCISSORS_IMAGE,
        _ => PAPER_IMAGE,
    }
}

/// One player's card: its colour, whose it is, and the hand shown
/// (`0` while no hand has been chosen).
#[derive(Clone, Copy, Debug, PartialEq, Eq, Structural)]
pub struct JankenResultCard {
    pub color: BgColor,
    pub player: Player,
    pub hand: usize,
}

impl JankenResultCard {
    /// The label under the card.
    pub fn show_player(&self) -> (r: String)
        ensures
            r@ == player_label(self.player),
    {
        match self.player {
            Player::Cpu => "CPU".to_owned(),
            Player::You => "YOU".to_owned(),
        }
    }

    /// The card's background colour, as a CSS colour name.
    pub fn show_color(&self) -> (r: String)
        ensures
            r@ == color_name(self.color),
    {
        match self.color {
            BgColor::Blue => "blue".to_owned(),
            BgColor::Red => "red".to_owned(),
        }
    }

    /// The zero-based index of the picture to show, or `None` while no hand
    /// (or no valid hand) is on the card.
    pub fn image_index(&self) -> (r: Option<usize>)
        ensures
            r == (if 1 <= self.hand <= 3 {
                Some((self.hand - 1) as usize)
            } else {
                None::<usize>
            }),
    {
        if 1 <= self.hand && self.hand <= 3 {
            Some(self.hand - 1)
        } else {
            None
        }
    }

    /// The source of the picture on the card: the chosen hand's picture, or
    /// the empty string, which shows nothing, while no hand is on it.
    pub fn image_src(&self) -> (r: &'static str)
        ensures
            1 <= self.hand <= 3 ==> r@ == hand_picture(self.hand - 1),
            !(1 <= self.hand <= 3) ==> r@ == Seq::<char>::empty(),
    {
        match self.image_index() {
            Some(i) => hand_image(i),
            None => {
                proof {
                    reveal_strlit("");
                }
                ""
            },
        }
    }
}

} // verus!
