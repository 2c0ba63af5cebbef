//! Dice faces and the bag that holds the dice a player owns.

use crate::random::gen_range;
use rand::rngs::ThreadRng;
use vstd::prelude::*;

verus! {

/// One face of a six-sided die.
#[derive(Debug, Clone, Copy, PartialEq, Eq, PartialOrd, Ord, Hash, Structural)]
pub enum DiceNumber {
    One,
    Two,
    Three,
    Four,
    Five,
    Six,
}

impl DiceNumber {
    /// The number of pips on the face.
    pub open spec fn pips(self) -> nat {
        match self {
            DiceNumber::One => 1,
            DiceNumber::Two => 2,
            DiceNumber::Three => 3,
            DiceNumber::Four => 4,
            DiceNumber::Five => 5,
            DiceNumber::Six => 6,
        }
    }

    /// The face a raw roll stands for: rolls 1 to 5 show that many pips, every
    /// other roll shows six.
    pub open spec fn of_roll(roll: int) -> DiceNumber {
        if roll == 1 {
            DiceNumber::One
        } else if roll == 2 {
            DiceNumber::Two
        } else if roll == 3 {
            DiceNumber::Three
        } else if roll == 4 {
            DiceNumber::Four
        } else if roll == 5 {
            DiceNumber::Five
        } else {
            DiceNumber::Six
        }
    }

    /// The number of pips on the face, from 1 to 6.
    pub fn value(self) -> (v: u8)
        ensures
            v == self.pips(),
            1 <= v <= 6,
    {
        match self {
            DiceNumber::One => 1,
            DiceNumber::Two => 2,
            DiceNumber::Three => 3,
            DiceNumber::Four => 4,
            DiceNumber::Five => 5,
            DiceNumber::Six => 6,
        }
    }

    /// Turns a raw roll into a face.
    pub fn from_roll(roll: i32) -> (face: DiceNumber)
        ensures
            face == Self::of_roll(roll as int),
            1 <= roll <= 5 ==> face.pips() == roll,
            !(1 <= roll <= 5) ==> face.pips() == 6,
    {
        match roll {
            1 => DiceNumber::One,
            2 => DiceNumber::Two,
            3 => DiceNumber::Three,
            4 => DiceNumber::Four,
            5 => DiceNumber::Five,
            _ => DiceNumber::Six,
        }
    }

    /// Rolls a die: draws a number below six and shows the face it stands for.
    /// Which face comes up is left to the generator.
    pub fn from_rng(rng: &mut ThreadRng) -> (face: DiceNumber)
        ensures
            exists|roll: int| 0 <= roll < 6 && face == Self::of_roll(roll),
            1 <= face.pips() <= 6,
    {
        let roll: i32 = gen_range(rng, 0, 6);
        DiceNumber::from_roll(roll)
    }
}

} // verus!
