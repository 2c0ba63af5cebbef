//! The dice bag: a first-in, first-out store of the dice a player owns, and
//! the events through which the rest of the rules change it.

use crate::dice::DiceNumber;
use crate::random::gen_range;
use rand::rngs::ThreadRng;
use std::collections::VecDeque;
use vstd::prelude::*;

verus! {

/// What `n` dice taken from the front of `bag` are, if it holds that many.
pub open spec fn consumed(bag: Seq<DiceNumber>, n: nat) -> Option<Seq<DiceNumber>> {
    if bag.len() >= n {
        Some(bag.take(n as int))
    } else {
        None
    }
}

/// What is left of `bag` after an attempt to take `n` dice from its front:
/// all but those `n`, or all of it when it holds fewer.
pub open spec fn remaining(bag: Seq<DiceNumber>, n: nat) -> Seq<DiceNumber> {
    if bag.len() >= n {
        bag.skip(n as int)
    } else {
        bag
    }
}

/// `bag` after every die of `dice` was pushed, in order.
pub open spec fn pushed_all(bag: Seq<DiceNumber>, dice: Seq<DiceNumber>) -> Seq<DiceNumber>
    decreases dice.len(),
{
    if dice.len() == 0 {
        bag
    } else {
        pushed_all(bag, dice.drop_last()).push(dice.last())
    }
}

/// `bag` after `times` attempts to take a single die from it.
pub open spec fn consumed_singly(bag: Seq<DiceNumber>, times: nat) -> Seq<DiceNumber>
    decreases times,
{
    if times == 0 {
        bag
    } else {
        remaining(consumed_singly(bag, (times - 1) as nat), 1)
    }
}

/// The dice a player owns, oldest first.
#[derive(Debug)]
pub struct DiceBag {
    bag: VecDeque<DiceNumber>,
}

impl View for DiceBag {
    type V = Seq<DiceNumber>;

    closed spec fn view(&self) -> Seq<DiceNumber> {
        self.bag@
    }
}

impl Default for DiceBag {
    fn default() -> (bag: DiceBag)
        ensures
            bag@ == Seq::<DiceNumber>::empty(),
    {
        DiceBag::new()
    }
}

impl DiceBag {
    /// An empty bag.
    pub fn new() -> (bag: DiceBag)
        ensures
            bag@ == Seq::<DiceNumber>::empty(),
    {
        DiceBag { bag: VecDeque::new() }
    }

    /// How many dice the bag holds.
    pub fn len(&self) -> (n: usize)
        ensures
            n == self@.len(),
    {
        self.bag.len()
    }

    /// Puts a die at the back of the bag.
    pub fn push(&mut self, dice: DiceNumber)
        ensures
            final(self)@ == old(self)@.push(dice),
    {
        self.bag.push_back(dice);
    }

    /// Takes the `N` oldest dice out of the bag, oldest first. A bag that holds
    /// fewer than `N` gives nothing and keeps all it has.
    pub fn try_consume<const N: usize>(&mut self) -> (taken: Option<[DiceNumber; N]>)
        ensures
            old(self)@.len() >= N <==> taken is Some,
            taken is Some ==> Some(taken.unwrap()@) == consumed(old(self)@, N as nat),
            taken is None ==> consumed(old(self)@, N as nat) is None,
            final(self)@ == remaining(old(self)@, N as nat),
    {
        if self.bag.len() >= N {
            let mut taken = [DiceNumber::One;N];
            let mut i: usize = 0;
            while i < N
                invariant
                    i <= N <= old(self)@.len(),
                    self.bag@ == old(self)@.skip(i as int),
                    forall|j: int| 0 <= j < i ==> taken@[j] == old(self)@[j],
                decreases N - i,
            {
                let front = self.bag.pop_front();
                taken[i] = front.unwrap();
                i += 1;
            }
            assert(taken@ =~= old(self)@.take(N as int));
            Some(taken)
        } else {
            None
        }
    }

    /// The dice in the bag, oldest first, as they are at the time of the call.
    pub fn iter(&self) -> (dice: Vec<DiceNumber>)
        ensures
            dice@ == self@,
    {
        let mut dice: Vec<DiceNumber> = Vec::new();
        let mut i: usize = 0;
        while i < self.bag.len()
            invariant
                i <= self.bag@.len(),
                dice@ == self.bag@.take(i as int),
            decreases self.bag@.len() - i,
        {
            dice.push(self.bag[i]);
            assert(self.bag@.take(i + 1) =~= self.bag@.take(i as int).push(self.bag@[i as int]));
            i += 1;
        }
        assert(self.bag@.take(i as int) =~= self.bag@);
        dice
    }
}

/// A change to the dice bag that another part of the rules has asked for.
#[derive(Debug, Clone, Copy, PartialEq, Eq, Structural)]
pub enum DiceEvent {
    /// A die was won: it goes into the bag.
    Owned(DiceNumber),
    /// A die was lost: the oldest die leaves the bag, if there is one.
    Lost,
}

/// `bag` after one event. Losing a die from an empty bag changes nothing.
pub open spec fn after_event(bag: Seq<DiceNumber>, event: DiceEvent) -> Seq<DiceNumber> {
    match event {
        DiceEvent::Owned(dice) => bag.push(dice),
        DiceEvent::Lost => remaining(bag, 1),
    }
}

/// `bag` after the events of `events`, each applied in the order in which it
/// was sent.
pub open spec fn after_events(bag: Seq<DiceNumber>, events: Seq<DiceEvent>) -> Seq<DiceNumber>
    decreases events.len(),
{
    if events.len() == 0 {
        bag
    } else {
        after_event(after_events(bag, events.drop_last()), events.last())
    }
}

/// Drains the queue of dice events into the bag, oldest event first, and
/// leaves the queue empty.
pub fn manage_dice_events(events: &mut Vec<DiceEvent>, dice_bag: &mut DiceBag)
    ensures
        final(events)@.len() == 0,
        final(dice_bag)@ == after_events(old(dice_bag)@, old(events)@),
{
    let mut i: usize = 0;
    while i < events.len()
        invariant
            i <= events@.len(),
            events@ == old(events)@,
            dice_bag@ == after_events(old(dice_bag)@, events@.take(i as int)),
        decreases events@.len() - i,
    {
        assert(events@.take(i + 1).drop_last() =~= events@.take(i as int));
        match events[i] {
            DiceEvent::Owned(dice) => {
                dice_bag.push(dice);
            },
            DiceEvent::Lost => {
                let _ = dice_bag.try_consume::<1>();
            },
        }
        i += 1;
    }
    assert(events@.take(i as int) =~= events@);
    events.clear();
}

/// Sends two to four freshly rolled dice to the queue as dice won: a way to
/// try the bag out without playing for them.
pub fn setup_debug(rng: &mut ThreadRng, events: &mut Vec<DiceEvent>)
    ensures
        old(events)@.len() + 2 <= final(events)@.len() <= old(events)@.len() + 4,
        final(events)@.take(old(events)@.len() as int) == old(events)@,
        forall|i: int|
            old(events)@.len() <= i < final(events)@.len() ==> final(events)@[i] is Owned,
{
    let count: i32 = gen_range(rng, 2, 5);
    let mut sent: i32 = 0;
    while sent < count
        invariant
            0 <= sent <= count <= 4,
            events@.len() == old(events)@.len() + sent,
            events@.take(old(events)@.len() as int) == old(events)@,
            forall|i: int| old(events)@.len() <= i < events@.len() ==> events@[i] is Owned,
        decreases count - sent,
    {
        let ghost before = events@;
        events.push(DiceEvent::Owned(DiceNumber::from_rng(rng)));
        assert(events@.take(old(events)@.len() as int) =~= before.take(
            old(events)@.len() as int,
        ));
        sent += 1;
    }
}

/// Dice pushed into an empty bag come out one by one in the order in which
/// they went in: after `i` single dice were taken, the next one taken is the
/// die pushed as number `i`.
pub proof fn lemma_fifo_order(dice: Seq<DiceNumber>, i: nat)
    requires
        i < dice.len(),
    ensures
        consumed(consumed_singly(pushed_all(Seq::empty(), dice), i), 1) == Some(
            seq![dice[i as int]],
        ),
        consumed_singly(pushed_all(Seq::empty(), dice), dice.len()).len() == 0,
{
    lemma_pushed_all(Seq::empty(), dice);
    assert(Seq::<DiceNumber>::empty() + dice =~= dice);
    lemma_consumed_singly(dice, i);
    lemma_consumed_singly(dice, dice.len());
    assert(dice.skip(i as int).take(1) =~= seq![dice[i as int]]);
}

/// Pushing dice one by one appends them in order.
pub proof fn lemma_pushed_all(bag: Seq<DiceNumber>, dice: Seq<DiceNumber>)
    ensures
        pushed_all(bag, dice) == bag + dice,
    decreases dice.len(),
{
    if dice.len() == 0 {
        assert(bag + dice =~= bag);
    } else {
        lemma_pushed_all(bag, dice.drop_last());
        assert((bag + dice.drop_last()).push(dice.last()) =~= bag + dice);
    }
}

/// Taking single dice `times` times removes the `times` oldest, as long as the
/// bag holds that many.
pub proof fn lemma_consumed_singly(bag: Seq<DiceNumber>, times: nat)
    requires
        times <= bag.len(),
    ensures
        consumed_singly(bag, times) == bag.skip(times as int),
    decreases times,
{
    if times == 0 {
        assert(bag.skip(0) =~= bag);
    } else {
        lemma_consumed_singly(bag, (times - 1) as nat);
        assert(bag.skip(times - 1).skip(1) =~= bag.skip(times as int));
    }
}

} // verus!
