//! The random draws the rules need, taken from `rand`'s thread-local generator.

use crate::spawn::Rgb;
use rand::rngs::ThreadRng;
use rand::seq::SliceRandom;
use rand::Rng;
use vstd::prelude::*;

verus! {

/// `rand::rngs::ThreadRng`, carried through as an opaque handle.
#[verifier::external_type_specification]
#[verifier::external_body]
pub struct ExThreadRng(ThreadRng);

/// `Rng::gen_range` on the half-open range `low..high`.
///
/// Believed, not proved: the sample lies in the range. `gen_range` panics on an
/// empty range, which `requires` rules out. Which value comes is up to chance.
/// The generator reseeds itself from the operating system now and then and
/// stops the program if that fails; no argument decides this, so nothing here
/// rules it out.
#[verifier::external_body]
pub(crate) fn gen_range(rng: &mut ThreadRng, low: i32, high: i32) -> (sample: i32)
    requires
        low < high,
    ensures
        low <= sample < high,
{
    rng.gen_range(low..high)
}

/// `SliceRandom::choose` on the colours of a palette.
///
/// Believed, not proved: an empty palette gives nothing, any other gives one of
/// its colours. Which one is up to chance. A draw can stop the program as
/// said of `gen_range`.
#[verifier::external_body]
pub(crate) fn choose_color(rng: &mut ThreadRng, palette: &Vec<Rgb>) -> (color: Option<Rgb>)
    ensures
        palette@.len() == 0 ==> color is None,
        palette@.len() > 0 ==> color is Some && palette@.contains(color.unwrap()),
{
    palette.choose(rng).copied()
}

} // verus!
