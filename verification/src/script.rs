use crate::time::Duration;
use vstd::prelude::*;

verus! {

/// One step of the script by which a device reports its link: an event to
/// send, or a time to let pass. Whoever runs the device plays the steps in
/// order.
#[derive(Clone, Copy, Debug, PartialEq, Eq, Structural)]
pub enum ScriptStep<E> {
    Emit(E),
    Wait(Duration),
}

/// The number of draws that a device tells apart: a draw is a whole number
/// below this one, each as likely as any other.
pub const DRAWS: u32 = 1_000_000;

/// The nanoseconds between two rounds of a simulated device: five minutes.
pub const ROUND_NANOS: u64 = 300_000_000_000;

/// The nanoseconds that a simulated device stays away: five seconds.
pub const AWAY_NANOS: u64 = 5_000_000_000;

/// One round of a simulated device's script: it lets the round's time pass
/// and then, where the draw is below `chance`, goes away and comes back.
pub open spec fn round_script<E>(drawn: u32, chance: u32, gone: E, back: E) -> Seq<ScriptStep<E>> {
    if drawn < chance {
        seq![
            ScriptStep::Wait(Duration { nanos: ROUND_NANOS }),
            ScriptStep::Emit(gone),
            ScriptStep::Wait(Duration { nanos: AWAY_NANOS }),
            ScriptStep::Emit(back),
        ]
    } else {
        seq![ScriptStep::Wait(Duration { nanos: ROUND_NANOS })]
    }
}

/// `rand::random_range`, called with the range from zero up to `bound`,
/// `bound` left out, returns a number of that range, drawn by the generator
/// of the calling thread. An empty range makes it panic.
#[verifier::external_body]
fn draw_below(bound: u32) -> (drawn: u32)
    requires
        bound > 0,
    ensures
        drawn < bound,
{
    rand::random_range(0..bound)
}

/// One round of a simulated device's script, for the given draw.
pub fn play_round<E: Copy>(drawn: u32, chance: u32, gone: E, back: E) -> (steps: Vec<ScriptStep<E>>)
    ensures
        steps@ == round_script(drawn, chance, gone, back),
{
    let mut steps: Vec<ScriptStep<E>> = Vec::new();
    steps.push(ScriptStep::Wait(Duration { nanos: ROUND_NANOS }));
    if drawn < chance {
        steps.push(ScriptStep::Emit(gone));
        steps.push(ScriptStep::Wait(Duration { nanos: AWAY_NANOS }));
        steps.push(ScriptStep::Emit(back));
    }
    steps
}

/// One round of a simulated device's script, for a fresh draw from the
/// whole numbers below `draws`: the device goes away on `chance` of them.
pub fn random_round<E: Copy>(draws: u32, chance: u32, gone: E, back: E) -> (steps: Vec<
    ScriptStep<E>,
>)
    requires
        draws > 0,
    ensures
        exists|drawn: u32| drawn < draws && steps@ == round_script(drawn, chance, gone, back),
{
    let drawn = draw_below(draws);
    play_round(drawn, chance, gone, back)
}

} // verus!
