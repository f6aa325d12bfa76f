use vstd::prelude::*;

verus! {

/// The animation stops once more than this many frames have been rendered.
pub const FRAME_LIMIT: u32 = 1000;

/// What the host's animation-frame callback does next.
#[derive(Clone, Copy, Debug, PartialEq, Eq, Structural)]
pub enum Tick {
    /// Release the callback and render nothing more.
    Stop,
    /// Render one frame and schedule the callback again; `frames` is the
    /// count of rendered frames once this one is done.
    Render { frames: u32 },
}

/// Decides the next step of the animation loop from the number of frames
/// rendered so far.
pub fn next_tick(frames: u32) -> (r: Tick)
    ensures
        frames > FRAME_LIMIT ==> r == Tick::Stop,
        frames <= FRAME_LIMIT ==> r == (Tick::Render { frames: (frames + 1) as u32 }),
{
    if frames > FRAME_LIMIT {
        Tick::Stop
    } else {
        Tick::Render { frames: frames + 1 }
    }
}

} // verus!
