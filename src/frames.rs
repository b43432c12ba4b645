use vstd::prelude::*;

use crate::fixed::ONE;

verus! {

/// Target interval between interactive frames, in nanoseconds (60 Hz).
pub const FRAME_INTERVAL_NANOS: u64 = 16_666_667;

/// Frame timing of an offline recording: `framerate` frames per second for
/// `duration` seconds.
#[derive(Clone, Copy, Debug, PartialEq, Eq, Structural)]
pub struct FrameClock {
    pub framerate: u32,
    pub duration: u32,
}

impl FrameClock {
    pub open spec fn total_spec(self) -> nat {
        (self.framerate * self.duration) as nat
    }

    /// Scene time of frame `f`: `f / framerate` seconds, in fixed point, rounded down.
    pub open spec fn time_spec(self, f: int) -> int {
        f * (ONE as int) / (self.framerate as int)
    }

    /// Number of frames in the recording: `framerate × duration`.
    pub fn total_frames(&self) -> (r: u64)
        ensures
            r == self.total_spec(),
    {
        proof {
            assert(self.framerate * self.duration <= 0xffff_ffff * 0xffff_ffff) by (nonlinear_arith)
                requires
                    self.framerate <= 0xffff_ffff,
                    self.duration <= 0xffff_ffff,
            ;
        }
        (self.framerate as u64) * (self.duration as u64)
    }

    /// Scene time of frame `f`, a function of `f` and the framerate alone.
    pub fn frame_time(&self, f: u64) -> (r: i64)
        requires
            self.framerate > 0,
            self.time_spec(f as int) <= i64::MAX,
        ensures
            r == self.time_spec(f as int),
    {
        proof {
            assert(f * 1_000_000 <= 0xffff_ffff_ffff_ffff * 1_000_000) by (nonlinear_arith)
                requires
                    f <= 0xffff_ffff_ffff_ffff,
            ;
        }
        let p: u128 = (f as u128) * (ONE as u128);
        (p / (self.framerate as u128)) as i64
    }
}

/// Where an offline recording stands.
#[derive(Clone, Copy, Debug, PartialEq, Eq, Structural)]
pub enum DriverState {
    /// The frame with this index is the next to render.
    Rendering(u64),
    Finished,
}

/// What the driver asks for next.
#[derive(Clone, Copy, Debug, PartialEq, Eq, Structural)]
pub enum FrameAction {
    /// Render frame `frame_index` at `scene_time` and hand it to the writer.
    Render { frame_index: u64, scene_time: i64 },
    /// The recording is complete.
    Halt,
}

/// The state in which a recording with `clock` starts.
pub open spec fn start_spec(clock: FrameClock) -> DriverState {
    if clock.total_spec() == 0 {
        DriverState::Finished
    } else {
        DriverState::Rendering(0)
    }
}

/// The action taken in state `s`, and the state that follows it.
pub open spec fn next_spec(clock: FrameClock, s: DriverState) -> (DriverState, FrameAction) {
    match s {
        DriverState::Rendering(i) => (
            if i + 1 < clock.total_spec() {
                DriverState::Rendering((i + 1) as u64)
            } else {
                DriverState::Finished
            },
            FrameAction::Render { frame_index: i, scene_time: clock.time_spec(i as int) as i64 },
        ),
        DriverState::Finished => (DriverState::Finished, FrameAction::Halt),
    }
}

/// The state after `k` steps.
pub open spec fn state_after(clock: FrameClock, k: nat) -> DriverState
    decreases k,
{
    if k == 0 {
        start_spec(clock)
    } else {
        next_spec(clock, state_after(clock, (k - 1) as nat)).0
    }
}

/// The action of step `k` (counting from zero).
pub open spec fn action_at(clock: FrameClock, k: nat) -> FrameAction {
    next_spec(clock, state_after(clock, k)).1
}

/// Drives an offline recording: one frame per step, each at a scene time
/// that depends on its index alone, then a halt.
#[derive(Clone, Copy, Debug, PartialEq, Eq, Structural)]
pub struct Recorder {
    pub clock: FrameClock,
    pub state: DriverState,
}

impl Recorder {
    pub open spec fn wf(self) -> bool {
        &&& self.clock.framerate > 0
        &&& match self.state {
            DriverState::Rendering(i) => i < self.clock.total_spec(),
            DriverState::Finished => true,
        }
    }

    pub fn new(clock: FrameClock) -> (r: Recorder)
        requires
            clock.framerate > 0,
        ensures
            r.wf(),
            r.clock == clock,
            r.state == start_spec(clock),
    {
        let state = if clock.total_frames() == 0 {
            DriverState::Finished
        } else {
            DriverState::Rendering(0)
        };
        Recorder { clock, state }
    }

    /// Takes one step: returns the action of the current state and moves to the next.
    pub fn step(&mut self) -> (r: FrameAction)
        requires
            old(self).wf(),
        ensures
            final(self).wf(),
            final(self).clock == old(self).clock,
            (final(self).state, r) == next_spec(old(self).clock, old(self).state),
    {
        match self.state {
            DriverState::Rendering(i) => {
                let total = self.clock.total_frames();
                proof {
                    let rate = self.clock.framerate as int;
                    let dur = self.clock.duration as int;
                    assert(i * 1_000_000 <= rate * dur * 1_000_000) by (nonlinear_arith)
                        requires
                            i < rate * dur,
                    ;
                    assert(rate * dur * 1_000_000 == rate * (dur * 1_000_000)) by (nonlinear_arith);
                    vstd::arithmetic::div_mod::lemma_div_is_ordered(
                        i * 1_000_000,
                        rate * (dur * 1_000_000),
                        rate,
                    );
                    vstd::arithmetic::div_mod::lemma_div_multiples_vanish(dur * 1_000_000, rate);
                    assert(dur * 1_000_000 <= 0xffff_ffff * 1_000_000) by (nonlinear_arith)
                        requires
                            dur <= 0xffff_ffff,
                    ;
                }
                let t = self.clock.frame_time(i);
                self.state = if i + 1 < total {
                    DriverState::Rendering(i + 1)
                } else {
                    DriverState::Finished
                };
                FrameAction::Render { frame_index: i, scene_time: t }
            },
            DriverState::Finished => FrameAction::Halt,
        }
    }
}

proof fn lemma_state_after(clock: FrameClock, k: nat)
    ensures
        k < clock.total_spec() ==> state_after(clock, k) == DriverState::Rendering(k as u64),
        k >= clock.total_spec() ==> state_after(clock, k) == DriverState::Finished,
    decreases k,
{
    lemma_total_fits(clock);
    if k > 0 {
        lemma_state_after(clock, (k - 1) as nat);
    }
}

proof fn lemma_total_fits(clock: FrameClock)
    ensures
        clock.total_spec() <= u64::MAX,
{
    assert(clock.framerate * clock.duration <= 0xffff_ffff * 0xffff_ffff) by (nonlinear_arith)
        requires
            clock.framerate <= 0xffff_ffff,
            clock.duration <= 0xffff_ffff,
    ;
}

/// A recording of `framerate × duration` frames asks for frames
/// `0, 1, …, framerate × duration − 1` in that order, each at its own scene
/// time, and halts at every step after them: no further frame is requested.
pub proof fn lemma_recording_length(clock: FrameClock)
    ensures
        forall|k: nat|
            k < clock.total_spec() ==> #[trigger] action_at(clock, k) == (FrameAction::Render {
                frame_index: k as u64,
                scene_time: clock.time_spec(k as int) as i64,
            }),
        forall|k: nat| k >= clock.total_spec() ==> #[trigger] action_at(clock, k) == FrameAction::Halt,
{
    lemma_total_fits(clock);
    assert forall|k: nat| k < clock.total_spec() implies #[trigger] action_at(clock, k) == (
    FrameAction::Render { frame_index: k as u64, scene_time: clock.time_spec(k as int) as i64 }) by {
        lemma_state_after(clock, k);
    }
    assert forall|k: nat| k >= clock.total_spec() implies #[trigger] action_at(clock, k)
        == FrameAction::Halt by {
        lemma_state_after(clock, k);
    }
}

/// What an interactive session does after a frame.
#[derive(Clone, Copy, Debug, PartialEq, Eq, Structural)]
pub enum InteractiveAction {
    /// Sleep until this instant, in nanoseconds since the session started.
    WaitUntil(u64),
    Exit,
}

/// After a frame drawn at `now_nanos`: exit on a close request, else wake one
/// frame interval later.
pub fn interactive_step(close_requested: bool, now_nanos: u64) -> (r: InteractiveAction)
    requires
        now_nanos + FRAME_INTERVAL_NANOS <= u64::MAX,
    ensures
        close_requested ==> r == InteractiveAction::Exit,
        !close_requested ==> r == InteractiveAction::WaitUntil((now_nanos + FRAME_INTERVAL_NANOS) as u64),
{
    if close_requested {
        InteractiveAction::Exit
    } else {
        InteractiveAction::WaitUntil(now_nanos + FRAME_INTERVAL_NANOS)
    }
}

/// Scene time of an interactive frame: the time elapsed since the session
/// started, from nanoseconds to fixed-point seconds, rounded down.
pub fn elapsed_time(elapsed_nanos: u64) -> (r: i64)
    ensures
        r == elapsed_nanos / 1000,
{
    (elapsed_nanos / 1000) as i64
}

} // verus!
