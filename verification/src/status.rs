//! Load-status values: the messages a background load sends to the user
//! interface, the progress fraction they carry, and the effects the
//! interface must apply after draining them.

use vstd::prelude::*;

verus! {

/// Number of progress units that stand for a completed load: a progress
/// fraction in [0, 1] is held in parts per million.
pub const PROGRESS_SCALE: u32 = 1000000;

/// A load-progress fraction in [0, 1], held in parts per million.
#[derive(Clone, Copy, Debug, PartialEq, Eq, Structural)]
pub struct Progress {
    pub ppm: u32,
}

impl Progress {
    /// A progress value never exceeds one whole.
    pub open spec fn wf(self) -> bool {
        self.ppm <= PROGRESS_SCALE
    }

    /// Build a progress fraction from a raw unit count, clamping anything
    /// above one whole down to it.
    pub fn from_ppm(ppm: u32) -> (r: Progress)
        ensures
            r.wf(),
            ppm <= PROGRESS_SCALE ==> r.ppm == ppm,
            ppm > PROGRESS_SCALE ==> r.ppm == PROGRESS_SCALE,
    {
        if ppm <= PROGRESS_SCALE {
            Progress { ppm }
        } else {
            Progress { ppm: PROGRESS_SCALE }
        }
    }
}

/// The status of a background load, as sent over the channel from the
/// worker and as stored by the user-interface state between frames.
pub enum ThreadLoadStatus<H, E> {
    /// No load in flight and no terminal outcome pending.
    Inactive,
    /// A progress report: the fraction of the load finished so far.
    Loading(Progress),
    /// The terminal message of a load that produced an image handle.
    Success(H),
    /// The terminal message of a load that failed.
    Error(E),
}

impl<H, E> Default for ThreadLoadStatus<H, E> {
    fn default() -> (r: Self)
        ensures
            r is Inactive,
    {
        ThreadLoadStatus::Inactive
    }
}

/// What the shell owes the user after a drained message: an immediate
/// repaint, and a re-render of the visualization of a new image.
#[derive(Clone, Copy, Debug, PartialEq, Eq, Structural)]
pub struct MessageEffects {
    pub repaint: bool,
    pub render: bool,
}

/// Whether one drained message asks the shell to repaint at once: every
/// real message does.
pub open spec fn message_repaints<H, E>(m: ThreadLoadStatus<H, E>) -> bool {
    !(m is Inactive)
}

/// Whether one drained message hands over a new image to render.
pub open spec fn message_renders<H, E>(m: ThreadLoadStatus<H, E>) -> bool {
    m is Success
}

/// Whether any message of a drain asks for a repaint.
pub open spec fn any_repaint<H, E>(msgs: Seq<ThreadLoadStatus<H, E>>) -> bool
    decreases msgs.len(),
{
    msgs.len() > 0 && (message_repaints(msgs.last()) || any_repaint(msgs.drop_last()))
}

/// Whether any message of a drain hands over a new image to render.
pub open spec fn any_render<H, E>(msgs: Seq<ThreadLoadStatus<H, E>>) -> bool
    decreases msgs.len(),
{
    msgs.len() > 0 && (message_renders(msgs.last()) || any_render(msgs.drop_last()))
}

/// The terminal message for a finished load: exactly one of `Success` or
/// `Error`, carrying what the loader handed back.
pub fn outcome_message<H, E>(outcome: Result<H, E>) -> (m: ThreadLoadStatus<H, E>)
    ensures
        m is Success || m is Error,
        outcome matches Ok(h) ==> m == ThreadLoadStatus::<H, E>::Success(h),
        outcome matches Err(e) ==> m == ThreadLoadStatus::<H, E>::Error(e),
{
    match outcome {
        Ok(h) => ThreadLoadStatus::Success(h),
        Err(e) => ThreadLoadStatus::Error(e),
    }
}

} // verus!
