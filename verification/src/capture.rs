//! The capture routine: one walk over the call stack, made while a value is
//! being wrapped, that records where the wrapping was asked for.
//!
//! The stack walker hands out the frames that are on the stack when it is
//! called, beginning with the frame that called it. The first two of them
//! are this crate's own: `walk_stack`, which calls the walker, and the
//! constructor that called `walk_stack`. They are left out, so that the
//! first address recorded lies in the code that asked for the wrapper.
//!
//! This holds while each of the two occupies exactly one frame, in a build
//! with optimization as in one without. Both are therefore marked
//! `#[inline(never)]`, and nothing stands between them. A conversion that
//! calls the constructor is marked `#[inline(always)]`, so that it gets no
//! frame of its own. Whoever changes that layering has to count the frames
//! again and change `SKIPPED_FRAMES` with it.
//!
//! The walker finds the frame that called it by the address at which its own
//! entry function starts. On a platform where it cannot tell where the
//! function of a frame starts, it hands out its own frames too, and a trace
//! made there begins with frames of the walker and of this crate.

use vstd::prelude::*;

verus! {

/// The number of frames at the start of every walk that belong to this crate.
pub const SKIPPED_FRAMES: usize = 2;

/// Of the frames at `ips`, innermost first, those that belong to the caller:
/// all but the first `SKIPPED_FRAMES`.
pub open spec fn caller_frames(ips: Seq<usize>) -> Seq<usize> {
    if ips.len() >= SKIPPED_FRAMES {
        ips.skip(SKIPPED_FRAMES as int)
    } else {
        Seq::empty()
    }
}

/// The caller's frames are the frames walked without the first two, in the
/// order they were met. On a stack deeper than the frames of this crate
/// there is at least one of them, and the first is the innermost frame that
/// is not of this crate.
pub proof fn lemma_caller_frames(ips: Seq<usize>)
    ensures
        caller_frames(ips).len() == if ips.len() >= SKIPPED_FRAMES {
            ips.len() - SKIPPED_FRAMES
        } else {
            0
        },
        forall|i: int|
            0 <= i < caller_frames(ips).len() ==> #[trigger] caller_frames(ips)[i] == ips[i
                + SKIPPED_FRAMES],
        ips.len() > SKIPPED_FRAMES ==> caller_frames(ips).len() > 0 && caller_frames(ips)[0]
            == ips[SKIPPED_FRAMES as int],
{
}

/// Leaves out the frames of this crate: what is left of `walked` are the
/// caller's frames. Nothing is copied to another buffer.
pub fn leave_out_inner(walked: Vec<usize>) -> (frames: Vec<usize>)
    ensures
        frames@ == caller_frames(walked@),
{
    let mut frames = walked;
    if frames.len() < SKIPPED_FRAMES {
        frames.clear();
    } else {
        let mut left_out: usize = 0;
        while left_out < SKIPPED_FRAMES
            invariant
                left_out <= SKIPPED_FRAMES,
                walked@.len() >= SKIPPED_FRAMES,
                frames@ == walked@.skip(left_out as int),
            decreases SKIPPED_FRAMES - left_out,
        {
            frames.remove(0);
            left_out = left_out + 1;
            assert(frames@ =~= walked@.skip(left_out as int));
        }
    }
    assert(frames@ =~= caller_frames(walked@));
    frames
}

/// `backtrace::Backtrace::new_unresolved`, with `Backtrace::frames` and
/// `BacktraceFrame::ip` for each frame it holds, in the order it holds them:
/// the addresses of the frames that are on the stack now, innermost first.
/// Nothing is claimed of them: which frames there are only the running
/// program knows. The walker means them to begin with the frame that called
/// it, which is the frame of this function.
///
/// Never inlined: its frame is one of the two that are left out.
#[verifier::external_body]
#[inline(never)]
pub(crate) fn walk_stack() -> (walked: Vec<usize>) {
    backtrace::Backtrace::new_unresolved().frames().iter().map(|frame| frame.ip() as usize).collect()
}

} // verus!
