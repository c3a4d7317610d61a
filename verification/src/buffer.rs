//! The playback buffer: a bounded FIFO of frames requested from the loader
//! but not yet displayed, two monotonic cursors (`load_index`, `play_index`),
//! and the elapsed playback clock that decides when the next frame is due.
//!
//! Frames are identified by index; resolving an index to a decoded raster is
//! the frame loader's business, outside the core. The buffer holds one
//! `PendingFrame` per issued request, releases the front one to the display
//! slot exactly when the clock says a new frame is due, and never skips: when
//! the queue is empty the display holds the previous frame and catches up
//! later, one dequeue per due frame.

use vstd::prelude::*;
use std::collections::VecDeque;
use crate::controller::{State, spec_is_playing, is_playing};

verus! {

/// Number of frames in the video.
pub const FRAME_COUNT: usize = 6572;

/// Target playback rate, in frames per second.
pub const FPS: u64 = 30;

/// Greatest number of frames requested but not yet displayed.
pub const PREFETCH_DEPTH: usize = 256;

/// The elapsed playback clock is kept in microseconds.
pub const MICROS_PER_SEC: u64 = 1000000;

/// A request issued to the frame loader for exactly one frame index. The
/// loaded raster is resolved outside the core and looked up by this index.
#[derive(Clone, Copy, Debug, PartialEq, Eq, Structural)]
pub struct PendingFrame {
    pub index: usize,
}

pub struct PlaybackBuffer {
    queue: VecDeque<PendingFrame>,
    play_index: usize,
    load_index: usize,
    start_index: usize,
    frame_count: usize,
    prefetch_depth: usize,
    elapsed_micros: u64,
    displayed: Option<PendingFrame>,
}

/// The frame ordinal due at a given elapsed playback time: one new frame
/// every 1/FPS seconds.
pub open spec fn spec_target_index(elapsed_micros: u64) -> int {
    (elapsed_micros * FPS) as int / (MICROS_PER_SEC as int)
}

impl PlaybackBuffer {
    pub closed spec fn spec_queue(&self) -> Seq<PendingFrame> {
        self.queue@
    }

    /// Count of frames already released to the display.
    pub closed spec fn spec_play_index(&self) -> usize {
        self.play_index
    }

    /// Next frame index to request from the loader.
    pub closed spec fn spec_load_index(&self) -> usize {
        self.load_index
    }

    /// The frame index loading began at; frames before it are never shown.
    pub closed spec fn spec_start_index(&self) -> usize {
        self.start_index
    }

    pub closed spec fn spec_frame_count(&self) -> usize {
        self.frame_count
    }

    pub closed spec fn spec_prefetch_depth(&self) -> usize {
        self.prefetch_depth
    }

    pub closed spec fn spec_elapsed_micros(&self) -> u64 {
        self.elapsed_micros
    }

    /// The frame currently installed in the display slot, None until the
    /// first dequeue.
    pub closed spec fn spec_displayed(&self) -> Option<PendingFrame> {
        self.displayed
    }

    /// Holds of every buffer reachable through this interface: the cursors
    /// are ordered and bounded by the frame count, the queue holds exactly
    /// the requested-but-undisplayed frames — consecutive indices ending at
    /// `load_index - 1` — never more than the prefetch depth of them, and the
    /// display slot holds the frame the play cursor last passed.
    pub open spec fn wf(&self) -> bool {
        &&& self.spec_start_index() <= self.spec_load_index() <= self.spec_frame_count()
        &&& self.spec_load_index() ==
            self.spec_start_index() + self.spec_play_index() + self.spec_queue().len()
        &&& self.spec_queue().len() <= self.spec_prefetch_depth()
        &&& forall|i: int| 0 <= i < self.spec_queue().len() ==>
            (#[trigger] self.spec_queue()[i]).index ==
                self.spec_load_index() - self.spec_queue().len() + i
        &&& self.spec_play_index() == 0 ==> self.spec_displayed() is None
        &&& self.spec_play_index() > 0 ==> self.spec_displayed() ==
            Some(PendingFrame {
                index: (self.spec_start_index() + self.spec_play_index() - 1) as usize,
            })
    }

    /// A fresh buffer: clock at zero, nothing queued, nothing displayed,
    /// loading to begin at `start_index`.
    pub fn new(frame_count: usize, prefetch_depth: usize, start_index: usize) -> (b: PlaybackBuffer)
        requires
            start_index <= frame_count,
        ensures
            b.wf(),
            b.spec_frame_count() == frame_count,
            b.spec_prefetch_depth() == prefetch_depth,
            b.spec_start_index() == start_index,
            b.spec_load_index() == start_index,
            b.spec_play_index() == 0,
            b.spec_queue().len() == 0,
            b.spec_elapsed_micros() == 0,
            b.spec_displayed() is None,
    {
        PlaybackBuffer {
            queue: VecDeque::new(),
            play_index: 0,
            load_index: start_index,
            start_index,
            frame_count,
            prefetch_depth,
            elapsed_micros: 0,
            displayed: None,
        }
    }

    /// Advances the playback clock by `dt_micros` — only while Playing, and
    /// saturating at the clock's ceiling rather than overflowing.
    pub fn tick(&mut self, dt_micros: u64, state: &State)
        requires
            old(self).wf(),
        ensures
            final(self).wf(),
            !spec_is_playing(*state) ==> *final(self) == *old(self),
            spec_is_playing(*state) ==> final(self).spec_elapsed_micros() ==
                if old(self).spec_elapsed_micros() + dt_micros <= u64::MAX {
                    (old(self).spec_elapsed_micros() + dt_micros) as u64
                } else {
                    u64::MAX
                },
            final(self).spec_queue() == old(self).spec_queue(),
            final(self).spec_play_index() == old(self).spec_play_index(),
            final(self).spec_load_index() == old(self).spec_load_index(),
            final(self).spec_start_index() == old(self).spec_start_index(),
            final(self).spec_frame_count() == old(self).spec_frame_count(),
            final(self).spec_prefetch_depth() == old(self).spec_prefetch_depth(),
            final(self).spec_displayed() == old(self).spec_displayed(),
    {
        if is_playing(state) {
            if dt_micros <= u64::MAX - self.elapsed_micros {
                self.elapsed_micros = self.elapsed_micros + dt_micros;
            } else {
                self.elapsed_micros = u64::MAX;
            }
        }
    }

    /// Requests frames at consecutive indices until the queue holds a full
    /// prefetch depth or the end of the stream is reached; each request
    /// enqueues its `PendingFrame` and advances `load_index`. At the end of
    /// the stream this is a no-op forever after.
    pub fn refill(&mut self)
        requires
            old(self).wf(),
        ensures
            final(self).wf(),
            final(self).spec_queue().len() == final(self).spec_prefetch_depth()
                || final(self).spec_load_index() == final(self).spec_frame_count(),
            old(self).spec_queue().len() >= old(self).spec_prefetch_depth()
                ==> *final(self) == *old(self),
            final(self).spec_load_index() >= old(self).spec_load_index(),
            final(self).spec_load_index() - final(self).spec_queue().len()
                == old(self).spec_load_index() - old(self).spec_queue().len(),
            final(self).spec_play_index() == old(self).spec_play_index(),
            final(self).spec_start_index() == old(self).spec_start_index(),
            final(self).spec_frame_count() == old(self).spec_frame_count(),
            final(self).spec_prefetch_depth() == old(self).spec_prefetch_depth(),
            final(self).spec_elapsed_micros() == old(self).spec_elapsed_micros(),
            final(self).spec_displayed() == old(self).spec_displayed(),
    {
        while self.queue.len() < self.prefetch_depth && self.load_index < self.frame_count
            invariant
                self.wf(),
                self.load_index >= old(self).spec_load_index(),
                self.load_index - self.queue@.len()
                    == old(self).spec_load_index() - old(self).spec_queue().len(),
                old(self).spec_queue().len() >= old(self).spec_prefetch_depth()
                    ==> *self == *old(self),
                self.play_index == old(self).spec_play_index(),
                self.start_index == old(self).spec_start_index(),
                self.frame_count == old(self).spec_frame_count(),
                self.prefetch_depth == old(self).spec_prefetch_depth(),
                self.elapsed_micros == old(self).spec_elapsed_micros(),
                self.displayed == old(self).spec_displayed(),
            decreases self.frame_count - self.load_index,
        {
            let idx = self.load_index;
            self.queue.push_back(PendingFrame { index: idx });
            self.load_index = idx + 1;
        }
    }

    /// Releases the front queued frame to the display slot when a new frame
    /// is due by the clock — only while Playing, and only when the queue is
    /// non-empty: an empty queue leaves the previous frame displayed and the
    /// play cursor where it is, so no frame is ever skipped.
    pub fn advance_display(&mut self, state: &State)
        requires
            old(self).wf(),
        ensures
            final(self).wf(),
            !spec_is_playing(*state) ==> *final(self) == *old(self),
            spec_is_playing(*state)
                && (old(self).spec_play_index() >= spec_target_index(old(self).spec_elapsed_micros())
                    || old(self).spec_queue().len() == 0)
                ==> *final(self) == *old(self),
            spec_is_playing(*state)
                && old(self).spec_play_index() < spec_target_index(old(self).spec_elapsed_micros())
                && old(self).spec_queue().len() > 0
                ==> final(self).spec_play_index() == old(self).spec_play_index() + 1
                    && final(self).spec_displayed() == Some(old(self).spec_queue()[0])
                    && final(self).spec_queue() == old(self).spec_queue().drop_first(),
            final(self).spec_load_index() == old(self).spec_load_index(),
            final(self).spec_start_index() == old(self).spec_start_index(),
            final(self).spec_frame_count() == old(self).spec_frame_count(),
            final(self).spec_prefetch_depth() == old(self).spec_prefetch_depth(),
            final(self).spec_elapsed_micros() == old(self).spec_elapsed_micros(),
    {
        if !is_playing(state) {
            return;
        }
        let target: u128 = (self.elapsed_micros as u128) * (FPS as u128) / (MICROS_PER_SEC as u128);
        if (self.play_index as u128) < target && self.queue.len() > 0 {
            let front = self.queue.pop_front();
            match front {
                Some(frame) => {
                    self.displayed = Some(frame);
                    self.play_index = self.play_index + 1;
                }
                None => {}
            }
        }
    }

    pub fn play_index(&self) -> (r: usize)
        ensures
            r == self.spec_play_index(),
    {
        self.play_index
    }

    pub fn load_index(&self) -> (r: usize)
        ensures
            r == self.spec_load_index(),
    {
        self.load_index
    }

    pub fn queue_len(&self) -> (r: usize)
        ensures
            r == self.spec_queue().len(),
    {
        self.queue.len()
    }

    pub fn elapsed_micros(&self) -> (r: u64)
        ensures
            r == self.spec_elapsed_micros(),
    {
        self.elapsed_micros
    }

    pub fn displayed(&self) -> (r: Option<PendingFrame>)
        ensures
            r == self.spec_displayed(),
    {
        self.displayed
    }
}

/// For every reachable buffer state the cursors are ordered and bounded:
/// `0 <= play_index <= load_index <= frame_count`.
pub proof fn lemma_cursor_bounds(b: &PlaybackBuffer)
    requires
        b.wf(),
    ensures
        0 <= b.spec_play_index() <= b.spec_load_index() <= b.spec_frame_count(),
{
}

/// The pending queue holds exactly the frames requested but not yet
/// displayed — `load_index - play_index - start_index` of them, the start
/// index accounting for the frames counted by neither cursor — and its
/// length never exceeds the prefetch depth.
pub proof fn lemma_queue_length(b: &PlaybackBuffer)
    requires
        b.wf(),
    ensures
        b.spec_queue().len() ==
            b.spec_load_index() - b.spec_play_index() - b.spec_start_index(),
        b.spec_queue().len() <= b.spec_prefetch_depth(),
{
}

} // verus!
