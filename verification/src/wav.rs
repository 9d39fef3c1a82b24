//! Where a decoded clip is in its playback: starting, stopping with a short fade, restarting,
//! seeking, and the frame-by-frame advance that the audio callback drives.
//!
//! The callback owns the samples and the volume; for each output frame it asks the playhead
//! which sample to play, by how much to fade it, and whether playback goes on.

use vstd::prelude::*;

verus! {

/// Milliseconds of playback between two progress reports unless the caller asks for another
/// interval.
pub const DEFAULT_UPDATE_INTERVAL_MS: usize = 100;

/// The progress interval in frames: `interval_ms` (or the default) of playback at
/// `sample_rate`, rounded down, and no more than `usize` holds.
pub open spec fn spec_update_interval(sample_rate: u32, interval_ms: Option<usize>) -> usize {
    let ms: int = match interval_ms {
        Some(i) => i as int,
        None => DEFAULT_UPDATE_INTERVAL_MS as int,
    };
    let frames: int = ms * sample_rate / 1000;
    if frames > usize::MAX {
        usize::MAX
    } else {
        frames as usize
    }
}

fn update_interval_frames(sample_rate: u32, interval_ms: Option<usize>) -> (r: usize)
    ensures
        r == spec_update_interval(sample_rate, interval_ms),
{
    let ms: u128 = match interval_ms {
        Some(i) => i as u128,
        None => DEFAULT_UPDATE_INTERVAL_MS as u128,
    };
    let rate: u128 = sample_rate as u128;
    assert(ms * rate <= u128::MAX) by (nonlinear_arith)
        requires
            ms <= usize::MAX,
            rate <= u32::MAX,
            usize::MAX <= u64::MAX,
    ;
    let frames: u128 = ms * rate / 1000;
    if frames > usize::MAX as u128 {
        usize::MAX
    } else {
        frames as usize
    }
}

/// Playback state of a clip of `len` samples.
#[derive(Debug, Clone, Copy)]
pub struct Playhead {
    pub len: usize,
    pub active: bool,
    pub pos: usize,
    /// Length of a full fade-out, in frames.
    pub release_frames: usize,
    pub releasing: bool,
    pub release_total: usize,
    pub release_remaining: usize,
    pub restart_after_release: bool,
    /// Progress is reported whenever the position is a multiple of this many frames.
    pub update_interval: usize,
}

/// What the audio callback does with a block before mixing any frame.
#[derive(Debug, Clone, Copy, PartialEq, Eq, Structural)]
pub enum BlockStart {
    /// Not playing: leave the block untouched.
    Silent,
    /// The clip ran out: report full progress and stop.
    Finished,
    /// Mix frames.
    Play,
}

/// How playback goes on after a frame.
#[derive(Debug, Clone, Copy, PartialEq, Eq, Structural)]
pub enum FrameEnd {
    /// Keep mixing; report progress when asked to.
    Continue { report_progress: bool },
    /// The fade ended and the clip starts over from its first sample.
    Restarted,
    /// The fade ended and the clip stopped: end the block.
    Released,
    /// The clip ran out: report full progress and stop mixing.
    Finished,
}

/// The gain of a fading frame: `remaining / total`.
#[derive(Debug, Clone, Copy, PartialEq, Eq, Structural)]
pub struct Fade {
    pub remaining: usize,
    pub total: usize,
}

/// One output frame: the sample to play, the fade applied to it, and what comes next.
#[derive(Debug, Clone, Copy, PartialEq, Eq, Structural)]
pub struct FrameStep {
    pub index: usize,
    pub fade: Option<Fade>,
    pub end: FrameEnd,
}

/// `usize::is_multiple_of`: zero is the only multiple of zero.
pub open spec fn on_interval(pos: usize, interval: usize) -> bool {
    if interval == 0 {
        pos == 0
    } else {
        pos % interval == 0
    }
}

/// Frames in a fade of ten milliseconds at `sample_rate`, at least one.
pub open spec fn spec_release_frames(sample_rate: u32) -> usize {
    if sample_rate / 100 < 1 {
        1
    } else {
        (sample_rate / 100) as usize
    }
}

pub open spec fn min_nat(a: int, b: int) -> int {
    if a < b {
        a
    } else {
        b
    }
}

impl Playhead {
    pub open spec fn wf(self) -> bool {
        &&& self.release_frames >= 1
        &&& self.pos <= self.len
        &&& self.releasing ==> 1 <= self.release_remaining <= self.release_total
        &&& !self.releasing ==> self.release_remaining == 0 && !self.restart_after_release
    }

    pub open spec fn spec_is_playing(self) -> bool {
        self.active && self.pos < self.len
    }

    pub open spec fn spec_cancel_release(self) -> Playhead {
        Playhead { releasing: false, release_remaining: 0, restart_after_release: false, ..self }
    }

    /// A fade already under way keeps its length; a new one lasts a full release, cut short
    /// by the end of the clip.
    pub open spec fn spec_begin_release(self, restart: bool) -> Playhead {
        if self.releasing {
            Playhead { restart_after_release: restart, ..self }
        } else {
            let total = if min_nat(self.release_frames as int, self.len - self.pos) < 1 {
                1
            } else {
                min_nat(self.release_frames as int, self.len - self.pos)
            };
            Playhead {
                restart_after_release: restart,
                releasing: true,
                release_total: total as usize,
                release_remaining: total as usize,
                ..self
            }
        }
    }

    pub open spec fn spec_start(self) -> Playhead {
        Playhead { active: true, ..self.spec_cancel_release() }
    }

    pub open spec fn spec_stop(self) -> Playhead {
        if self.spec_is_playing() {
            self.spec_begin_release(false)
        } else {
            Playhead { active: false, ..self }
        }
    }

    pub open spec fn spec_restart(self) -> Playhead {
        if self.spec_is_playing() {
            self.spec_begin_release(true)
        } else {
            Playhead { pos: 0, active: true, ..self.spec_cancel_release() }
        }
    }

    /// The last sample is kept so that the callback still sees the clip finish.
    pub open spec fn spec_skip(self, frames: usize) -> Playhead {
        let last: int = if self.len == 0 {
            0
        } else {
            self.len - 1
        };
        Playhead { pos: min_nat(self.pos + frames, last) as usize, ..self }
    }

    pub open spec fn spec_rewind(self, frames: usize) -> Playhead {
        Playhead { pos: (self.pos - min_nat(frames as int, self.pos as int)) as usize, ..self }
    }

    /// One frame of playback from a playing position.
    pub open spec fn spec_next(self) -> (Playhead, FrameStep) {
        let fade = if self.releasing {
            Some(Fade { remaining: self.release_remaining, total: self.release_total })
        } else {
            None
        };
        let remaining = if self.releasing {
            (self.release_remaining - 1) as usize
        } else {
            self.release_remaining
        };
        let moved = Playhead { pos: (self.pos + 1) as usize, release_remaining: remaining, ..self };
        if self.releasing && remaining == 0 {
            if self.restart_after_release {
                (
                    Playhead { pos: 0, ..moved.spec_cancel_release() },
                    FrameStep { index: self.pos, fade, end: FrameEnd::Restarted },
                )
            } else {
                (
                    Playhead { active: false, ..moved.spec_cancel_release() },
                    FrameStep { index: self.pos, fade, end: FrameEnd::Released },
                )
            }
        } else if moved.pos >= moved.len {
            (
                Playhead { active: false, ..moved },
                FrameStep { index: self.pos, fade, end: FrameEnd::Finished },
            )
        } else {
            (
                moved,
                FrameStep {
                    index: self.pos,
                    fade,
                    end: FrameEnd::Continue {
                        report_progress: on_interval(moved.pos, moved.update_interval),
                    },
                },
            )
        }
    }

    /// A stopped playhead at the start of a clip of `len` samples played at `sample_rate`,
    /// reporting progress every `update_interval` milliseconds of playback (100 unless given).
    pub fn new(len: usize, sample_rate: u32, update_interval: Option<usize>) -> (r: Playhead)
        ensures
            r.wf(),
            r.len == len,
            r.pos == 0,
            !r.active,
            !r.releasing,
            r.release_frames == spec_release_frames(sample_rate),
            r.update_interval == spec_update_interval(sample_rate, update_interval),
    {
        let per_ten_ms = sample_rate / 100;
        Playhead {
            len,
            active: false,
            pos: 0,
            release_frames: if per_ten_ms < 1 {
                1
            } else {
                per_ten_ms as usize
            },
            releasing: false,
            release_total: 0,
            release_remaining: 0,
            restart_after_release: false,
            update_interval: update_interval_frames(sample_rate, update_interval),
        }
    }

    pub fn is_playing(&self) -> (r: bool)
        ensures
            r == self.spec_is_playing(),
    {
        self.active && self.pos < self.len
    }

    fn begin_release(&mut self, restart: bool)
        requires
            old(self).wf(),
        ensures
            *final(self) == old(self).spec_begin_release(restart),
    {
        self.restart_after_release = restart;
        if !self.releasing {
            self.releasing = true;
            let left = self.len - self.pos;
            let shorter = if self.release_frames < left {
                self.release_frames
            } else {
                left
            };
            let total = if shorter < 1 {
                1
            } else {
                shorter
            };
            self.release_total = total;
            self.release_remaining = total;
        }
    }

    fn cancel_release(&mut self)
        ensures
            *final(self) == old(self).spec_cancel_release(),
    {
        self.releasing = false;
        self.release_remaining = 0;
        self.restart_after_release = false;
    }

    /// Plays from the current position, dropping any fade under way.
    pub fn start(&mut self)
        requires
            old(self).wf(),
        ensures
            *final(self) == old(self).spec_start(),
            final(self).wf(),
    {
        self.cancel_release();
        self.active = true;
    }

    /// A playing clip fades out; any other stops at once.
    pub fn stop(&mut self)
        requires
            old(self).wf(),
        ensures
            *final(self) == old(self).spec_stop(),
            final(self).wf(),
    {
        if self.is_playing() {
            self.begin_release(false);
        } else {
            self.active = false;
        }
    }

    /// A playing clip fades out and then starts over; any other starts over at once.
    pub fn restart(&mut self)
        requires
            old(self).wf(),
        ensures
            *final(self) == old(self).spec_restart(),
            final(self).wf(),
    {
        if self.is_playing() {
            self.begin_release(true);
        } else {
            self.cancel_release();
            self.pos = 0;
            self.active = true;
        }
    }

    /// Moves forward by `frames`, stopping at the clip's last sample.
    pub fn skip(&mut self, frames: usize)
        requires
            old(self).wf(),
        ensures
            *final(self) == old(self).spec_skip(frames),
            final(self).wf(),
    {
        let last = if self.len == 0 {
            0
        } else {
            self.len - 1
        };
        if self.pos >= last || frames >= last - self.pos {
            self.pos = last;
        } else {
            self.pos = self.pos + frames;
        }
    }

    /// Moves back by `frames`, stopping at the first sample.
    pub fn rewind(&mut self, frames: usize)
        requires
            old(self).wf(),
        ensures
            *final(self) == old(self).spec_rewind(frames),
            final(self).wf(),
    {
        let back = if frames < self.pos {
            frames
        } else {
            self.pos
        };
        self.pos = self.pos - back;
    }

    /// Checks a block before its first frame is mixed.
    pub fn begin_block(&mut self) -> (r: BlockStart)
        requires
            old(self).wf(),
        ensures
            final(self).wf(),
            !old(self).active ==> r == BlockStart::Silent && *final(self) == *old(self),
            old(self).active && old(self).pos >= old(self).len ==> r == BlockStart::Finished
                && *final(self) == (Playhead { active: false, ..*old(self) }),
            old(self).spec_is_playing() ==> r == BlockStart::Play && *final(self) == *old(self),
    {
        if !self.active {
            BlockStart::Silent
        } else if self.pos >= self.len {
            self.active = false;
            BlockStart::Finished
        } else {
            BlockStart::Play
        }
    }

    /// Plays one frame.
    pub fn next_frame(&mut self) -> (r: FrameStep)
        requires
            old(self).wf(),
            old(self).spec_is_playing(),
        ensures
            (*final(self), r) == old(self).spec_next(),
            final(self).wf(),
            r.index < old(self).len,
            r.end is Continue || r.end is Restarted ==> final(self).spec_is_playing(),
    {
        let index = self.pos;
        let fade = if self.releasing {
            Some(Fade { remaining: self.release_remaining, total: self.release_total })
        } else {
            None
        };
        if self.releasing {
            self.release_remaining = self.release_remaining - 1;
        }
        self.pos = self.pos + 1;
        if self.releasing && self.release_remaining == 0 {
            let restart = self.restart_after_release;
            self.cancel_release();
            if restart {
                self.pos = 0;
                return FrameStep { index, fade, end: FrameEnd::Restarted };
            }
            self.active = false;
            return FrameStep { index, fade, end: FrameEnd::Released };
        }
        if self.pos >= self.len {
            self.active = false;
            return FrameStep { index, fade, end: FrameEnd::Finished };
        }
        let report = if self.update_interval == 0 {
            self.pos == 0
        } else {
            self.pos % self.update_interval == 0
        };
        FrameStep { index, fade, end: FrameEnd::Continue { report_progress: report } }
    }
}

/// Frames that `input_frames` frames recorded at `in_rate` last at `out_rate`, rounded up: the
/// length a resampled clip is cut back to.
pub fn resampled_len(input_frames: u64, in_rate: u64, out_rate: u64) -> (r: u64)
    requires
        in_rate > 0,
        input_frames * out_rate <= u64::MAX,
    ensures
        r * in_rate >= input_frames * out_rate,
        r * in_rate < input_frames * out_rate + in_rate,
        r == (input_frames * out_rate + in_rate - 1) / in_rate as int,
{
    let total = input_frames * out_rate;
    let q = total / in_rate;
    let rem = total % in_rate;
    assert(total == q * in_rate + rem && rem < in_rate) by (nonlinear_arith)
        requires
            in_rate > 0,
            q == total / in_rate,
            rem == total % in_rate,
    ;
    assert(q + (if rem == 0 { 0int } else { 1int }) == (total + in_rate - 1) / in_rate as int)
        by (nonlinear_arith)
        requires
            in_rate > 0,
            total == q * in_rate + rem,
            0 <= rem < in_rate,
    {
        let c: int = if rem == 0 { 0 } else { 1 };
        let n = total + in_rate - 1;
        assert(n == (q + c) * in_rate + (rem + in_rate - 1 - c * in_rate));
        assert(0 <= rem + in_rate - 1 - c * in_rate < in_rate);
        vstd::arithmetic::div_mod::lemma_fundamental_div_mod_converse(
            n,
            in_rate as int,
            q + c,
            rem + in_rate - 1 - c * in_rate,
        );
    }
    if rem == 0 {
        q
    } else {
        assert(q < u64::MAX) by (nonlinear_arith)
            requires
                total == q * in_rate + rem,
                rem > 0,
                in_rate > 0,
                total <= u64::MAX,
        ;
        assert((q + 1) * in_rate == q * in_rate + in_rate) by (nonlinear_arith);
        q + 1
    }
}

/// The playhead after `n` frames, or after fewer if playback stops first.
pub open spec fn run(p: Playhead, n: nat) -> Playhead
    decreases n,
{
    if n == 0 || !p.spec_is_playing() {
        p
    } else {
        run(p.spec_next().0, (n - 1) as nat)
    }
}

/// A fade under way that the end of the clip does not cut short runs for exactly its
/// remaining frames; then the clip either starts over from its first sample or stops right
/// after the last faded frame.
pub proof fn lemma_release_runs_out(p: Playhead)
    requires
        p.wf(),
        p.spec_is_playing(),
        p.releasing,
        p.pos + p.release_remaining <= p.len,
    ensures
        !run(p, p.release_remaining as nat).releasing,
        p.restart_after_release ==> run(p, p.release_remaining as nat).active
            && run(p, p.release_remaining as nat).pos == 0,
        !p.restart_after_release ==> !run(p, p.release_remaining as nat).active
            && run(p, p.release_remaining as nat).pos == p.pos + p.release_remaining,
    decreases p.release_remaining,
{
    let q = p.spec_next().0;
    assert(run(p, p.release_remaining as nat) == run(q, (p.release_remaining - 1) as nat));
    if p.release_remaining > 1 {
        lemma_release_runs_out(q);
    }
}

/// Stopping a playing clip fades it out over a full release, or over what is left of the
/// clip if that is shorter, and then it is silent.
pub proof fn lemma_stop_falls_silent(p: Playhead)
    requires
        p.wf(),
        p.spec_is_playing(),
        !p.releasing,
    ensures
        p.spec_stop().release_total == min_nat(p.release_frames as int, p.len - p.pos),
        !run(p.spec_stop(), p.spec_stop().release_total as nat).active,
        !run(p.spec_stop(), p.spec_stop().release_total as nat).releasing,
{
    lemma_release_runs_out(p.spec_stop());
}

/// Restarting a playing clip fades it out the same way and then plays it from the start.
pub proof fn lemma_restart_plays_from_start(p: Playhead)
    requires
        p.wf(),
        p.spec_is_playing(),
        !p.releasing,
    ensures
        p.spec_restart().release_total == min_nat(p.release_frames as int, p.len - p.pos),
        run(p.spec_restart(), p.spec_restart().release_total as nat).active,
        run(p.spec_restart(), p.spec_restart().release_total as nat).pos == 0,
        !run(p.spec_restart(), p.spec_restart().release_total as nat).releasing,
{
    lemma_release_runs_out(p.spec_restart());
}

/// A clip that is not playing is not faded: stopping leaves it silent at once and restarting
/// plays it from the start at once.
pub proof fn lemma_idle_clip_does_not_fade(p: Playhead)
    requires
        p.wf(),
        !p.spec_is_playing(),
        !p.releasing,
    ensures
        !p.spec_stop().active,
        !p.spec_stop().releasing,
        p.spec_restart().active,
        p.spec_restart().pos == 0,
        !p.spec_restart().releasing,
{
}

} // verus!
