use vstd::prelude::*;
use crate::arith::{trunc_div, fits_i32, fits_i64};

verus! {

/// Ticks of the 90 kHz MPEG system clock per second.
pub const MPEG_CLOCK_FREQ: i64 = 90000;

/// Ticks of the MPEG system clock per millisecond.
pub open spec fn ticks_per_ms() -> int {
    MPEG_CLOCK_FREQ / 1000
}

/// The timing state of one caption decoder, in milliseconds except for the
/// PTS values, which are in MPEG clock ticks.
#[derive(Clone, Copy, Debug, PartialEq, Eq, Structural)]
pub struct DecoderTiming {
    /// `0` when no PTS was seen, `1` when one was, `2` once the minimum is set.
    pub pts_set: i32,
    pub min_pts: i64,
    pub sync_pts: i64,
    pub fts_now: i64,
    pub fts_offset: i64,
    pub fts_max: i64,
    pub fts_global: i64,
}

/// Counts of caption blocks seen since the last reset: line-21 field 1,
/// field 2, and CEA-708.
#[derive(Clone, Copy, Debug, PartialEq, Eq, Structural)]
pub struct CaptionBlockCounters {
    pub field1: i32,
    pub field2: i32,
    pub cea708: i32,
}

/// The counter that carries the timing when the decoder's clock did not
/// advance: field 1 if it counted anything, else field 2, else CEA-708.
pub open spec fn timing_counter(c: CaptionBlockCounters) -> i32 {
    if c.field1 != 0 {
        c.field1
    } else if c.field2 != 0 {
        c.field2
    } else {
        c.cea708
    }
}

/// The time in milliseconds that `blocks` caption blocks stand for, one
/// block per frame at 29.97 frames per second (1001/30 ms per frame,
/// rounded toward zero as integer division does).
pub open spec fn blocks_ms(blocks: i32) -> int {
    trunc_div(blocks * 1001, 3)
}

/// The global timestamp after the end of input: the last frame's start plus
/// one frame's duration, plus the time the counted caption blocks stand for.
pub open spec fn fts_at_end(t: DecoderTiming, c: CaptionBlockCounters, frame_ms: i64) -> int {
    t.fts_global + (t.fts_max + frame_ms) + blocks_ms(timing_counter(c))
}

/// Whether the end-of-input arithmetic stays within 32 and 64 bits at each
/// step, as the integer types it is computed in require.
pub open spec fn end_of_input_in_range(t: DecoderTiming, c: CaptionBlockCounters, frame_ms: i64) -> bool {
    &&& fits_i32(timing_counter(c) * 1001)
    &&& fits_i64(t.fts_max + frame_ms)
    &&& fits_i64(t.fts_global + (t.fts_max + frame_ms))
    &&& fits_i64(fts_at_end(t, c, frame_ms))
}

/// The field-1 count carries the timing whenever it is not zero, whatever the
/// other counts are; the field-2 count only when field 1 is empty; the
/// CEA-708 count only when both line-21 fields are empty. Counts that do not
/// carry the timing do not change the end-of-input timestamp.
pub proof fn lemma_timing_counter_priority(c: CaptionBlockCounters, other: CaptionBlockCounters, t: DecoderTiming, frame_ms: i64)
    ensures
        c.field1 != 0 ==> timing_counter(c) == c.field1,
        c.field1 == 0 && c.field2 != 0 ==> timing_counter(c) == c.field2,
        c.field1 == 0 && c.field2 == 0 ==> timing_counter(c) == c.cea708,
        c.field1 != 0 && other.field1 == c.field1 ==> fts_at_end(t, c, frame_ms) == fts_at_end(t, other, frame_ms),
        c.field1 == 0 && c.field2 != 0 && other.field1 == 0 && other.field2 == c.field2
            ==> fts_at_end(t, c, frame_ms) == fts_at_end(t, other, frame_ms),
        fts_at_end(t, c, frame_ms) == t.fts_global + t.fts_max + frame_ms + trunc_div(timing_counter(c) * 1001, 3),
{
}

/// Timestamps and counts of ordinary size never overflow: the range
/// conditions of the end-of-input update, the PTS range and the GOP times hold
/// whenever every timestamp is below 2^40 in magnitude and every caption-block
/// count below 2^20.
pub proof fn lemma_ordinary_values_in_range(
    t: DecoderTiming,
    c: CaptionBlockCounters,
    frame_ms: i64,
    postsync_ms: i64,
    first_gop: GopTime,
    last_gop: GopTime,
    gop_frames_ms: i64,
)
    requires
        -0x100_0000_0000 < first_gop.ms < 0x100_0000_0000,
        -0x100_0000_0000 < last_gop.ms < 0x100_0000_0000,
        -0x100_0000_0000 < gop_frames_ms < 0x100_0000_0000,
        -0x100_0000_0000 < t.fts_global < 0x100_0000_0000,
        -0x100_0000_0000 < t.fts_max < 0x100_0000_0000,
        -0x100_0000_0000 < t.fts_offset < 0x100_0000_0000,
        -0x100_0000_0000 < t.min_pts < 0x100_0000_0000,
        -0x100_0000_0000 < t.sync_pts < 0x100_0000_0000,
        -0x100_0000_0000 < frame_ms < 0x100_0000_0000,
        -0x100_0000_0000 < postsync_ms < 0x100_0000_0000,
        -0x10_0000 < c.field1 < 0x10_0000,
        -0x10_0000 < c.field2 < 0x10_0000,
        -0x10_0000 < c.cea708 < 0x10_0000,
    ensures
        end_of_input_in_range(t, c, frame_ms),
        pts_range_in_range(t, postsync_ms),
        gop_summary_in_range(first_gop, last_gop, gop_frames_ms),
{
    let b = timing_counter(c);
    assert(-0x10_0000 * 1001 <= b * 1001 <= 0x10_0000 * 1001) by (nonlinear_arith)
        requires -0x10_0000 < b < 0x10_0000;
    assert(-0x10_0000 * 1001 <= trunc_div(b * 1001, 3) <= 0x10_0000 * 1001);
    assert(-0x100_0000_0000 <= trunc_div(t.min_pts as int, ticks_per_ms()) <= 0x100_0000_0000);
    assert(-0x100_0000_0000 <= trunc_div(t.sync_pts as int, ticks_per_ms()) <= 0x100_0000_0000);
}

/// After a decoder's timing was closed the caption block counters are zero,
/// so closing the timing of each later decoder adds only the frame time.
pub proof fn lemma_later_decoders_get_no_block_time(t: DecoderTiming, frame_ms: i64)
    ensures
        fts_at_end(t, CaptionBlockCounters { field1: 0, field2: 0, cea708: 0 }, frame_ms)
            == t.fts_global + t.fts_max + frame_ms,
{
}

impl DecoderTiming {
    /// Closes the decoder's timing at the end of all input: the global
    /// timestamp moves past the last frame and takes in the time the caption
    /// block counters stand for; the counters and the current timestamp are
    /// reset, so captions still buffered are written with the right time.
    /// `frame_ms` is the duration of one frame in milliseconds.
    pub fn close_at_end_of_input(&mut self, counters: &mut CaptionBlockCounters, frame_ms: i64)
        requires
            end_of_input_in_range(*old(self), *old(counters), frame_ms),
        ensures
            final(self).fts_global == fts_at_end(*old(self), *old(counters), frame_ms),
            final(self).fts_now == 0,
            final(self).pts_set == old(self).pts_set,
            final(self).min_pts == old(self).min_pts,
            final(self).sync_pts == old(self).sync_pts,
            final(self).fts_offset == old(self).fts_offset,
            final(self).fts_max == old(self).fts_max,
            *final(counters) == (CaptionBlockCounters { field1: 0, field2: 0, cea708: 0 }),
            old(counters).field1 != 0 ==> final(self).fts_global == old(self).fts_global + old(self).fts_max
                + frame_ms + trunc_div(old(counters).field1 * 1001, 3),
            old(counters).field1 == 0 && old(counters).field2 != 0 ==> final(self).fts_global
                == old(self).fts_global + old(self).fts_max + frame_ms + trunc_div(old(counters).field2 * 1001, 3),
            old(counters).field1 == 0 && old(counters).field2 == 0 ==> final(self).fts_global
                == old(self).fts_global + old(self).fts_max + frame_ms + trunc_div(old(counters).cea708 * 1001, 3),
    {
        self.fts_global = self.fts_global + (self.fts_max + frame_ms);
        let blocks: i32 = if counters.field1 != 0 {
            counters.field1
        } else if counters.field2 != 0 {
            counters.field2
        } else {
            counters.cea708
        };
        let share: i32 = blocks * 1001 / 3;
        self.fts_global = self.fts_global + share as i64;
        counters.field1 = 0;
        counters.field2 = 0;
        counters.cea708 = 0;
        self.fts_now = 0;
    }

    /// Whether closing the timing at the end of input stays in range.
    pub fn end_of_input_fits(&self, counters: &CaptionBlockCounters, frame_ms: i64) -> (r: bool)
        ensures
            r == end_of_input_in_range(*self, *counters, frame_ms),
    {
        let blocks: i32 = if counters.field1 != 0 {
            counters.field1
        } else if counters.field2 != 0 {
            counters.field2
        } else {
            counters.cea708
        };
        let product: i64 = blocks as i64 * 1001;
        if product < i32::MIN as i64 || product > i32::MAX as i64 {
            return false;
        }
        let share: i128 = (product / 3) as i128;
        let frame_end: i128 = self.fts_max as i128 + frame_ms as i128;
        let global: i128 = self.fts_global as i128 + frame_end;
        let total: i128 = global + share;
        let lo: i128 = i64::MIN as i128;
        let hi: i128 = i64::MAX as i128;
        lo <= frame_end && frame_end <= hi && lo <= global && global <= hi && lo <= total && total <= hi
    }
}

/// The value of the minimum PTS before any PTS was seen.
pub const UNSET_MIN_PTS: i64 = 0x01FFFFFFFF;

/// The PTS range of a decoder's input, in milliseconds.
#[derive(Clone, Copy, Debug, PartialEq, Eq, Structural)]
pub struct PtsSummary {
    pub min_ms: i64,
    pub max_ms: i64,
    pub length_ms: i64,
}

/// Whether a decoder saw a PTS and set its minimum, so that a PTS range can
/// be reported.
pub open spec fn has_pts_range(t: DecoderTiming) -> bool {
    t.pts_set >= 1 && t.min_pts != UNSET_MIN_PTS
}

/// The first PTS in milliseconds, shifted by the timestamp offset.
pub open spec fn min_pts_ms(t: DecoderTiming) -> int {
    trunc_div(t.min_pts as int, ticks_per_ms()) - t.fts_offset
}

/// The last synchronised PTS in milliseconds, plus the frames shown since
/// the last GOP (`postsync_ms`).
pub open spec fn max_pts_ms(t: DecoderTiming, postsync_ms: i64) -> int {
    trunc_div(t.sync_pts as int, ticks_per_ms()) + postsync_ms
}

/// Whether the PTS range arithmetic stays within 64 bits at each step.
pub open spec fn pts_range_in_range(t: DecoderTiming, postsync_ms: i64) -> bool {
    &&& fits_i64(min_pts_ms(t))
    &&& fits_i64(max_pts_ms(t, postsync_ms))
    &&& fits_i64(max_pts_ms(t, postsync_ms) - trunc_div(t.min_pts as int, ticks_per_ms()))
    &&& fits_i64(max_pts_ms(t, postsync_ms) - min_pts_ms(t))
}

impl DecoderTiming {
    /// Whether a PTS range is reported for this decoder.
    pub fn has_pts_range(&self) -> (r: bool)
        ensures
            r == has_pts_range(*self),
            r <==> (self.pts_set >= 1 && self.min_pts != 0x01FFFFFFFFi64),
    {
        self.pts_set >= 1 && self.min_pts != UNSET_MIN_PTS
    }

    /// The decoder's PTS range: first and last time in milliseconds, and the
    /// length between them. `postsync_ms` is the duration of the frames shown
    /// since the last GOP.
    pub fn pts_summary(&self, postsync_ms: i64) -> (s: PtsSummary)
        requires
            pts_range_in_range(*self, postsync_ms),
        ensures
            s.min_ms == min_pts_ms(*self),
            s.max_ms == max_pts_ms(*self, postsync_ms),
            s.length_ms == s.max_ms - s.min_ms,
            s.min_ms == trunc_div(self.min_pts as int, 90) - self.fts_offset,
            s.max_ms == trunc_div(self.sync_pts as int, 90) + postsync_ms,
    {
        let ticks: i64 = MPEG_CLOCK_FREQ / 1000;
        let min_ms: i64 = self.min_pts / ticks - self.fts_offset;
        let max_ms: i64 = self.sync_pts / ticks + postsync_ms;
        let length_ms: i64 = self.sync_pts / ticks + postsync_ms - self.min_pts / ticks + self.fts_offset;
        PtsSummary { min_ms, max_ms, length_ms }
    }

    /// Whether the PTS range arithmetic stays in range.
    pub fn pts_summary_fits(&self, postsync_ms: i64) -> (r: bool)
        ensures
            r == pts_range_in_range(*self, postsync_ms),
    {
        let ticks: i64 = MPEG_CLOCK_FREQ / 1000;
        let min_ticks_ms: i128 = (self.min_pts / ticks) as i128;
        let min_ms: i128 = min_ticks_ms - self.fts_offset as i128;
        let max_ms: i128 = (self.sync_pts / ticks) as i128 + postsync_ms as i128;
        let span: i128 = max_ms - min_ticks_ms;
        let length: i128 = max_ms - min_ms;
        let lo: i128 = i64::MIN as i128;
        let hi: i128 = i64::MAX as i128;
        lo <= min_ms && min_ms <= hi && lo <= max_ms && max_ms <= hi && lo <= span && span <= hi
            && lo <= length && length <= hi
    }
}

/// A GOP time code as the video decoder last read it.
#[derive(Clone, Copy, Debug, PartialEq, Eq, Structural)]
pub struct GopTime {
    pub inited: bool,
    pub ms: i64,
}

/// The GOP times of a run: first and last time code, their difference, and
/// the difference with the frames since the last GOP added.
#[derive(Clone, Copy, Debug, PartialEq, Eq, Structural)]
pub struct GopSummary {
    pub initial_ms: i64,
    pub final_ms: i64,
    pub diff_ms: i64,
    pub length_ms: i64,
}

/// Whether GOP times are reported: both time codes were read, and the input
/// is not ASF (DVR-MS files carry invalid GOPs).
pub open spec fn has_gop_summary(first: GopTime, last: GopTime, asf: bool) -> bool {
    first.inited && last.inited && !asf
}

/// Whether GOP times are reported for a run: both time codes were read and
/// the input is not ASF.
pub fn gop_summary_shown(first: GopTime, last: GopTime, asf: bool) -> (r: bool)
    ensures
        r == has_gop_summary(first, last, asf),
        r <==> (first.inited && last.inited && !asf),
{
    first.inited && last.inited && !asf
}

/// Whether the GOP summary arithmetic stays within 64 bits.
pub open spec fn gop_summary_in_range(first: GopTime, last: GopTime, frames_ms: i64) -> bool {
    &&& fits_i64(last.ms - first.ms)
    &&& fits_i64(last.ms - first.ms + frames_ms)
}

/// The GOP times of a run; `frames_ms` is the duration of the frames since
/// the last GOP.
pub fn gop_summary(first: GopTime, last: GopTime, frames_ms: i64) -> (s: GopSummary)
    requires
        gop_summary_in_range(first, last, frames_ms),
    ensures
        s.initial_ms == first.ms,
        s.final_ms == last.ms,
        s.diff_ms == last.ms - first.ms,
        s.length_ms == s.diff_ms + frames_ms,
{
    let diff_ms: i64 = last.ms - first.ms;
    GopSummary { initial_ms: first.ms, final_ms: last.ms, diff_ms, length_ms: diff_ms + frames_ms }
}

/// Whether the GOP summary arithmetic stays in range.
pub fn gop_summary_fits(first: GopTime, last: GopTime, frames_ms: i64) -> (r: bool)
    ensures
        r == gop_summary_in_range(first, last, frames_ms),
{
    let diff: i128 = last.ms as i128 - first.ms as i128;
    let length: i128 = diff + frames_ms as i128;
    i64::MIN as i128 <= diff && diff <= i64::MAX as i128 && i64::MIN as i128 <= length
        && length <= i64::MAX as i128
}

} // verus!
