use vstd::prelude::*;
use crate::timing::{
    DecoderTiming, GopTime, GopSummary, PtsSummary, gop_summary, gop_summary_in_range, gop_summary_shown,
    has_gop_summary, has_pts_range, max_pts_ms, min_pts_ms, pts_range_in_range,
};

verus! {

/// Counters a caption decoder keeps about its input.
#[derive(Clone, Copy, Debug, PartialEq, Eq, Structural)]
pub struct DecoderStats {
    pub total_pulldownframes: u32,
    pub frames_since_last_gop: i32,
    pub false_pict_header: i32,
    pub num_key_frames: i32,
    pub stat_numuserheaders: i32,
    pub stat_dvdccheaders: i32,
    pub stat_scte20ccheaders: i32,
    pub stat_replay4000headers: i32,
    pub stat_replay5000headers: i32,
    pub stat_hdtv: i32,
    pub stat_dishheaders: i32,
    pub stat_divicom: i32,
}

/// Durations in milliseconds that depend on the frame rate: the pulldown
/// frames, the frames since the last GOP at the input's frame rate, and the
/// same frames at 29.97 frames per second.
#[derive(Clone, Copy, Debug, PartialEq, Eq, Structural)]
pub struct FrameDurations {
    pub pulldown_ms: i64,
    pub postsync_ms: i64,
    pub gop_frames_ms: i64,
}

/// One part of the summary printed for a caption decoder at the end of a run.
#[derive(Clone, Copy, Debug, PartialEq, Eq, Structural)]
#[allow(inconsistent_fields)]
pub enum ReportItem {
    /// Pulldown frames and their duration.
    PulldownFrames { frames: u32, ms: i64 },
    /// The PTS range; `approximated` when the reference clock was reset.
    PtsRange { range: PtsSummary, approximated: bool },
    /// GOP times, with the frames since the last GOP.
    GopTimes { times: GopSummary, frames: i32 },
    /// Picture headers that were likely false and were discarded.
    FalsePictureHeaders(i32),
    KeyFrames(i32),
    UserDataFields(i32),
    DvdFields(i32),
    Scte20Fields(i32),
    ReplayTv4000Fields(i32),
    ReplayTv5000Fields(i32),
    HdtvFields(i32),
    DishNetworkFields(i32),
    /// CEA-608/Divicom fields; printed with a request for samples.
    DivicomFields(i32),
}

/// The one-element sequence of `item` when `present`, else the empty one.
pub open spec fn item_if(present: bool, item: ReportItem) -> Seq<ReportItem> {
    if present { seq![item] } else { Seq::empty() }
}

/// `prefix` followed by the lines about user-data counters: one for each
/// counter that is not zero, in a fixed order.
pub open spec fn followed_by_counters(prefix: Seq<ReportItem>, s: DecoderStats) -> Seq<ReportItem> {
    prefix
        + item_if(s.false_pict_header != 0, ReportItem::FalsePictureHeaders(s.false_pict_header))
        + item_if(s.num_key_frames != 0, ReportItem::KeyFrames(s.num_key_frames))
        + item_if(s.stat_numuserheaders != 0, ReportItem::UserDataFields(s.stat_numuserheaders))
        + item_if(s.stat_dvdccheaders != 0, ReportItem::DvdFields(s.stat_dvdccheaders))
        + item_if(s.stat_scte20ccheaders != 0, ReportItem::Scte20Fields(s.stat_scte20ccheaders))
        + item_if(s.stat_replay4000headers != 0, ReportItem::ReplayTv4000Fields(s.stat_replay4000headers))
        + item_if(s.stat_replay5000headers != 0, ReportItem::ReplayTv5000Fields(s.stat_replay5000headers))
        + item_if(s.stat_hdtv != 0, ReportItem::HdtvFields(s.stat_hdtv))
        + item_if(s.stat_dishheaders != 0, ReportItem::DishNetworkFields(s.stat_dishheaders))
        + item_if(s.stat_divicom != 0, ReportItem::DivicomFields(s.stat_divicom))
}

/// The PTS range as it is reported.
pub open spec fn pts_range_of(t: DecoderTiming, postsync_ms: i64) -> PtsSummary {
    PtsSummary {
        min_ms: min_pts_ms(t) as i64,
        max_ms: max_pts_ms(t, postsync_ms) as i64,
        length_ms: (max_pts_ms(t, postsync_ms) - min_pts_ms(t)) as i64,
    }
}

/// The GOP times as they are reported.
pub open spec fn gop_times_of(first: GopTime, last: GopTime, frames_ms: i64) -> GopSummary {
    GopSummary {
        initial_ms: first.ms,
        final_ms: last.ms,
        diff_ms: (last.ms - first.ms) as i64,
        length_ms: (last.ms - first.ms + frames_ms) as i64,
    }
}

/// The summary of a caption decoder, in the order it is printed.
pub open spec fn report_items(
    s: DecoderStats,
    t: DecoderTiming,
    first_gop: GopTime,
    last_gop: GopTime,
    asf: bool,
    pts_big_change: bool,
    d: FrameDurations,
) -> Seq<ReportItem> {
    let header = item_if(
        s.total_pulldownframes != 0,
        ReportItem::PulldownFrames { frames: s.total_pulldownframes, ms: d.pulldown_ms },
    ) + item_if(
        has_pts_range(t),
        ReportItem::PtsRange { range: pts_range_of(t, d.postsync_ms), approximated: pts_big_change },
    ) + item_if(
        has_gop_summary(first_gop, last_gop, asf),
        ReportItem::GopTimes {
            times: gop_times_of(first_gop, last_gop, d.gop_frames_ms),
            frames: s.frames_since_last_gop,
        },
    );
    followed_by_counters(header, s)
}

/// Whether a line of the summary agrees with the decoder's counters: a
/// counter line carries the value of its own counter, which is not zero.
pub open spec fn line_agrees(item: ReportItem, s: DecoderStats) -> bool {
    match item {
        ReportItem::FalsePictureHeaders(n) => n == s.false_pict_header && n != 0,
        ReportItem::KeyFrames(n) => n == s.num_key_frames && n != 0,
        ReportItem::UserDataFields(n) => n == s.stat_numuserheaders && n != 0,
        ReportItem::DvdFields(n) => n == s.stat_dvdccheaders && n != 0,
        ReportItem::Scte20Fields(n) => n == s.stat_scte20ccheaders && n != 0,
        ReportItem::ReplayTv4000Fields(n) => n == s.stat_replay4000headers && n != 0,
        ReportItem::ReplayTv5000Fields(n) => n == s.stat_replay5000headers && n != 0,
        ReportItem::HdtvFields(n) => n == s.stat_hdtv && n != 0,
        ReportItem::DishNetworkFields(n) => n == s.stat_dishheaders && n != 0,
        ReportItem::DivicomFields(n) => n == s.stat_divicom && n != 0,
        _ => true,
    }
}

/// Every line of `r` agrees with the counters `s`.
#[verifier::opaque]
pub open spec fn lines_agree(r: Seq<ReportItem>, s: DecoderStats) -> bool {
    forall|i: int| 0 <= i < r.len() ==> line_agrees(#[trigger] r[i], s)
}

proof fn lemma_agree_concat(a: Seq<ReportItem>, b: Seq<ReportItem>, s: DecoderStats)
    requires
        lines_agree(a, s),
        lines_agree(b, s),
    ensures
        lines_agree(a + b, s),
{
    reveal(lines_agree);
    assert forall|i: int| 0 <= i < (a + b).len() implies line_agrees(#[trigger] (a + b)[i], s) by {
        if i < a.len() {
            assert((a + b)[i] == a[i]);
        } else {
            assert((a + b)[i] == b[i - a.len()]);
        }
    }
}

proof fn lemma_item_agrees(items: Seq<ReportItem>, s: DecoderStats)
    requires
        items.len() <= 1,
        items.len() == 1 ==> line_agrees(items[0], s),
    ensures
        lines_agree(items, s),
{
    reveal(lines_agree);
}

proof fn lemma_contains_left(a: Seq<ReportItem>, b: Seq<ReportItem>, x: ReportItem)
    requires
        a.contains(x),
    ensures
        (a + b).contains(x),
{
    let i = choose|i: int| 0 <= i < a.len() && a[i] == x;
    assert((a + b)[i] == x);
}

proof fn lemma_contains_right(a: Seq<ReportItem>, b: Seq<ReportItem>, x: ReportItem)
    requires
        b.len() > 0,
        b[0] == x,
    ensures
        (a + b).contains(x),
{
    assert((a + b)[a.len() as int] == x);
}

/// The counter lines after `prefix` each carry their own non-zero counter.
proof fn lemma_counter_lines(prefix: Seq<ReportItem>, s: DecoderStats)
    requires
        lines_agree(prefix, s),
    ensures
        lines_agree(followed_by_counters(prefix, s), s),
{
    lemma_item_agrees(item_if(s.false_pict_header != 0, ReportItem::FalsePictureHeaders(s.false_pict_header)), s);
    lemma_agree_concat(prefix, item_if(s.false_pict_header != 0, ReportItem::FalsePictureHeaders(s.false_pict_header)), s);
    lemma_item_agrees(item_if(s.num_key_frames != 0, ReportItem::KeyFrames(s.num_key_frames)), s);
    lemma_agree_concat((prefix + item_if(s.false_pict_header != 0, ReportItem::FalsePictureHeaders(s.false_pict_header))), item_if(s.num_key_frames != 0, ReportItem::KeyFrames(s.num_key_frames)), s);
    lemma_item_agrees(item_if(s.stat_numuserheaders != 0, ReportItem::UserDataFields(s.stat_numuserheaders)), s);
    lemma_agree_concat(((prefix + item_if(s.false_pict_header != 0, ReportItem::FalsePictureHeaders(s.false_pict_header))) + item_if(s.num_key_frames != 0, ReportItem::KeyFrames(s.num_key_frames))), item_if(s.stat_numuserheaders != 0, ReportItem::UserDataFields(s.stat_numuserheaders)), s);
    lemma_item_agrees(item_if(s.stat_dvdccheaders != 0, ReportItem::DvdFields(s.stat_dvdccheaders)), s);
    lemma_agree_concat((((prefix + item_if(s.false_pict_header != 0, ReportItem::FalsePictureHeaders(s.false_pict_header))) + item_if(s.num_key_frames != 0, ReportItem::KeyFrames(s.num_key_frames))) + item_if(s.stat_numuserheaders != 0, ReportItem::UserDataFields(s.stat_numuserheaders))), item_if(s.stat_dvdccheaders != 0, ReportItem::DvdFields(s.stat_dvdccheaders)), s);
    lemma_item_agrees(item_if(s.stat_scte20ccheaders != 0, ReportItem::Scte20Fields(s.stat_scte20ccheaders)), s);
    lemma_agree_concat(((((prefix + item_if(s.false_pict_header != 0, ReportItem::FalsePictureHeaders(s.false_pict_header))) + item_if(s.num_key_frames != 0, ReportItem::KeyFrames(s.num_key_frames))) + item_if(s.stat_numuserheaders != 0, ReportItem::UserDataFields(s.stat_numuserheaders))) + item_if(s.stat_dvdccheaders != 0, ReportItem::DvdFields(s.stat_dvdccheaders))), item_if(s.stat_scte20ccheaders != 0, ReportItem::Scte20Fields(s.stat_scte20ccheaders)), s);
    lemma_item_agrees(item_if(s.stat_replay4000headers != 0, ReportItem::ReplayTv4000Fields(s.stat_replay4000headers)), s);
    lemma_agree_concat((((((prefix + item_if(s.false_pict_header != 0, ReportItem::FalsePictureHeaders(s.false_pict_header))) + item_if(s.num_key_frames != 0, ReportItem::KeyFrames(s.num_key_frames))) + item_if(s.stat_numuserheaders != 0, ReportItem::UserDataFields(s.stat_numuserheaders))) + item_if(s.stat_dvdccheaders != 0, ReportItem::DvdFields(s.stat_dvdccheaders))) + item_if(s.stat_scte20ccheaders != 0, ReportItem::Scte20Fields(s.stat_scte20ccheaders))), item_if(s.stat_replay4000headers != 0, ReportItem::ReplayTv4000Fields(s.stat_replay4000headers)), s);
    lemma_item_agrees(item_if(s.stat_replay5000headers != 0, ReportItem::ReplayTv5000Fields(s.stat_replay5000headers)), s);
    lemma_agree_concat(((((((prefix + item_if(s.false_pict_header != 0, ReportItem::FalsePictureHeaders(s.false_pict_header))) + item_if(s.num_key_frames != 0, ReportItem::KeyFrames(s.num_key_frames))) + item_if(s.stat_numuserheaders != 0, ReportItem::UserDataFields(s.stat_numuserheaders))) + item_if(s.stat_dvdccheaders != 0, ReportItem::DvdFields(s.stat_dvdccheaders))) + item_if(s.stat_scte20ccheaders != 0, ReportItem::Scte20Fields(s.stat_scte20ccheaders))) + item_if(s.stat_replay4000headers != 0, ReportItem::ReplayTv4000Fields(s.stat_replay4000headers))), item_if(s.stat_replay5000headers != 0, ReportItem::ReplayTv5000Fields(s.stat_replay5000headers)), s);
    lemma_item_agrees(item_if(s.stat_hdtv != 0, ReportItem::HdtvFields(s.stat_hdtv)), s);
    lemma_agree_concat((((((((prefix + item_if(s.false_pict_header != 0, ReportItem::FalsePictureHeaders(s.false_pict_header))) + item_if(s.num_key_frames != 0, ReportItem::KeyFrames(s.num_key_frames))) + item_if(s.stat_numuserheaders != 0, ReportItem::UserDataFields(s.stat_numuserheaders))) + item_if(s.stat_dvdccheaders != 0, ReportItem::DvdFields(s.stat_dvdccheaders))) + item_if(s.stat_scte20ccheaders != 0, ReportItem::Scte20Fields(s.stat_scte20ccheaders))) + item_if(s.stat_replay4000headers != 0, ReportItem::ReplayTv4000Fields(s.stat_replay4000headers))) + item_if(s.stat_replay5000headers != 0, ReportItem::ReplayTv5000Fields(s.stat_replay5000headers))), item_if(s.stat_hdtv != 0, ReportItem::HdtvFields(s.stat_hdtv)), s);
    lemma_item_agrees(item_if(s.stat_dishheaders != 0, ReportItem::DishNetworkFields(s.stat_dishheaders)), s);
    lemma_agree_concat(((((((((prefix + item_if(s.false_pict_header != 0, ReportItem::FalsePictureHeaders(s.false_pict_header))) + item_if(s.num_key_frames != 0, ReportItem::KeyFrames(s.num_key_frames))) + item_if(s.stat_numuserheaders != 0, ReportItem::UserDataFields(s.stat_numuserheaders))) + item_if(s.stat_dvdccheaders != 0, ReportItem::DvdFields(s.stat_dvdccheaders))) + item_if(s.stat_scte20ccheaders != 0, ReportItem::Scte20Fields(s.stat_scte20ccheaders))) + item_if(s.stat_replay4000headers != 0, ReportItem::ReplayTv4000Fields(s.stat_replay4000headers))) + item_if(s.stat_replay5000headers != 0, ReportItem::ReplayTv5000Fields(s.stat_replay5000headers))) + item_if(s.stat_hdtv != 0, ReportItem::HdtvFields(s.stat_hdtv))), item_if(s.stat_dishheaders != 0, ReportItem::DishNetworkFields(s.stat_dishheaders)), s);
    lemma_item_agrees(item_if(s.stat_divicom != 0, ReportItem::DivicomFields(s.stat_divicom)), s);
    lemma_agree_concat((((((((((prefix + item_if(s.false_pict_header != 0, ReportItem::FalsePictureHeaders(s.false_pict_header))) + item_if(s.num_key_frames != 0, ReportItem::KeyFrames(s.num_key_frames))) + item_if(s.stat_numuserheaders != 0, ReportItem::UserDataFields(s.stat_numuserheaders))) + item_if(s.stat_dvdccheaders != 0, ReportItem::DvdFields(s.stat_dvdccheaders))) + item_if(s.stat_scte20ccheaders != 0, ReportItem::Scte20Fields(s.stat_scte20ccheaders))) + item_if(s.stat_replay4000headers != 0, ReportItem::ReplayTv4000Fields(s.stat_replay4000headers))) + item_if(s.stat_replay5000headers != 0, ReportItem::ReplayTv5000Fields(s.stat_replay5000headers))) + item_if(s.stat_hdtv != 0, ReportItem::HdtvFields(s.stat_hdtv))) + item_if(s.stat_dishheaders != 0, ReportItem::DishNetworkFields(s.stat_dishheaders))), item_if(s.stat_divicom != 0, ReportItem::DivicomFields(s.stat_divicom)), s);
}

/// Each counter that is not zero has its line after `prefix`.
#[verifier::rlimit(40)]
proof fn lemma_counter_lines_present(prefix: Seq<ReportItem>, s: DecoderStats)
    ensures
        s.false_pict_header != 0 ==> followed_by_counters(prefix, s).contains(ReportItem::FalsePictureHeaders(s.false_pict_header)),
        s.num_key_frames != 0 ==> followed_by_counters(prefix, s).contains(ReportItem::KeyFrames(s.num_key_frames)),
        s.stat_numuserheaders != 0 ==> followed_by_counters(prefix, s).contains(ReportItem::UserDataFields(s.stat_numuserheaders)),
        s.stat_dvdccheaders != 0 ==> followed_by_counters(prefix, s).contains(ReportItem::DvdFields(s.stat_dvdccheaders)),
        s.stat_scte20ccheaders != 0 ==> followed_by_counters(prefix, s).contains(ReportItem::Scte20Fields(s.stat_scte20ccheaders)),
        s.stat_replay4000headers != 0 ==> followed_by_counters(prefix, s).contains(ReportItem::ReplayTv4000Fields(s.stat_replay4000headers)),
        s.stat_replay5000headers != 0 ==> followed_by_counters(prefix, s).contains(ReportItem::ReplayTv5000Fields(s.stat_replay5000headers)),
        s.stat_hdtv != 0 ==> followed_by_counters(prefix, s).contains(ReportItem::HdtvFields(s.stat_hdtv)),
        s.stat_dishheaders != 0 ==> followed_by_counters(prefix, s).contains(ReportItem::DishNetworkFields(s.stat_dishheaders)),
        s.stat_divicom != 0 ==> followed_by_counters(prefix, s).contains(ReportItem::DivicomFields(s.stat_divicom)),
{
    if s.false_pict_header != 0 {
        assert(item_if(s.false_pict_header != 0, ReportItem::FalsePictureHeaders(s.false_pict_header))[0] == ReportItem::FalsePictureHeaders(s.false_pict_header));
        lemma_contains_right(prefix, item_if(s.false_pict_header != 0, ReportItem::FalsePictureHeaders(s.false_pict_header)), ReportItem::FalsePictureHeaders(s.false_pict_header));
        lemma_contains_left((prefix + item_if(s.false_pict_header != 0, ReportItem::FalsePictureHeaders(s.false_pict_header))), item_if(s.num_key_frames != 0, ReportItem::KeyFrames(s.num_key_frames)), ReportItem::FalsePictureHeaders(s.false_pict_header));
        lemma_contains_left(((prefix + item_if(s.false_pict_header != 0, ReportItem::FalsePictureHeaders(s.false_pict_header))) + item_if(s.num_key_frames != 0, ReportItem::KeyFrames(s.num_key_frames))), item_if(s.stat_numuserheaders != 0, ReportItem::UserDataFields(s.stat_numuserheaders)), ReportItem::FalsePictureHeaders(s.false_pict_header));
        lemma_contains_left((((prefix + item_if(s.false_pict_header != 0, ReportItem::FalsePictureHeaders(s.false_pict_header))) + item_if(s.num_key_frames != 0, ReportItem::KeyFrames(s.num_key_frames))) + item_if(s.stat_numuserheaders != 0, ReportItem::UserDataFields(s.stat_numuserheaders))), item_if(s.stat_dvdccheaders != 0, ReportItem::DvdFields(s.stat_dvdccheaders)), ReportItem::FalsePictureHeaders(s.false_pict_header));
        lemma_contains_left(((((prefix + item_if(s.false_pict_header != 0, ReportItem::FalsePictureHeaders(s.false_pict_header))) + item_if(s.num_key_frames != 0, ReportItem::KeyFrames(s.num_key_frames))) + item_if(s.stat_numuserheaders != 0, ReportItem::UserDataFields(s.stat_numuserheaders))) + item_if(s.stat_dvdccheaders != 0, ReportItem::DvdFields(s.stat_dvdccheaders))), item_if(s.stat_scte20ccheaders != 0, ReportItem::Scte20Fields(s.stat_scte20ccheaders)), ReportItem::FalsePictureHeaders(s.false_pict_header));
        lemma_contains_left((((((prefix + item_if(s.false_pict_header != 0, ReportItem::FalsePictureHeaders(s.false_pict_header))) + item_if(s.num_key_frames != 0, ReportItem::KeyFrames(s.num_key_frames))) + item_if(s.stat_numuserheaders != 0, ReportItem::UserDataFields(s.stat_numuserheaders))) + item_if(s.stat_dvdccheaders != 0, ReportItem::DvdFields(s.stat_dvdccheaders))) + item_if(s.stat_scte20ccheaders != 0, ReportItem::Scte20Fields(s.stat_scte20ccheaders))), item_if(s.stat_replay4000headers != 0, ReportItem::ReplayTv4000Fields(s.stat_replay4000headers)), ReportItem::FalsePictureHeaders(s.false_pict_header));
        lemma_contains_left(((((((prefix + item_if(s.false_pict_header != 0, ReportItem::FalsePictureHeaders(s.false_pict_header))) + item_if(s.num_key_frames != 0, ReportItem::KeyFrames(s.num_key_frames))) + item_if(s.stat_numuserheaders != 0, ReportItem::UserDataFields(s.stat_numuserheaders))) + item_if(s.stat_dvdccheaders != 0, ReportItem::DvdFields(s.stat_dvdccheaders))) + item_if(s.stat_scte20ccheaders != 0, ReportItem::Scte20Fields(s.stat_scte20ccheaders))) + item_if(s.stat_replay4000headers != 0, ReportItem::ReplayTv4000Fields(s.stat_replay4000headers))), item_if(s.stat_replay5000headers != 0, ReportItem::ReplayTv5000Fields(s.stat_replay5000headers)), ReportItem::FalsePictureHeaders(s.false_pict_header));
        lemma_contains_left((((((((prefix + item_if(s.false_pict_header != 0, ReportItem::FalsePictureHeaders(s.false_pict_header))) + item_if(s.num_key_frames != 0, ReportItem::KeyFrames(s.num_key_frames))) + item_if(s.stat_numuserheaders != 0, ReportItem::UserDataFields(s.stat_numuserheaders))) + item_if(s.stat_dvdccheaders != 0, ReportItem::DvdFields(s.stat_dvdccheaders))) + item_if(s.stat_scte20ccheaders != 0, ReportItem::Scte20Fields(s.stat_scte20ccheaders))) + item_if(s.stat_replay4000headers != 0, ReportItem::ReplayTv4000Fields(s.stat_replay4000headers))) + item_if(s.stat_replay5000headers != 0, ReportItem::ReplayTv5000Fields(s.stat_replay5000headers))), item_if(s.stat_hdtv != 0, ReportItem::HdtvFields(s.stat_hdtv)), ReportItem::FalsePictureHeaders(s.false_pict_header));
        lemma_contains_left(((((((((prefix + item_if(s.false_pict_header != 0, ReportItem::FalsePictureHeaders(s.false_pict_header))) + item_if(s.num_key_frames != 0, ReportItem::KeyFrames(s.num_key_frames))) + item_if(s.stat_numuserheaders != 0, ReportItem::UserDataFields(s.stat_numuserheaders))) + item_if(s.stat_dvdccheaders != 0, ReportItem::DvdFields(s.stat_dvdccheaders))) + item_if(s.stat_scte20ccheaders != 0, ReportItem::Scte20Fields(s.stat_scte20ccheaders))) + item_if(s.stat_replay4000headers != 0, ReportItem::ReplayTv4000Fields(s.stat_replay4000headers))) + item_if(s.stat_replay5000headers != 0, ReportItem::ReplayTv5000Fields(s.stat_replay5000headers))) + item_if(s.stat_hdtv != 0, ReportItem::HdtvFields(s.stat_hdtv))), item_if(s.stat_dishheaders != 0, ReportItem::DishNetworkFields(s.stat_dishheaders)), ReportItem::FalsePictureHeaders(s.false_pict_header));
        lemma_contains_left((((((((((prefix + item_if(s.false_pict_header != 0, ReportItem::FalsePictureHeaders(s.false_pict_header))) + item_if(s.num_key_frames != 0, ReportItem::KeyFrames(s.num_key_frames))) + item_if(s.stat_numuserheaders != 0, ReportItem::UserDataFields(s.stat_numuserheaders))) + item_if(s.stat_dvdccheaders != 0, ReportItem::DvdFields(s.stat_dvdccheaders))) + item_if(s.stat_scte20ccheaders != 0, ReportItem::Scte20Fields(s.stat_scte20ccheaders))) + item_if(s.stat_replay4000headers != 0, ReportItem::ReplayTv4000Fields(s.stat_replay4000headers))) + item_if(s.stat_replay5000headers != 0, ReportItem::ReplayTv5000Fields(s.stat_replay5000headers))) + item_if(s.stat_hdtv != 0, ReportItem::HdtvFields(s.stat_hdtv))) + item_if(s.stat_dishheaders != 0, ReportItem::DishNetworkFields(s.stat_dishheaders))), item_if(s.stat_divicom != 0, ReportItem::DivicomFields(s.stat_divicom)), ReportItem::FalsePictureHeaders(s.false_pict_header));
        assert(followed_by_counters(prefix, s) == ((((((((((prefix + item_if(s.false_pict_header != 0, ReportItem::FalsePictureHeaders(s.false_pict_header))) + item_if(s.num_key_frames != 0, ReportItem::KeyFrames(s.num_key_frames))) + item_if(s.stat_numuserheaders != 0, ReportItem::UserDataFields(s.stat_numuserheaders))) + item_if(s.stat_dvdccheaders != 0, ReportItem::DvdFields(s.stat_dvdccheaders))) + item_if(s.stat_scte20ccheaders != 0, ReportItem::Scte20Fields(s.stat_scte20ccheaders))) + item_if(s.stat_replay4000headers != 0, ReportItem::ReplayTv4000Fields(s.stat_replay4000headers))) + item_if(s.stat_replay5000headers != 0, ReportItem::ReplayTv5000Fields(s.stat_replay5000headers))) + item_if(s.stat_hdtv != 0, ReportItem::HdtvFields(s.stat_hdtv))) + item_if(s.stat_dishheaders != 0, ReportItem::DishNetworkFields(s.stat_dishheaders))) + item_if(s.stat_divicom != 0, ReportItem::DivicomFields(s.stat_divicom))));
    }
    if s.num_key_frames != 0 {
        assert(item_if(s.num_key_frames != 0, ReportItem::KeyFrames(s.num_key_frames))[0] == ReportItem::KeyFrames(s.num_key_frames));
        lemma_contains_right((prefix + item_if(s.false_pict_header != 0, ReportItem::FalsePictureHeaders(s.false_pict_header))), item_if(s.num_key_frames != 0, ReportItem::KeyFrames(s.num_key_frames)), ReportItem::KeyFrames(s.num_key_frames));
        lemma_contains_left(((prefix + item_if(s.false_pict_header != 0, ReportItem::FalsePictureHeaders(s.false_pict_header))) + item_if(s.num_key_frames != 0, ReportItem::KeyFrames(s.num_key_frames))), item_if(s.stat_numuserheaders != 0, ReportItem::UserDataFields(s.stat_numuserheaders)), ReportItem::KeyFrames(s.num_key_frames));
        lemma_contains_left((((prefix + item_if(s.false_pict_header != 0, ReportItem::FalsePictureHeaders(s.false_pict_header))) + item_if(s.num_key_frames != 0, ReportItem::KeyFrames(s.num_key_frames))) + item_if(s.stat_numuserheaders != 0, ReportItem::UserDataFields(s.stat_numuserheaders))), item_if(s.stat_dvdccheaders != 0, ReportItem::DvdFields(s.stat_dvdccheaders)), ReportItem::KeyFrames(s.num_key_frames));
        lemma_contains_left(((((prefix + item_if(s.false_pict_header != 0, ReportItem::FalsePictureHeaders(s.false_pict_header))) + item_if(s.num_key_frames != 0, ReportItem::KeyFrames(s.num_key_frames))) + item_if(s.stat_numuserheaders != 0, ReportItem::UserDataFields(s.stat_numuserheaders))) + item_if(s.stat_dvdccheaders != 0, ReportItem::DvdFields(s.stat_dvdccheaders))), item_if(s.stat_scte20ccheaders != 0, ReportItem::Scte20Fields(s.stat_scte20ccheaders)), ReportItem::KeyFrames(s.num_key_frames));
        lemma_contains_left((((((prefix + item_if(s.false_pict_header != 0, ReportItem::FalsePictureHeaders(s.false_pict_header))) + item_if(s.num_key_frames != 0, ReportItem::KeyFrames(s.num_key_frames))) + item_if(s.stat_numuserheaders != 0, ReportItem::UserDataFields(s.stat_numuserheaders))) + item_if(s.stat_dvdccheaders != 0, ReportItem::DvdFields(s.stat_dvdccheaders))) + item_if(s.stat_scte20ccheaders != 0, ReportItem::Scte20Fields(s.stat_scte20ccheaders))), item_if(s.stat_replay4000headers != 0, ReportItem::ReplayTv4000Fields(s.stat_replay4000headers)), ReportItem::KeyFrames(s.num_key_frames));
        lemma_contains_left(((((((prefix + item_if(s.false_pict_header != 0, ReportItem::FalsePictureHeaders(s.false_pict_header))) + item_if(s.num_key_frames != 0, ReportItem::KeyFrames(s.num_key_frames))) + item_if(s.stat_numuserheaders != 0, ReportItem::UserDataFields(s.stat_numuserheaders))) + item_if(s.stat_dvdccheaders != 0, ReportItem::DvdFields(s.stat_dvdccheaders))) + item_if(s.stat_scte20ccheaders != 0, ReportItem::Scte20Fields(s.stat_scte20ccheaders))) + item_if(s.stat_replay4000headers != 0, ReportItem::ReplayTv4000Fields(s.stat_replay4000headers))), item_if(s.stat_replay5000headers != 0, ReportItem::ReplayTv5000Fields(s.stat_replay5000headers)), ReportItem::KeyFrames(s.num_key_frames));
        lemma_contains_left((((((((prefix + item_if(s.false_pict_header != 0, ReportItem::FalsePictureHeaders(s.false_pict_header))) + item_if(s.num_key_frames != 0, ReportItem::KeyFrames(s.num_key_frames))) + item_if(s.stat_numuserheaders != 0, ReportItem::UserDataFields(s.stat_numuserheaders))) + item_if(s.stat_dvdccheaders != 0, ReportItem::DvdFields(s.stat_dvdccheaders))) + item_if(s.stat_scte20ccheaders != 0, ReportItem::Scte20Fields(s.stat_scte20ccheaders))) + item_if(s.stat_replay4000headers != 0, ReportItem::ReplayTv4000Fields(s.stat_replay4000headers))) + item_if(s.stat_replay5000headers != 0, ReportItem::ReplayTv5000Fields(s.stat_replay5000headers))), item_if(s.stat_hdtv != 0, ReportItem::HdtvFields(s.stat_hdtv)), ReportItem::KeyFrames(s.num_key_frames));
        lemma_contains_left(((((((((prefix + item_if(s.false_pict_header != 0, ReportItem::FalsePictureHeaders(s.false_pict_header))) + item_if(s.num_key_frames != 0, ReportItem::KeyFrames(s.num_key_frames))) + item_if(s.stat_numuserheaders != 0, ReportItem::UserDataFields(s.stat_numuserheaders))) + item_if(s.stat_dvdccheaders != 0, ReportItem::DvdFields(s.stat_dvdccheaders))) + item_if(s.stat_scte20ccheaders != 0, ReportItem::Scte20Fields(s.stat_scte20ccheaders))) + item_if(s.stat_replay4000headers != 0, ReportItem::ReplayTv4000Fields(s.stat_replay4000headers))) + item_if(s.stat_replay5000headers != 0, ReportItem::ReplayTv5000Fields(s.stat_replay5000headers))) + item_if(s.stat_hdtv != 0, ReportItem::HdtvFields(s.stat_hdtv))), item_if(s.stat_dishheaders != 0, ReportItem::DishNetworkFields(s.stat_dishheaders)), ReportItem::KeyFrames(s.num_key_frames));
        lemma_contains_left((((((((((prefix + item_if(s.false_pict_header != 0, ReportItem::FalsePictureHeaders(s.false_pict_header))) + item_if(s.num_key_frames != 0, ReportItem::KeyFrames(s.num_key_frames))) + item_if(s.stat_numuserheaders != 0, ReportItem::UserDataFields(s.stat_numuserheaders))) + item_if(s.stat_dvdccheaders != 0, ReportItem::DvdFields(s.stat_dvdccheaders))) + item_if(s.stat_scte20ccheaders != 0, ReportItem::Scte20Fields(s.stat_scte20ccheaders))) + item_if(s.stat_replay4000headers != 0, ReportItem::ReplayTv4000Fields(s.stat_replay4000headers))) + item_if(s.stat_replay5000headers != 0, ReportItem::ReplayTv5000Fields(s.stat_replay5000headers))) + item_if(s.stat_hdtv != 0, ReportItem::HdtvFields(s.stat_hdtv))) + item_if(s.stat_dishheaders != 0, ReportItem::DishNetworkFields(s.stat_dishheaders))), item_if(s.stat_divicom != 0, ReportItem::DivicomFields(s.stat_divicom)), ReportItem::KeyFrames(s.num_key_frames));
        assert(followed_by_counters(prefix, s) == ((((((((((prefix + item_if(s.false_pict_header != 0, ReportItem::FalsePictureHeaders(s.false_pict_header))) + item_if(s.num_key_frames != 0, ReportItem::KeyFrames(s.num_key_frames))) + item_if(s.stat_numuserheaders != 0, ReportItem::UserDataFields(s.stat_numuserheaders))) + item_if(s.stat_dvdccheaders != 0, ReportItem::DvdFields(s.stat_dvdccheaders))) + item_if(s.stat_scte20ccheaders != 0, ReportItem::Scte20Fields(s.stat_scte20ccheaders))) + item_if(s.stat_replay4000headers != 0, ReportItem::ReplayTv4000Fields(s.stat_replay4000headers))) + item_if(s.stat_replay5000headers != 0, ReportItem::ReplayTv5000Fields(s.stat_replay5000headers))) + item_if(s.stat_hdtv != 0, ReportItem::HdtvFields(s.stat_hdtv))) + item_if(s.stat_dishheaders != 0, ReportItem::DishNetworkFields(s.stat_dishheaders))) + item_if(s.stat_divicom != 0, ReportItem::DivicomFields(s.stat_divicom))));
    }
    if s.stat_numuserheaders != 0 {
        assert(item_if(s.stat_numuserheaders != 0, ReportItem::UserDataFields(s.stat_numuserheaders))[0] == ReportItem::UserDataFields(s.stat_numuserheaders));
        lemma_contains_right(((prefix + item_if(s.false_pict_header != 0, ReportItem::FalsePictureHeaders(s.false_pict_header))) + item_if(s.num_key_frames != 0, ReportItem::KeyFrames(s.num_key_frames))), item_if(s.stat_numuserheaders != 0, ReportItem::UserDataFields(s.stat_numuserheaders)), ReportItem::UserDataFields(s.stat_numuserheaders));
        lemma_contains_left((((prefix + item_if(s.false_pict_header != 0, ReportItem::FalsePictureHeaders(s.false_pict_header))) + item_if(s.num_key_frames != 0, ReportItem::KeyFrames(s.num_key_frames))) + item_if(s.stat_numuserheaders != 0, ReportItem::UserDataFields(s.stat_numuserheaders))), item_if(s.stat_dvdccheaders != 0, ReportItem::DvdFields(s.stat_dvdccheaders)), ReportItem::UserDataFields(s.stat_numuserheaders));
        lemma_contains_left(((((prefix + item_if(s.false_pict_header != 0, ReportItem::FalsePictureHeaders(s.false_pict_header))) + item_if(s.num_key_frames != 0, ReportItem::KeyFrames(s.num_key_frames))) + item_if(s.stat_numuserheaders != 0, ReportItem::UserDataFields(s.stat_numuserheaders))) + item_if(s.stat_dvdccheaders != 0, ReportItem::DvdFields(s.stat_dvdccheaders))), item_if(s.stat_scte20ccheaders != 0, ReportItem::Scte20Fields(s.stat_scte20ccheaders)), ReportItem::UserDataFields(s.stat_numuserheaders));
        lemma_contains_left((((((prefix + item_if(s.false_pict_header != 0, ReportItem::FalsePictureHeaders(s.false_pict_header))) + item_if(s.num_key_frames != 0, ReportItem::KeyFrames(s.num_key_frames))) + item_if(s.stat_numuserheaders != 0, ReportItem::UserDataFields(s.stat_numuserheaders))) + item_if(s.stat_dvdccheaders != 0, ReportItem::DvdFields(s.stat_dvdccheaders))) + item_if(s.stat_scte20ccheaders != 0, ReportItem::Scte20Fields(s.stat_scte20ccheaders))), item_if(s.stat_replay4000headers != 0, ReportItem::ReplayTv4000Fields(s.stat_replay4000headers)), ReportItem::UserDataFields(s.stat_numuserheaders));
        lemma_contains_left(((((((prefix + item_if(s.false_pict_header != 0, ReportItem::FalsePictureHeaders(s.false_pict_header))) + item_if(s.num_key_frames != 0, ReportItem::KeyFrames(s.num_key_frames))) + item_if(s.stat_numuserheaders != 0, ReportItem::UserDataFields(s.stat_numuserheaders))) + item_if(s.stat_dvdccheaders != 0, ReportItem::DvdFields(s.stat_dvdccheaders))) + item_if(s.stat_scte20ccheaders != 0, ReportItem::Scte20Fields(s.stat_scte20ccheaders))) + item_if(s.stat_replay4000headers != 0, ReportItem::ReplayTv4000Fields(s.stat_replay4000headers))), item_if(s.stat_replay5000headers != 0, ReportItem::ReplayTv5000Fields(s.stat_replay5000headers)), ReportItem::UserDataFields(s.stat_numuserheaders));
        lemma_contains_left((((((((prefix + item_if(s.false_pict_header != 0, ReportItem::FalsePictureHeaders(s.false_pict_header))) + item_if(s.num_key_frames != 0, ReportItem::KeyFrames(s.num_key_frames))) + item_if(s.stat_numuserheaders != 0, ReportItem::UserDataFields(s.stat_numuserheaders))) + item_if(s.stat_dvdccheaders != 0, ReportItem::DvdFields(s.stat_dvdccheaders))) + item_if(s.stat_scte20ccheaders != 0, ReportItem::Scte20Fields(s.stat_scte20ccheaders))) + item_if(s.stat_replay4000headers != 0, ReportItem::ReplayTv4000Fields(s.stat_replay4000headers))) + item_if(s.stat_replay5000headers != 0, ReportItem::ReplayTv5000Fields(s.stat_replay5000headers))), item_if(s.stat_hdtv != 0, ReportItem::HdtvFields(s.stat_hdtv)), ReportItem::UserDataFields(s.stat_numuserheaders));
        lemma_contains_left(((((((((prefix + item_if(s.false_pict_header != 0, ReportItem::FalsePictureHeaders(s.false_pict_header))) + item_if(s.num_key_frames != 0, ReportItem::KeyFrames(s.num_key_frames))) + item_if(s.stat_numuserheaders != 0, ReportItem::UserDataFields(s.stat_numuserheaders))) + item_if(s.stat_dvdccheaders != 0, ReportItem::DvdFields(s.stat_dvdccheaders))) + item_if(s.stat_scte20ccheaders != 0, ReportItem::Scte20Fields(s.stat_scte20ccheaders))) + item_if(s.stat_replay4000headers != 0, ReportItem::ReplayTv4000Fields(s.stat_replay4000headers))) + item_if(s.stat_replay5000headers != 0, ReportItem::ReplayTv5000Fields(s.stat_replay5000headers))) + item_if(s.stat_hdtv != 0, ReportItem::HdtvFields(s.stat_hdtv))), item_if(s.stat_dishheaders != 0, ReportItem::DishNetworkFields(s.stat_dishheaders)), ReportItem::UserDataFields(s.stat_numuserheaders));
        lemma_contains_left((((((((((prefix + item_if(s.false_pict_header != 0, ReportItem::FalsePictureHeaders(s.false_pict_header))) + item_if(s.num_key_frames != 0, ReportItem::KeyFrames(s.num_key_frames))) + item_if(s.stat_numuserheaders != 0, ReportItem::UserDataFields(s.stat_numuserheaders))) + item_if(s.stat_dvdccheaders != 0, ReportItem::DvdFields(s.stat_dvdccheaders))) + item_if(s.stat_scte20ccheaders != 0, ReportItem::Scte20Fields(s.stat_scte20ccheaders))) + item_if(s.stat_replay4000headers != 0, ReportItem::ReplayTv4000Fields(s.stat_replay4000headers))) + item_if(s.stat_replay5000headers != 0, ReportItem::ReplayTv5000Fields(s.stat_replay5000headers))) + item_if(s.stat_hdtv != 0, ReportItem::HdtvFields(s.stat_hdtv))) + item_if(s.stat_dishheaders != 0, ReportItem::DishNetworkFields(s.stat_dishheaders))), item_if(s.stat_divicom != 0, ReportItem::DivicomFields(s.stat_divicom)), ReportItem::UserDataFields(s.stat_numuserheaders));
        assert(followed_by_counters(prefix, s) == ((((((((((prefix + item_if(s.false_pict_header != 0, ReportItem::FalsePictureHeaders(s.false_pict_header))) + item_if(s.num_key_frames != 0, ReportItem::KeyFrames(s.num_key_frames))) + item_if(s.stat_numuserheaders != 0, ReportItem::UserDataFields(s.stat_numuserheaders))) + item_if(s.stat_dvdccheaders != 0, ReportItem::DvdFields(s.stat_dvdccheaders))) + item_if(s.stat_scte20ccheaders != 0, ReportItem::Scte20Fields(s.stat_scte20ccheaders))) + item_if(s.stat_replay4000headers != 0, ReportItem::ReplayTv4000Fields(s.stat_replay4000headers))) + item_if(s.stat_replay5000headers != 0, ReportItem::ReplayTv5000Fields(s.stat_replay5000headers))) + item_if(s.stat_hdtv != 0, ReportItem::HdtvFields(s.stat_hdtv))) + item_if(s.stat_dishheaders != 0, ReportItem::DishNetworkFields(s.stat_dishheaders))) + item_if(s.stat_divicom != 0, ReportItem::DivicomFields(s.stat_divicom))));
    }
    if s.stat_dvdccheaders != 0 {
        assert(item_if(s.stat_dvdccheaders != 0, ReportItem::DvdFields(s.stat_dvdccheaders))[0] == ReportItem::DvdFields(s.stat_dvdccheaders));
        lemma_contains_right((((prefix + item_if(s.false_pict_header != 0, ReportItem::FalsePictureHeaders(s.false_pict_header))) + item_if(s.num_key_frames != 0, ReportItem::KeyFrames(s.num_key_frames))) + item_if(s.stat_numuserheaders != 0, ReportItem::UserDataFields(s.stat_numuserheaders))), item_if(s.stat_dvdccheaders != 0, ReportItem::DvdFields(s.stat_dvdccheaders)), ReportItem::DvdFields(s.stat_dvdccheaders));
        lemma_contains_left(((((prefix + item_if(s.false_pict_header != 0, ReportItem::FalsePictureHeaders(s.false_pict_header))) + item_if(s.num_key_frames != 0, ReportItem::KeyFrames(s.num_key_frames))) + item_if(s.stat_numuserheaders != 0, ReportItem::UserDataFields(s.stat_numuserheaders))) + item_if(s.stat_dvdccheaders != 0, ReportItem::DvdFields(s.stat_dvdccheaders))), item_if(s.stat_scte20ccheaders != 0, ReportItem::Scte20Fields(s.stat_scte20ccheaders)), ReportItem::DvdFields(s.stat_dvdccheaders));
        lemma_contains_left((((((prefix + item_if(s.false_pict_header != 0, ReportItem::FalsePictureHeaders(s.false_pict_header))) + item_if(s.num_key_frames != 0, ReportItem::KeyFrames(s.num_key_frames))) + item_if(s.stat_numuserheaders != 0, ReportItem::UserDataFields(s.stat_numuserheaders))) + item_if(s.stat_dvdccheaders != 0, ReportItem::DvdFields(s.stat_dvdccheaders))) + item_if(s.stat_scte20ccheaders != 0, ReportItem::Scte20Fields(s.stat_scte20ccheaders))), item_if(s.stat_replay4000headers != 0, ReportItem::ReplayTv4000Fields(s.stat_replay4000headers)), ReportItem::DvdFields(s.stat_dvdccheaders));
        lemma_contains_left(((((((prefix + item_if(s.false_pict_header != 0, ReportItem::FalsePictureHeaders(s.false_pict_header))) + item_if(s.num_key_frames != 0, ReportItem::KeyFrames(s.num_key_frames))) + item_if(s.stat_numuserheaders != 0, ReportItem::UserDataFields(s.stat_numuserheaders))) + item_if(s.stat_dvdccheaders != 0, ReportItem::DvdFields(s.stat_dvdccheaders))) + item_if(s.stat_scte20ccheaders != 0, ReportItem::Scte20Fields(s.stat_scte20ccheaders))) + item_if(s.stat_replay4000headers != 0, ReportItem::ReplayTv4000Fields(s.stat_replay4000headers))), item_if(s.stat_replay5000headers != 0, ReportItem::ReplayTv5000Fields(s.stat_replay5000headers)), ReportItem::DvdFields(s.stat_dvdccheaders));
        lemma_contains_left((((((((prefix + item_if(s.false_pict_header != 0, ReportItem::FalsePictureHeaders(s.false_pict_header))) + item_if(s.num_key_frames != 0, ReportItem::KeyFrames(s.num_key_frames))) + item_if(s.stat_numuserheaders != 0, ReportItem::UserDataFields(s.stat_numuserheaders))) + item_if(s.stat_dvdccheaders != 0, ReportItem::DvdFields(s.stat_dvdccheaders))) + item_if(s.stat_scte20ccheaders != 0, ReportItem::Scte20Fields(s.stat_scte20ccheaders))) + item_if(s.stat_replay4000headers != 0, ReportItem::ReplayTv4000Fields(s.stat_replay4000headers))) + item_if(s.stat_replay5000headers != 0, ReportItem::ReplayTv5000Fields(s.stat_replay5000headers))), item_if(s.stat_hdtv != 0, ReportItem::HdtvFields(s.stat_hdtv)), ReportItem::DvdFields(s.stat_dvdccheaders));
        lemma_contains_left(((((((((prefix + item_if(s.false_pict_header != 0, ReportItem::FalsePictureHeaders(s.false_pict_header))) + item_if(s.num_key_frames != 0, ReportItem::KeyFrames(s.num_key_frames))) + item_if(s.stat_numuserheaders != 0, ReportItem::UserDataFields(s.stat_numuserheaders))) + item_if(s.stat_dvdccheaders != 0, ReportItem::DvdFields(s.stat_dvdccheaders))) + item_if(s.stat_scte20ccheaders != 0, ReportItem::Scte20Fields(s.stat_scte20ccheaders))) + item_if(s.stat_replay4000headers != 0, ReportItem::ReplayTv4000Fields(s.stat_replay4000headers))) + item_if(s.stat_replay5000headers != 0, ReportItem::ReplayTv5000Fields(s.stat_replay5000headers))) + item_if(s.stat_hdtv != 0, ReportItem::HdtvFields(s.stat_hdtv))), item_if(s.stat_dishheaders != 0, ReportItem::DishNetworkFields(s.stat_dishheaders)), ReportItem::DvdFields(s.stat_dvdccheaders));
        lemma_contains_left((((((((((prefix + item_if(s.false_pict_header != 0, ReportItem::FalsePictureHeaders(s.false_pict_header))) + item_if(s.num_key_frames != 0, ReportItem::KeyFrames(s.num_key_frames))) + item_if(s.stat_numuserheaders != 0, ReportItem::UserDataFields(s.stat_numuserheaders))) + item_if(s.stat_dvdccheaders != 0, ReportItem::DvdFields(s.stat_dvdccheaders))) + item_if(s.stat_scte20ccheaders != 0, ReportItem::Scte20Fields(s.stat_scte20ccheaders))) + item_if(s.stat_replay4000headers != 0, ReportItem::ReplayTv4000Fields(s.stat_replay4000headers))) + item_if(s.stat_replay5000headers != 0, ReportItem::ReplayTv5000Fields(s.stat_replay5000headers))) + item_if(s.stat_hdtv != 0, ReportItem::HdtvFields(s.stat_hdtv))) + item_if(s.stat_dishheaders != 0, ReportItem::DishNetworkFields(s.stat_dishheaders))), item_if(s.stat_divicom != 0, ReportItem::DivicomFields(s.stat_divicom)), ReportItem::DvdFields(s.stat_dvdccheaders));
        assert(followed_by_counters(prefix, s) == ((((((((((prefix + item_if(s.false_pict_header != 0, ReportItem::FalsePictureHeaders(s.false_pict_header))) + item_if(s.num_key_frames != 0, ReportItem::KeyFrames(s.num_key_frames))) + item_if(s.stat_numuserheaders != 0, ReportItem::UserDataFields(s.stat_numuserheaders))) + item_if(s.stat_dvdccheaders != 0, ReportItem::DvdFields(s.stat_dvdccheaders))) + item_if(s.stat_scte20ccheaders != 0, ReportItem::Scte20Fields(s.stat_scte20ccheaders))) + item_if(s.stat_replay4000headers != 0, ReportItem::ReplayTv4000Fields(s.stat_replay4000headers))) + item_if(s.stat_replay5000headers != 0, ReportItem::ReplayTv5000Fields(s.stat_replay5000headers))) + item_if(s.stat_hdtv != 0, ReportItem::HdtvFields(s.stat_hdtv))) + item_if(s.stat_dishheaders != 0, ReportItem::DishNetworkFields(s.stat_dishheaders))) + item_if(s.stat_divicom != 0, ReportItem::DivicomFields(s.stat_divicom))));
    }
    if s.stat_scte20ccheaders != 0 {
        assert(item_if(s.stat_scte20ccheaders != 0, ReportItem::Scte20Fields(s.stat_scte20ccheaders))[0] == ReportItem::Scte20Fields(s.stat_scte20ccheaders));
        lemma_contains_right(((((prefix + item_if(s.false_pict_header != 0, ReportItem::FalsePictureHeaders(s.false_pict_header))) + item_if(s.num_key_frames != 0, ReportItem::KeyFrames(s.num_key_frames))) + item_if(s.stat_numuserheaders != 0, ReportItem::UserDataFields(s.stat_numuserheaders))) + item_if(s.stat_dvdccheaders != 0, ReportItem::DvdFields(s.stat_dvdccheaders))), item_if(s.stat_scte20ccheaders != 0, ReportItem::Scte20Fields(s.stat_scte20ccheaders)), ReportItem::Scte20Fields(s.stat_scte20ccheaders));
        lemma_contains_left((((((prefix + item_if(s.false_pict_header != 0, ReportItem::FalsePictureHeaders(s.false_pict_header))) + item_if(s.num_key_frames != 0, ReportItem::KeyFrames(s.num_key_frames))) + item_if(s.stat_numuserheaders != 0, ReportItem::UserDataFields(s.stat_numuserheaders))) + item_if(s.stat_dvdccheaders != 0, ReportItem::DvdFields(s.stat_dvdccheaders))) + item_if(s.stat_scte20ccheaders != 0, ReportItem::Scte20Fields(s.stat_scte20ccheaders))), item_if(s.stat_replay4000headers != 0, ReportItem::ReplayTv4000Fields(s.stat_replay4000headers)), ReportItem::Scte20Fields(s.stat_scte20ccheaders));
        lemma_contains_left(((((((prefix + item_if(s.false_pict_header != 0, ReportItem::FalsePictureHeaders(s.false_pict_header))) + item_if(s.num_key_frames != 0, ReportItem::KeyFrames(s.num_key_frames))) + item_if(s.stat_numuserheaders != 0, ReportItem::UserDataFields(s.stat_numuserheaders))) + item_if(s.stat_dvdccheaders != 0, ReportItem::DvdFields(s.stat_dvdccheaders))) + item_if(s.stat_scte20ccheaders != 0, ReportItem::Scte20Fields(s.stat_scte20ccheaders))) + item_if(s.stat_replay4000headers != 0, ReportItem::ReplayTv4000Fields(s.stat_replay4000headers))), item_if(s.stat_replay5000headers != 0, ReportItem::ReplayTv5000Fields(s.stat_replay5000headers)), ReportItem::Scte20Fields(s.stat_scte20ccheaders));
        lemma_contains_left((((((((prefix + item_if(s.false_pict_header != 0, ReportItem::FalsePictureHeaders(s.false_pict_header))) + item_if(s.num_key_frames != 0, ReportItem::KeyFrames(s.num_key_frames))) + item_if(s.stat_numuserheaders != 0, ReportItem::UserDataFields(s.stat_numuserheaders))) + item_if(s.stat_dvdccheaders != 0, ReportItem::DvdFields(s.stat_dvdccheaders))) + item_if(s.stat_scte20ccheaders != 0, ReportItem::Scte20Fields(s.stat_scte20ccheaders))) + item_if(s.stat_replay4000headers != 0, ReportItem::ReplayTv4000Fields(s.stat_replay4000headers))) + item_if(s.stat_replay5000headers != 0, ReportItem::ReplayTv5000Fields(s.stat_replay5000headers))), item_if(s.stat_hdtv != 0, ReportItem::HdtvFields(s.stat_hdtv)), ReportItem::Scte20Fields(s.stat_scte20ccheaders));
        lemma_contains_left(((((((((prefix + item_if(s.false_pict_header != 0, ReportItem::FalsePictureHeaders(s.false_pict_header))) + item_if(s.num_key_frames != 0, ReportItem::KeyFrames(s.num_key_frames))) + item_if(s.stat_numuserheaders != 0, ReportItem::UserDataFields(s.stat_numuserheaders))) + item_if(s.stat_dvdccheaders != 0, ReportItem::DvdFields(s.stat_dvdccheaders))) + item_if(s.stat_scte20ccheaders != 0, ReportItem::Scte20Fields(s.stat_scte20ccheaders))) + item_if(s.stat_replay4000headers != 0, ReportItem::ReplayTv4000Fields(s.stat_replay4000headers))) + item_if(s.stat_replay5000headers != 0, ReportItem::ReplayTv5000Fields(s.stat_replay5000headers))) + item_if(s.stat_hdtv != 0, ReportItem::HdtvFields(s.stat_hdtv))), item_if(s.stat_dishheaders != 0, ReportItem::DishNetworkFields(s.stat_dishheaders)), ReportItem::Scte20Fields(s.stat_scte20ccheaders));
        lemma_contains_left((((((((((prefix + item_if(s.false_pict_header != 0, ReportItem::FalsePictureHeaders(s.false_pict_header))) + item_if(s.num_key_frames != 0, ReportItem::KeyFrames(s.num_key_frames))) + item_if(s.stat_numuserheaders != 0, ReportItem::UserDataFields(s.stat_numuserheaders))) + item_if(s.stat_dvdccheaders != 0, ReportItem::DvdFields(s.stat_dvdccheaders))) + item_if(s.stat_scte20ccheaders != 0, ReportItem::Scte20Fields(s.stat_scte20ccheaders))) + item_if(s.stat_replay4000headers != 0, ReportItem::ReplayTv4000Fields(s.stat_replay4000headers))) + item_if(s.stat_replay5000headers != 0, ReportItem::ReplayTv5000Fields(s.stat_replay5000headers))) + item_if(s.stat_hdtv != 0, ReportItem::HdtvFields(s.stat_hdtv))) + item_if(s.stat_dishheaders != 0, ReportItem::DishNetworkFields(s.stat_dishheaders))), item_if(s.stat_divicom != 0, ReportItem::DivicomFields(s.stat_divicom)), ReportItem::Scte20Fields(s.stat_scte20ccheaders));
        assert(followed_by_counters(prefix, s) == ((((((((((prefix + item_if(s.false_pict_header != 0, ReportItem::FalsePictureHeaders(s.false_pict_header))) + item_if(s.num_key_frames != 0, ReportItem::KeyFrames(s.num_key_frames))) + item_if(s.stat_numuserheaders != 0, ReportItem::UserDataFields(s.stat_numuserheaders))) + item_if(s.stat_dvdccheaders != 0, ReportItem::DvdFields(s.stat_dvdccheaders))) + item_if(s.stat_scte20ccheaders != 0, ReportItem::Scte20Fields(s.stat_scte20ccheaders))) + item_if(s.stat_replay4000headers != 0, ReportItem::ReplayTv4000Fields(s.stat_replay4000headers))) + item_if(s.stat_replay5000headers != 0, ReportItem::ReplayTv5000Fields(s.stat_replay5000headers))) + item_if(s.stat_hdtv != 0, ReportItem::HdtvFields(s.stat_hdtv))) + item_if(s.stat_dishheaders != 0, ReportItem::DishNetworkFields(s.stat_dishheaders))) + item_if(s.stat_divicom != 0, ReportItem::DivicomFields(s.stat_divicom))));
    }
    if s.stat_replay4000headers != 0 {
        assert(item_if(s.stat_replay4000headers != 0, ReportItem::ReplayTv4000Fields(s.stat_replay4000headers))[0] == ReportItem::ReplayTv4000Fields(s.stat_replay4000headers));
        lemma_contains_right((((((prefix + item_if(s.false_pict_header != 0, ReportItem::FalsePictureHeaders(s.false_pict_header))) + item_if(s.num_key_frames != 0, ReportItem::KeyFrames(s.num_key_frames))) + item_if(s.stat_numuserheaders != 0, ReportItem::UserDataFields(s.stat_numuserheaders))) + item_if(s.stat_dvdccheaders != 0, ReportItem::DvdFields(s.stat_dvdccheaders))) + item_if(s.stat_scte20ccheaders != 0, ReportItem::Scte20Fields(s.stat_scte20ccheaders))), item_if(s.stat_replay4000headers != 0, ReportItem::ReplayTv4000Fields(s.stat_replay4000headers)), ReportItem::ReplayTv4000Fields(s.stat_replay4000headers));
        lemma_contains_left(((((((prefix + item_if(s.false_pict_header != 0, ReportItem::FalsePictureHeaders(s.false_pict_header))) + item_if(s.num_key_frames != 0, ReportItem::KeyFrames(s.num_key_frames))) + item_if(s.stat_numuserheaders != 0, ReportItem::UserDataFields(s.stat_numuserheaders))) + item_if(s.stat_dvdccheaders != 0, ReportItem::DvdFields(s.stat_dvdccheaders))) + item_if(s.stat_scte20ccheaders != 0, ReportItem::Scte20Fields(s.stat_scte20ccheaders))) + item_if(s.stat_replay4000headers != 0, ReportItem::ReplayTv4000Fields(s.stat_replay4000headers))), item_if(s.stat_replay5000headers != 0, ReportItem::ReplayTv5000Fields(s.stat_replay5000headers)), ReportItem::ReplayTv4000Fields(s.stat_replay4000headers));
        lemma_contains_left((((((((prefix + item_if(s.false_pict_header != 0, ReportItem::FalsePictureHeaders(s.false_pict_header))) + item_if(s.num_key_frames != 0, ReportItem::KeyFrames(s.num_key_frames))) + item_if(s.stat_numuserheaders != 0, ReportItem::UserDataFields(s.stat_numuserheaders))) + item_if(s.stat_dvdccheaders != 0, ReportItem::DvdFields(s.stat_dvdccheaders))) + item_if(s.stat_scte20ccheaders != 0, ReportItem::Scte20Fields(s.stat_scte20ccheaders))) + item_if(s.stat_replay4000headers != 0, ReportItem::ReplayTv4000Fields(s.stat_replay4000headers))) + item_if(s.stat_replay5000headers != 0, ReportItem::ReplayTv5000Fields(s.stat_replay5000headers))), item_if(s.stat_hdtv != 0, ReportItem::HdtvFields(s.stat_hdtv)), ReportItem::ReplayTv4000Fields(s.stat_replay4000headers));
        lemma_contains_left(((((((((prefix + item_if(s.false_pict_header != 0, ReportItem::FalsePictureHeaders(s.false_pict_header))) + item_if(s.num_key_frames != 0, ReportItem::KeyFrames(s.num_key_frames))) + item_if(s.stat_numuserheaders != 0, ReportItem::UserDataFields(s.stat_numuserheaders))) + item_if(s.stat_dvdccheaders != 0, ReportItem::DvdFields(s.stat_dvdccheaders))) + item_if(s.stat_scte20ccheaders != 0, ReportItem::Scte20Fields(s.stat_scte20ccheaders))) + item_if(s.stat_replay4000headers != 0, ReportItem::ReplayTv4000Fields(s.stat_replay4000headers))) + item_if(s.stat_replay5000headers != 0, ReportItem::ReplayTv5000Fields(s.stat_replay5000headers))) + item_if(s.stat_hdtv != 0, ReportItem::HdtvFields(s.stat_hdtv))), item_if(s.stat_dishheaders != 0, ReportItem::DishNetworkFields(s.stat_dishheaders)), ReportItem::ReplayTv4000Fields(s.stat_replay4000headers));
        lemma_contains_left((((((((((prefix + item_if(s.false_pict_header != 0, ReportItem::FalsePictureHeaders(s.false_pict_header))) + item_if(s.num_key_frames != 0, ReportItem::KeyFrames(s.num_key_frames))) + item_if(s.stat_numuserheaders != 0, ReportItem::UserDataFields(s.stat_numuserheaders))) + item_if(s.stat_dvdccheaders != 0, ReportItem::DvdFields(s.stat_dvdccheaders))) + item_if(s.stat_scte20ccheaders != 0, ReportItem::Scte20Fields(s.stat_scte20ccheaders))) + item_if(s.stat_replay4000headers != 0, ReportItem::ReplayTv4000Fields(s.stat_replay4000headers))) + item_if(s.stat_replay5000headers != 0, ReportItem::ReplayTv5000Fields(s.stat_replay5000headers))) + item_if(s.stat_hdtv != 0, ReportItem::HdtvFields(s.stat_hdtv))) + item_if(s.stat_dishheaders != 0, ReportItem::DishNetworkFields(s.stat_dishheaders))), item_if(s.stat_divicom != 0, ReportItem::DivicomFields(s.stat_divicom)), ReportItem::ReplayTv4000Fields(s.stat_replay4000headers));
        assert(followed_by_counters(prefix, s) == ((((((((((prefix + item_if(s.false_pict_header != 0, ReportItem::FalsePictureHeaders(s.false_pict_header))) + item_if(s.num_key_frames != 0, ReportItem::KeyFrames(s.num_key_frames))) + item_if(s.stat_numuserheaders != 0, ReportItem::UserDataFields(s.stat_numuserheaders))) + item_if(s.stat_dvdccheaders != 0, ReportItem::DvdFields(s.stat_dvdccheaders))) + item_if(s.stat_scte20ccheaders != 0, ReportItem::Scte20Fields(s.stat_scte20ccheaders))) + item_if(s.stat_replay4000headers != 0, ReportItem::ReplayTv4000Fields(s.stat_replay4000headers))) + item_if(s.stat_replay5000headers != 0, ReportItem::ReplayTv5000Fields(s.stat_replay5000headers))) + item_if(s.stat_hdtv != 0, ReportItem::HdtvFields(s.stat_hdtv))) + item_if(s.stat_dishheaders != 0, ReportItem::DishNetworkFields(s.stat_dishheaders))) + item_if(s.stat_divicom != 0, ReportItem::DivicomFields(s.stat_divicom))));
    }
    if s.stat_replay5000headers != 0 {
        assert(item_if(s.stat_replay5000headers != 0, ReportItem::ReplayTv5000Fields(s.stat_replay5000headers))[0] == ReportItem::ReplayTv5000Fields(s.stat_replay5000headers));
        lemma_contains_right(((((((prefix + item_if(s.false_pict_header != 0, ReportItem::FalsePictureHeaders(s.false_pict_header))) + item_if(s.num_key_frames != 0, ReportItem::KeyFrames(s.num_key_frames))) + item_if(s.stat_numuserheaders != 0, ReportItem::UserDataFields(s.stat_numuserheaders))) + item_if(s.stat_dvdccheaders != 0, ReportItem::DvdFields(s.stat_dvdccheaders))) + item_if(s.stat_scte20ccheaders != 0, ReportItem::Scte20Fields(s.stat_scte20ccheaders))) + item_if(s.stat_replay4000headers != 0, ReportItem::ReplayTv4000Fields(s.stat_replay4000headers))), item_if(s.stat_replay5000headers != 0, ReportItem::ReplayTv5000Fields(s.stat_replay5000headers)), ReportItem::ReplayTv5000Fields(s.stat_replay5000headers));
        lemma_contains_left((((((((prefix + item_if(s.false_pict_header != 0, ReportItem::FalsePictureHeaders(s.false_pict_header))) + item_if(s.num_key_frames != 0, ReportItem::KeyFrames(s.num_key_frames))) + item_if(s.stat_numuserheaders != 0, ReportItem::UserDataFields(s.stat_numuserheaders))) + item_if(s.stat_dvdccheaders != 0, ReportItem::DvdFields(s.stat_dvdccheaders))) + item_if(s.stat_scte20ccheaders != 0, ReportItem::Scte20Fields(s.stat_scte20ccheaders))) + item_if(s.stat_replay4000headers != 0, ReportItem::ReplayTv4000Fields(s.stat_replay4000headers))) + item_if(s.stat_replay5000headers != 0, ReportItem::ReplayTv5000Fields(s.stat_replay5000headers))), item_if(s.stat_hdtv != 0, ReportItem::HdtvFields(s.stat_hdtv)), ReportItem::ReplayTv5000Fields(s.stat_replay5000headers));
        lemma_contains_left(((((((((prefix + item_if(s.false_pict_header != 0, ReportItem::FalsePictureHeaders(s.false_pict_header))) + item_if(s.num_key_frames != 0, ReportItem::KeyFrames(s.num_key_frames))) + item_if(s.stat_numuserheaders != 0, ReportItem::UserDataFields(s.stat_numuserheaders))) + item_if(s.stat_dvdccheaders != 0, ReportItem::DvdFields(s.stat_dvdccheaders))) + item_if(s.stat_scte20ccheaders != 0, ReportItem::Scte20Fields(s.stat_scte20ccheaders))) + item_if(s.stat_replay4000headers != 0, ReportItem::ReplayTv4000Fields(s.stat_replay4000headers))) + item_if(s.stat_replay5000headers != 0, ReportItem::ReplayTv5000Fields(s.stat_replay5000headers))) + item_if(s.stat_hdtv != 0, ReportItem::HdtvFields(s.stat_hdtv))), item_if(s.stat_dishheaders != 0, ReportItem::DishNetworkFields(s.stat_dishheaders)), ReportItem::ReplayTv5000Fields(s.stat_replay5000headers));
        lemma_contains_left((((((((((prefix + item_if(s.false_pict_header != 0, ReportItem::FalsePictureHeaders(s.false_pict_header))) + item_if(s.num_key_frames != 0, ReportItem::KeyFrames(s.num_key_frames))) + item_if(s.stat_numuserheaders != 0, ReportItem::UserDataFields(s.stat_numuserheaders))) + item_if(s.stat_dvdccheaders != 0, ReportItem::DvdFields(s.stat_dvdccheaders))) + item_if(s.stat_scte20ccheaders != 0, ReportItem::Scte20Fields(s.stat_scte20ccheaders))) + item_if(s.stat_replay4000headers != 0, ReportItem::ReplayTv4000Fields(s.stat_replay4000headers))) + item_if(s.stat_replay5000headers != 0, ReportItem::ReplayTv5000Fields(s.stat_replay5000headers))) + item_if(s.stat_hdtv != 0, ReportItem::HdtvFields(s.stat_hdtv))) + item_if(s.stat_dishheaders != 0, ReportItem::DishNetworkFields(s.stat_dishheaders))), item_if(s.stat_divicom != 0, ReportItem::DivicomFields(s.stat_divicom)), ReportItem::ReplayTv5000Fields(s.stat_replay5000headers));
        assert(followed_by_counters(prefix, s) == ((((((((((prefix + item_if(s.false_pict_header != 0, ReportItem::FalsePictureHeaders(s.false_pict_header))) + item_if(s.num_key_frames != 0, ReportItem::KeyFrames(s.num_key_frames))) + item_if(s.stat_numuserheaders != 0, ReportItem::UserDataFields(s.stat_numuserheaders))) + item_if(s.stat_dvdccheaders != 0, ReportItem::DvdFields(s.stat_dvdccheaders))) + item_if(s.stat_scte20ccheaders != 0, ReportItem::Scte20Fields(s.stat_scte20ccheaders))) + item_if(s.stat_replay4000headers != 0, ReportItem::ReplayTv4000Fields(s.stat_replay4000headers))) + item_if(s.stat_replay5000headers != 0, ReportItem::ReplayTv5000Fields(s.stat_replay5000headers))) + item_if(s.stat_hdtv != 0, ReportItem::HdtvFields(s.stat_hdtv))) + item_if(s.stat_dishheaders != 0, ReportItem::DishNetworkFields(s.stat_dishheaders))) + item_if(s.stat_divicom != 0, ReportItem::DivicomFields(s.stat_divicom))));
    }
    if s.stat_hdtv != 0 {
        assert(item_if(s.stat_hdtv != 0, ReportItem::HdtvFields(s.stat_hdtv))[0] == ReportItem::HdtvFields(s.stat_hdtv));
        lemma_contains_right((((((((prefix + item_if(s.false_pict_header != 0, ReportItem::FalsePictureHeaders(s.false_pict_header))) + item_if(s.num_key_frames != 0, ReportItem::KeyFrames(s.num_key_frames))) + item_if(s.stat_numuserheaders != 0, ReportItem::UserDataFields(s.stat_numuserheaders))) + item_if(s.stat_dvdccheaders != 0, ReportItem::DvdFields(s.stat_dvdccheaders))) + item_if(s.stat_scte20ccheaders != 0, ReportItem::Scte20Fields(s.stat_scte20ccheaders))) + item_if(s.stat_replay4000headers != 0, ReportItem::ReplayTv4000Fields(s.stat_replay4000headers))) + item_if(s.stat_replay5000headers != 0, ReportItem::ReplayTv5000Fields(s.stat_replay5000headers))), item_if(s.stat_hdtv != 0, ReportItem::HdtvFields(s.stat_hdtv)), ReportItem::HdtvFields(s.stat_hdtv));
        lemma_contains_left(((((((((prefix + item_if(s.false_pict_header != 0, ReportItem::FalsePictureHeaders(s.false_pict_header))) + item_if(s.num_key_frames != 0, ReportItem::KeyFrames(s.num_key_frames))) + item_if(s.stat_numuserheaders != 0, ReportItem::UserDataFields(s.stat_numuserheaders))) + item_if(s.stat_dvdccheaders != 0, ReportItem::DvdFields(s.stat_dvdccheaders))) + item_if(s.stat_scte20ccheaders != 0, ReportItem::Scte20Fields(s.stat_scte20ccheaders))) + item_if(s.stat_replay4000headers != 0, ReportItem::ReplayTv4000Fields(s.stat_replay4000headers))) + item_if(s.stat_replay5000headers != 0, ReportItem::ReplayTv5000Fields(s.stat_replay5000headers))) + item_if(s.stat_hdtv != 0, ReportItem::HdtvFields(s.stat_hdtv))), item_if(s.stat_dishheaders != 0, ReportItem::DishNetworkFields(s.stat_dishheaders)), ReportItem::HdtvFields(s.stat_hdtv));
        lemma_contains_left((((((((((prefix + item_if(s.false_pict_header != 0, ReportItem::FalsePictureHeaders(s.false_pict_header))) + item_if(s.num_key_frames != 0, ReportItem::KeyFrames(s.num_key_frames))) + item_if(s.stat_numuserheaders != 0, ReportItem::UserDataFields(s.stat_numuserheaders))) + item_if(s.stat_dvdccheaders != 0, ReportItem::DvdFields(s.stat_dvdccheaders))) + item_if(s.stat_scte20ccheaders != 0, ReportItem::Scte20Fields(s.stat_scte20ccheaders))) + item_if(s.stat_replay4000headers != 0, ReportItem::ReplayTv4000Fields(s.stat_replay4000headers))) + item_if(s.stat_replay5000headers != 0, ReportItem::ReplayTv5000Fields(s.stat_replay5000headers))) + item_if(s.stat_hdtv != 0, ReportItem::HdtvFields(s.stat_hdtv))) + item_if(s.stat_dishheaders != 0, ReportItem::DishNetworkFields(s.stat_dishheaders))), item_if(s.stat_divicom != 0, ReportItem::DivicomFields(s.stat_divicom)), ReportItem::HdtvFields(s.stat_hdtv));
        assert(followed_by_counters(prefix, s) == ((((((((((prefix + item_if(s.false_pict_header != 0, ReportItem::FalsePictureHeaders(s.false_pict_header))) + item_if(s.num_key_frames != 0, ReportItem::KeyFrames(s.num_key_frames))) + item_if(s.stat_numuserheaders != 0, ReportItem::UserDataFields(s.stat_numuserheaders))) + item_if(s.stat_dvdccheaders != 0, ReportItem::DvdFields(s.stat_dvdccheaders))) + item_if(s.stat_scte20ccheaders != 0, ReportItem::Scte20Fields(s.stat_scte20ccheaders))) + item_if(s.stat_replay4000headers != 0, ReportItem::ReplayTv4000Fields(s.stat_replay4000headers))) + item_if(s.stat_replay5000headers != 0, ReportItem::ReplayTv5000Fields(s.stat_replay5000headers))) + item_if(s.stat_hdtv != 0, ReportItem::HdtvFields(s.stat_hdtv))) + item_if(s.stat_dishheaders != 0, ReportItem::DishNetworkFields(s.stat_dishheaders))) + item_if(s.stat_divicom != 0, ReportItem::DivicomFields(s.stat_divicom))));
    }
    if s.stat_dishheaders != 0 {
        assert(item_if(s.stat_dishheaders != 0, ReportItem::DishNetworkFields(s.stat_dishheaders))[0] == ReportItem::DishNetworkFields(s.stat_dishheaders));
        lemma_contains_right(((((((((prefix + item_if(s.false_pict_header != 0, ReportItem::FalsePictureHeaders(s.false_pict_header))) + item_if(s.num_key_frames != 0, ReportItem::KeyFrames(s.num_key_frames))) + item_if(s.stat_numuserheaders != 0, ReportItem::UserDataFields(s.stat_numuserheaders))) + item_if(s.stat_dvdccheaders != 0, ReportItem::DvdFields(s.stat_dvdccheaders))) + item_if(s.stat_scte20ccheaders != 0, ReportItem::Scte20Fields(s.stat_scte20ccheaders))) + item_if(s.stat_replay4000headers != 0, ReportItem::ReplayTv4000Fields(s.stat_replay4000headers))) + item_if(s.stat_replay5000headers != 0, ReportItem::ReplayTv5000Fields(s.stat_replay5000headers))) + item_if(s.stat_hdtv != 0, ReportItem::HdtvFields(s.stat_hdtv))), item_if(s.stat_dishheaders != 0, ReportItem::DishNetworkFields(s.stat_dishheaders)), ReportItem::DishNetworkFields(s.stat_dishheaders));
        lemma_contains_left((((((((((prefix + item_if(s.false_pict_header != 0, ReportItem::FalsePictureHeaders(s.false_pict_header))) + item_if(s.num_key_frames != 0, ReportItem::KeyFrames(s.num_key_frames))) + item_if(s.stat_numuserheaders != 0, ReportItem::UserDataFields(s.stat_numuserheaders))) + item_if(s.stat_dvdccheaders != 0, ReportItem::DvdFields(s.stat_dvdccheaders))) + item_if(s.stat_scte20ccheaders != 0, ReportItem::Scte20Fields(s.stat_scte20ccheaders))) + item_if(s.stat_replay4000headers != 0, ReportItem::ReplayTv4000Fields(s.stat_replay4000headers))) + item_if(s.stat_replay5000headers != 0, ReportItem::ReplayTv5000Fields(s.stat_replay5000headers))) + item_if(s.stat_hdtv != 0, ReportItem::HdtvFields(s.stat_hdtv))) + item_if(s.stat_dishheaders != 0, ReportItem::DishNetworkFields(s.stat_dishheaders))), item_if(s.stat_divicom != 0, ReportItem::DivicomFields(s.stat_divicom)), ReportItem::DishNetworkFields(s.stat_dishheaders));
        assert(followed_by_counters(prefix, s) == ((((((((((prefix + item_if(s.false_pict_header != 0, ReportItem::FalsePictureHeaders(s.false_pict_header))) + item_if(s.num_key_frames != 0, ReportItem::KeyFrames(s.num_key_frames))) + item_if(s.stat_numuserheaders != 0, ReportItem::UserDataFields(s.stat_numuserheaders))) + item_if(s.stat_dvdccheaders != 0, ReportItem::DvdFields(s.stat_dvdccheaders))) + item_if(s.stat_scte20ccheaders != 0, ReportItem::Scte20Fields(s.stat_scte20ccheaders))) + item_if(s.stat_replay4000headers != 0, ReportItem::ReplayTv4000Fields(s.stat_replay4000headers))) + item_if(s.stat_replay5000headers != 0, ReportItem::ReplayTv5000Fields(s.stat_replay5000headers))) + item_if(s.stat_hdtv != 0, ReportItem::HdtvFields(s.stat_hdtv))) + item_if(s.stat_dishheaders != 0, ReportItem::DishNetworkFields(s.stat_dishheaders))) + item_if(s.stat_divicom != 0, ReportItem::DivicomFields(s.stat_divicom))));
    }
    if s.stat_divicom != 0 {
        assert(item_if(s.stat_divicom != 0, ReportItem::DivicomFields(s.stat_divicom))[0] == ReportItem::DivicomFields(s.stat_divicom));
        lemma_contains_right((((((((((prefix + item_if(s.false_pict_header != 0, ReportItem::FalsePictureHeaders(s.false_pict_header))) + item_if(s.num_key_frames != 0, ReportItem::KeyFrames(s.num_key_frames))) + item_if(s.stat_numuserheaders != 0, ReportItem::UserDataFields(s.stat_numuserheaders))) + item_if(s.stat_dvdccheaders != 0, ReportItem::DvdFields(s.stat_dvdccheaders))) + item_if(s.stat_scte20ccheaders != 0, ReportItem::Scte20Fields(s.stat_scte20ccheaders))) + item_if(s.stat_replay4000headers != 0, ReportItem::ReplayTv4000Fields(s.stat_replay4000headers))) + item_if(s.stat_replay5000headers != 0, ReportItem::ReplayTv5000Fields(s.stat_replay5000headers))) + item_if(s.stat_hdtv != 0, ReportItem::HdtvFields(s.stat_hdtv))) + item_if(s.stat_dishheaders != 0, ReportItem::DishNetworkFields(s.stat_dishheaders))), item_if(s.stat_divicom != 0, ReportItem::DivicomFields(s.stat_divicom)), ReportItem::DivicomFields(s.stat_divicom));
        assert(followed_by_counters(prefix, s) == ((((((((((prefix + item_if(s.false_pict_header != 0, ReportItem::FalsePictureHeaders(s.false_pict_header))) + item_if(s.num_key_frames != 0, ReportItem::KeyFrames(s.num_key_frames))) + item_if(s.stat_numuserheaders != 0, ReportItem::UserDataFields(s.stat_numuserheaders))) + item_if(s.stat_dvdccheaders != 0, ReportItem::DvdFields(s.stat_dvdccheaders))) + item_if(s.stat_scte20ccheaders != 0, ReportItem::Scte20Fields(s.stat_scte20ccheaders))) + item_if(s.stat_replay4000headers != 0, ReportItem::ReplayTv4000Fields(s.stat_replay4000headers))) + item_if(s.stat_replay5000headers != 0, ReportItem::ReplayTv5000Fields(s.stat_replay5000headers))) + item_if(s.stat_hdtv != 0, ReportItem::HdtvFields(s.stat_hdtv))) + item_if(s.stat_dishheaders != 0, ReportItem::DishNetworkFields(s.stat_dishheaders))) + item_if(s.stat_divicom != 0, ReportItem::DivicomFields(s.stat_divicom))));
    }
}

/// Each counter line of a decoder's summary carries the value of its own
/// counter, which is not zero, and each counter that is not zero has its line.
pub proof fn lemma_report_counter_lines(
    s: DecoderStats,
    t: DecoderTiming,
    first_gop: GopTime,
    last_gop: GopTime,
    asf: bool,
    pts_big_change: bool,
    d: FrameDurations,
)
    ensures
        forall|i: int| 0 <= i < report_items(s, t, first_gop, last_gop, asf, pts_big_change, d).len()
            ==> line_agrees(#[trigger] report_items(s, t, first_gop, last_gop, asf, pts_big_change, d)[i], s),
        s.false_pict_header != 0 ==> report_items(s, t, first_gop, last_gop, asf, pts_big_change, d).contains(ReportItem::FalsePictureHeaders(s.false_pict_header)),
        s.num_key_frames != 0 ==> report_items(s, t, first_gop, last_gop, asf, pts_big_change, d).contains(ReportItem::KeyFrames(s.num_key_frames)),
        s.stat_numuserheaders != 0 ==> report_items(s, t, first_gop, last_gop, asf, pts_big_change, d).contains(ReportItem::UserDataFields(s.stat_numuserheaders)),
        s.stat_dvdccheaders != 0 ==> report_items(s, t, first_gop, last_gop, asf, pts_big_change, d).contains(ReportItem::DvdFields(s.stat_dvdccheaders)),
        s.stat_scte20ccheaders != 0 ==> report_items(s, t, first_gop, last_gop, asf, pts_big_change, d).contains(ReportItem::Scte20Fields(s.stat_scte20ccheaders)),
        s.stat_replay4000headers != 0 ==> report_items(s, t, first_gop, last_gop, asf, pts_big_change, d).contains(ReportItem::ReplayTv4000Fields(s.stat_replay4000headers)),
        s.stat_replay5000headers != 0 ==> report_items(s, t, first_gop, last_gop, asf, pts_big_change, d).contains(ReportItem::ReplayTv5000Fields(s.stat_replay5000headers)),
        s.stat_hdtv != 0 ==> report_items(s, t, first_gop, last_gop, asf, pts_big_change, d).contains(ReportItem::HdtvFields(s.stat_hdtv)),
        s.stat_dishheaders != 0 ==> report_items(s, t, first_gop, last_gop, asf, pts_big_change, d).contains(ReportItem::DishNetworkFields(s.stat_dishheaders)),
        s.stat_divicom != 0 ==> report_items(s, t, first_gop, last_gop, asf, pts_big_change, d).contains(ReportItem::DivicomFields(s.stat_divicom)),
{
    let pulldown = item_if(
        s.total_pulldownframes != 0,
        ReportItem::PulldownFrames { frames: s.total_pulldownframes, ms: d.pulldown_ms },
    );
    let pts = item_if(
        has_pts_range(t),
        ReportItem::PtsRange { range: pts_range_of(t, d.postsync_ms), approximated: pts_big_change },
    );
    let gop = item_if(
        has_gop_summary(first_gop, last_gop, asf),
        ReportItem::GopTimes {
            times: gop_times_of(first_gop, last_gop, d.gop_frames_ms),
            frames: s.frames_since_last_gop,
        },
    );
    lemma_item_agrees(pulldown, s);
    lemma_item_agrees(pts, s);
    lemma_item_agrees(gop, s);
    lemma_agree_concat(pulldown, pts, s);
    lemma_agree_concat(pulldown + pts, gop, s);
    let header = pulldown + pts + gop;
    lemma_counter_lines(header, s);
    lemma_counter_lines_present(header, s);
    let r = report_items(s, t, first_gop, last_gop, asf, pts_big_change, d);
    assert(r == followed_by_counters(header, s));
    reveal(lines_agree);
}

/// Every PTS-range line in `r` carries the approximation flag `flag`.
#[verifier::opaque]
pub open spec fn pts_flags_are(r: Seq<ReportItem>, flag: bool) -> bool {
    forall|i: int| 0 <= i < r.len() ==> (#[trigger] r[i] matches ReportItem::PtsRange { approximated, .. }
        ==> approximated == flag)
}

proof fn lemma_flags_concat(a: Seq<ReportItem>, b: Seq<ReportItem>, flag: bool)
    requires
        pts_flags_are(a, flag),
        pts_flags_are(b, flag),
    ensures
        pts_flags_are(a + b, flag),
{
    reveal(pts_flags_are);
    assert forall|i: int| 0 <= i < (a + b).len() implies (#[trigger] (a + b)[i] matches ReportItem::PtsRange { approximated, .. }
        ==> approximated == flag) by {
        if i < a.len() {
            assert((a + b)[i] == a[i]);
        } else {
            assert((a + b)[i] == b[i - a.len()]);
        }
    }
}

proof fn lemma_item_flag(present: bool, item: ReportItem, flag: bool)
    requires
        item matches ReportItem::PtsRange { approximated, .. } ==> approximated == flag,
    ensures
        pts_flags_are(item_if(present, item), flag),
{
    reveal(pts_flags_are);
    if present {
        assert(item_if(present, item)[0] == item);
    }
}

/// Counter lines are never PTS-range lines.
proof fn lemma_counter_flags(prefix: Seq<ReportItem>, s: DecoderStats, flag: bool)
    requires
        pts_flags_are(prefix, flag),
    ensures
        pts_flags_are(followed_by_counters(prefix, s), flag),
{
    lemma_item_flag(s.false_pict_header != 0, ReportItem::FalsePictureHeaders(s.false_pict_header), flag);
    lemma_flags_concat(prefix, item_if(s.false_pict_header != 0, ReportItem::FalsePictureHeaders(s.false_pict_header)), flag);
    lemma_item_flag(s.num_key_frames != 0, ReportItem::KeyFrames(s.num_key_frames), flag);
    lemma_flags_concat((prefix + item_if(s.false_pict_header != 0, ReportItem::FalsePictureHeaders(s.false_pict_header))), item_if(s.num_key_frames != 0, ReportItem::KeyFrames(s.num_key_frames)), flag);
    lemma_item_flag(s.stat_numuserheaders != 0, ReportItem::UserDataFields(s.stat_numuserheaders), flag);
    lemma_flags_concat(((prefix + item_if(s.false_pict_header != 0, ReportItem::FalsePictureHeaders(s.false_pict_header))) + item_if(s.num_key_frames != 0, ReportItem::KeyFrames(s.num_key_frames))), item_if(s.stat_numuserheaders != 0, ReportItem::UserDataFields(s.stat_numuserheaders)), flag);
    lemma_item_flag(s.stat_dvdccheaders != 0, ReportItem::DvdFields(s.stat_dvdccheaders), flag);
    lemma_flags_concat((((prefix + item_if(s.false_pict_header != 0, ReportItem::FalsePictureHeaders(s.false_pict_header))) + item_if(s.num_key_frames != 0, ReportItem::KeyFrames(s.num_key_frames))) + item_if(s.stat_numuserheaders != 0, ReportItem::UserDataFields(s.stat_numuserheaders))), item_if(s.stat_dvdccheaders != 0, ReportItem::DvdFields(s.stat_dvdccheaders)), flag);
    lemma_item_flag(s.stat_scte20ccheaders != 0, ReportItem::Scte20Fields(s.stat_scte20ccheaders), flag);
    lemma_flags_concat(((((prefix + item_if(s.false_pict_header != 0, ReportItem::FalsePictureHeaders(s.false_pict_header))) + item_if(s.num_key_frames != 0, ReportItem::KeyFrames(s.num_key_frames))) + item_if(s.stat_numuserheaders != 0, ReportItem::UserDataFields(s.stat_numuserheaders))) + item_if(s.stat_dvdccheaders != 0, ReportItem::DvdFields(s.stat_dvdccheaders))), item_if(s.stat_scte20ccheaders != 0, ReportItem::Scte20Fields(s.stat_scte20ccheaders)), flag);
    lemma_item_flag(s.stat_replay4000headers != 0, ReportItem::ReplayTv4000Fields(s.stat_replay4000headers), flag);
    lemma_flags_concat((((((prefix + item_if(s.false_pict_header != 0, ReportItem::FalsePictureHeaders(s.false_pict_header))) + item_if(s.num_key_frames != 0, ReportItem::KeyFrames(s.num_key_frames))) + item_if(s.stat_numuserheaders != 0, ReportItem::UserDataFields(s.stat_numuserheaders))) + item_if(s.stat_dvdccheaders != 0, ReportItem::DvdFields(s.stat_dvdccheaders))) + item_if(s.stat_scte20ccheaders != 0, ReportItem::Scte20Fields(s.stat_scte20ccheaders))), item_if(s.stat_replay4000headers != 0, ReportItem::ReplayTv4000Fields(s.stat_replay4000headers)), flag);
    lemma_item_flag(s.stat_replay5000headers != 0, ReportItem::ReplayTv5000Fields(s.stat_replay5000headers), flag);
    lemma_flags_concat(((((((prefix + item_if(s.false_pict_header != 0, ReportItem::FalsePictureHeaders(s.false_pict_header))) + item_if(s.num_key_frames != 0, ReportItem::KeyFrames(s.num_key_frames))) + item_if(s.stat_numuserheaders != 0, ReportItem::UserDataFields(s.stat_numuserheaders))) + item_if(s.stat_dvdccheaders != 0, ReportItem::DvdFields(s.stat_dvdccheaders))) + item_if(s.stat_scte20ccheaders != 0, ReportItem::Scte20Fields(s.stat_scte20ccheaders))) + item_if(s.stat_replay4000headers != 0, ReportItem::ReplayTv4000Fields(s.stat_replay4000headers))), item_if(s.stat_replay5000headers != 0, ReportItem::ReplayTv5000Fields(s.stat_replay5000headers)), flag);
    lemma_item_flag(s.stat_hdtv != 0, ReportItem::HdtvFields(s.stat_hdtv), flag);
    lemma_flags_concat((((((((prefix + item_if(s.false_pict_header != 0, ReportItem::FalsePictureHeaders(s.false_pict_header))) + item_if(s.num_key_frames != 0, ReportItem::KeyFrames(s.num_key_frames))) + item_if(s.stat_numuserheaders != 0, ReportItem::UserDataFields(s.stat_numuserheaders))) + item_if(s.stat_dvdccheaders != 0, ReportItem::DvdFields(s.stat_dvdccheaders))) + item_if(s.stat_scte20ccheaders != 0, ReportItem::Scte20Fields(s.stat_scte20ccheaders))) + item_if(s.stat_replay4000headers != 0, ReportItem::ReplayTv4000Fields(s.stat_replay4000headers))) + item_if(s.stat_replay5000headers != 0, ReportItem::ReplayTv5000Fields(s.stat_replay5000headers))), item_if(s.stat_hdtv != 0, ReportItem::HdtvFields(s.stat_hdtv)), flag);
    lemma_item_flag(s.stat_dishheaders != 0, ReportItem::DishNetworkFields(s.stat_dishheaders), flag);
    lemma_flags_concat(((((((((prefix + item_if(s.false_pict_header != 0, ReportItem::FalsePictureHeaders(s.false_pict_header))) + item_if(s.num_key_frames != 0, ReportItem::KeyFrames(s.num_key_frames))) + item_if(s.stat_numuserheaders != 0, ReportItem::UserDataFields(s.stat_numuserheaders))) + item_if(s.stat_dvdccheaders != 0, ReportItem::DvdFields(s.stat_dvdccheaders))) + item_if(s.stat_scte20ccheaders != 0, ReportItem::Scte20Fields(s.stat_scte20ccheaders))) + item_if(s.stat_replay4000headers != 0, ReportItem::ReplayTv4000Fields(s.stat_replay4000headers))) + item_if(s.stat_replay5000headers != 0, ReportItem::ReplayTv5000Fields(s.stat_replay5000headers))) + item_if(s.stat_hdtv != 0, ReportItem::HdtvFields(s.stat_hdtv))), item_if(s.stat_dishheaders != 0, ReportItem::DishNetworkFields(s.stat_dishheaders)), flag);
    lemma_item_flag(s.stat_divicom != 0, ReportItem::DivicomFields(s.stat_divicom), flag);
    lemma_flags_concat((((((((((prefix + item_if(s.false_pict_header != 0, ReportItem::FalsePictureHeaders(s.false_pict_header))) + item_if(s.num_key_frames != 0, ReportItem::KeyFrames(s.num_key_frames))) + item_if(s.stat_numuserheaders != 0, ReportItem::UserDataFields(s.stat_numuserheaders))) + item_if(s.stat_dvdccheaders != 0, ReportItem::DvdFields(s.stat_dvdccheaders))) + item_if(s.stat_scte20ccheaders != 0, ReportItem::Scte20Fields(s.stat_scte20ccheaders))) + item_if(s.stat_replay4000headers != 0, ReportItem::ReplayTv4000Fields(s.stat_replay4000headers))) + item_if(s.stat_replay5000headers != 0, ReportItem::ReplayTv5000Fields(s.stat_replay5000headers))) + item_if(s.stat_hdtv != 0, ReportItem::HdtvFields(s.stat_hdtv))) + item_if(s.stat_dishheaders != 0, ReportItem::DishNetworkFields(s.stat_dishheaders))), item_if(s.stat_divicom != 0, ReportItem::DivicomFields(s.stat_divicom)), flag);
}

/// The PTS range is marked approximated exactly when the reference clock was
/// reset: every PTS-range line of a summary carries that flag.
pub proof fn lemma_pts_range_approximation(
    s: DecoderStats,
    t: DecoderTiming,
    first_gop: GopTime,
    last_gop: GopTime,
    asf: bool,
    pts_big_change: bool,
    d: FrameDurations,
)
    ensures
        forall|i: int| 0 <= i < report_items(s, t, first_gop, last_gop, asf, pts_big_change, d).len()
            ==> (#[trigger] report_items(s, t, first_gop, last_gop, asf, pts_big_change, d)[i]
                matches ReportItem::PtsRange { approximated, .. } ==> approximated == pts_big_change),
{
    let pulldown = item_if(
        s.total_pulldownframes != 0,
        ReportItem::PulldownFrames { frames: s.total_pulldownframes, ms: d.pulldown_ms },
    );
    let pts = item_if(
        has_pts_range(t),
        ReportItem::PtsRange { range: pts_range_of(t, d.postsync_ms), approximated: pts_big_change },
    );
    let gop = item_if(
        has_gop_summary(first_gop, last_gop, asf),
        ReportItem::GopTimes {
            times: gop_times_of(first_gop, last_gop, d.gop_frames_ms),
            frames: s.frames_since_last_gop,
        },
    );
    lemma_item_flag(s.total_pulldownframes != 0, ReportItem::PulldownFrames { frames: s.total_pulldownframes, ms: d.pulldown_ms }, pts_big_change);
    lemma_item_flag(has_pts_range(t), ReportItem::PtsRange { range: pts_range_of(t, d.postsync_ms), approximated: pts_big_change }, pts_big_change);
    lemma_item_flag(has_gop_summary(first_gop, last_gop, asf), ReportItem::GopTimes {
        times: gop_times_of(first_gop, last_gop, d.gop_frames_ms),
        frames: s.frames_since_last_gop,
    }, pts_big_change);
    lemma_flags_concat(pulldown, pts, pts_big_change);
    lemma_flags_concat(pulldown + pts, gop, pts_big_change);
    let header = pulldown + pts + gop;
    lemma_counter_flags(header, s, pts_big_change);
    let r = report_items(s, t, first_gop, last_gop, asf, pts_big_change, d);
    assert(r == followed_by_counters(header, s));
    assert(pts_flags_are(r, pts_big_change));
    reveal(pts_flags_are);
}

/// Whether the summary's arithmetic stays within 64 bits for the parts that
/// are reported.
pub open spec fn report_in_range(
    t: DecoderTiming,
    first_gop: GopTime,
    last_gop: GopTime,
    asf: bool,
    d: FrameDurations,
) -> bool {
    &&& has_pts_range(t) ==> pts_range_in_range(t, d.postsync_ms)
    &&& has_gop_summary(first_gop, last_gop, asf) ==> gop_summary_in_range(first_gop, last_gop, d.gop_frames_ms)
}

/// Appends `item` when `present`.
fn push_if(r: &mut Vec<ReportItem>, present: bool, item: ReportItem)
    ensures
        final(r)@ == old(r)@ + item_if(present, item),
{
    if present {
        r.push(item);
    }
    assert(final(r)@ =~= old(r)@ + item_if(present, item));
}

/// Appends a line for each user-data counter that is not zero, in the
/// order they are printed.
fn append_counter_items(s: &DecoderStats, r: &mut Vec<ReportItem>)
    ensures
        final(r)@ == followed_by_counters(old(r)@, *s),
{
    push_if(r, s.false_pict_header != 0, ReportItem::FalsePictureHeaders(s.false_pict_header));
    push_if(r, s.num_key_frames != 0, ReportItem::KeyFrames(s.num_key_frames));
    push_if(r, s.stat_numuserheaders != 0, ReportItem::UserDataFields(s.stat_numuserheaders));
    push_if(r, s.stat_dvdccheaders != 0, ReportItem::DvdFields(s.stat_dvdccheaders));
    push_if(r, s.stat_scte20ccheaders != 0, ReportItem::Scte20Fields(s.stat_scte20ccheaders));
    push_if(r, s.stat_replay4000headers != 0, ReportItem::ReplayTv4000Fields(s.stat_replay4000headers));
    push_if(r, s.stat_replay5000headers != 0, ReportItem::ReplayTv5000Fields(s.stat_replay5000headers));
    push_if(r, s.stat_hdtv != 0, ReportItem::HdtvFields(s.stat_hdtv));
    push_if(r, s.stat_dishheaders != 0, ReportItem::DishNetworkFields(s.stat_dishheaders));
    push_if(r, s.stat_divicom != 0, ReportItem::DivicomFields(s.stat_divicom));
}

/// The summary printed for a caption decoder at the end of a run: pulldown
/// frames, the PTS range, the GOP times (not for ASF input), and each
/// user-data counter that is not zero.
pub fn decoder_report(
    s: &DecoderStats,
    t: &DecoderTiming,
    first_gop: GopTime,
    last_gop: GopTime,
    asf: bool,
    pts_big_change: bool,
    d: FrameDurations,
) -> (r: Vec<ReportItem>)
    requires
        report_in_range(*t, first_gop, last_gop, asf, d),
    ensures
        r@ == report_items(*s, *t, first_gop, last_gop, asf, pts_big_change, d),
        forall|i: int| 0 <= i < r@.len() ==> (#[trigger] r@[i] matches ReportItem::PtsRange { approximated, .. }
            ==> approximated == pts_big_change),
{
    let mut r: Vec<ReportItem> = Vec::new();
    if s.total_pulldownframes != 0 {
        r.push(ReportItem::PulldownFrames { frames: s.total_pulldownframes, ms: d.pulldown_ms });
    }
    if t.has_pts_range() {
        let range = t.pts_summary(d.postsync_ms);
        r.push(ReportItem::PtsRange { range, approximated: pts_big_change });
    }
    if gop_summary_shown(first_gop, last_gop, asf) {
        let times = gop_summary(first_gop, last_gop, d.gop_frames_ms);
        r.push(ReportItem::GopTimes { times, frames: s.frames_since_last_gop });
    }
    let ghost before = r@;
    append_counter_items(s, &mut r);
    proof {
        lemma_pts_range_approximation(*s, *t, first_gop, last_gop, asf, pts_big_change, d);
        assert(before =~= item_if(
            s.total_pulldownframes != 0,
            ReportItem::PulldownFrames { frames: s.total_pulldownframes, ms: d.pulldown_ms },
        ) + item_if(
            has_pts_range(*t),
            ReportItem::PtsRange { range: pts_range_of(*t, d.postsync_ms), approximated: pts_big_change },
        ) + item_if(
            has_gop_summary(first_gop, last_gop, asf),
            ReportItem::GopTimes {
                times: gop_times_of(first_gop, last_gop, d.gop_frames_ms),
                frames: s.frames_since_last_gop,
            },
        ));
    }
    r
}

} // verus!
