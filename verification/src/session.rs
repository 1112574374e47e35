use vstd::prelude::*;

verus! {

/// The container or stream format detected for an input file.
#[derive(Clone, Copy, Debug, PartialEq, Eq, Structural)]
pub enum StreamMode {
    ElementaryOrNotFound,
    Transport,
    Program,
    Asf,
    McPoodlesRaw,
    Rcwt,
    Myth,
    Mp4,
    Wtv,
    Gxf,
    Mkv,
    Mxf,
    Autodetect,
}

/// The processing loop that reads one input file, together with the
/// announcement printed before it runs (the variant tells which).
#[derive(Clone, Copy, Debug, PartialEq, Eq, Structural)]
pub enum ProcessingLoop {
    /// The general demuxing loop ("general mode").
    General,
    /// The raw loop on McPoodle's raw caption format.
    McPoodlesRaw,
    /// The raw loop on CCExtractor's own binary format.
    Rcwt,
    /// The MythTV loop.
    Myth,
    /// The MP4 reader; either only the chapters are dumped or the captions
    /// are processed, and a file report may follow.
    Mp4 { dump_chapters: bool, print_file_report: bool },
    /// The Matroska loop.
    Matroska,
}

/// What the driver does for one input file: whether the timing code's PTS-jump
/// check is switched off, whether the input is marked as an elementary stream,
/// and which loop, if any, reads the file (elementary streams are only marked).
#[derive(Clone, Copy, Debug, PartialEq, Eq, Structural)]
pub struct FilePlan {
    pub disable_sync_check: bool,
    pub elementary_stream: bool,
    pub processing: Option<ProcessingLoop>,
}

/// The exit status a run ends with.
#[derive(Clone, Copy, Debug, PartialEq, Eq, Structural)]
pub enum ExitStatus {
    /// Every processing loop returned `0` (the run's result is `0`).
    Success,
    /// Some processing loop returned a non-zero result.
    NoCaptions,
}

/// A closing message printed at the end of a run.
#[derive(Clone, Copy, Debug, PartialEq, Eq, Structural)]
pub enum Notice {
    /// A user-defined limit stopped processing before all data was read.
    ProcessingCanceled,
    /// No processing loop reported anything.
    NoCaptionsFound,
    /// The MythTV timing code changed; results should be reported.
    MythTimingChanged,
}

/// How a run ends: the closing messages in the order they are printed, and
/// the exit status.
#[derive(Debug)]
pub struct Conclusion {
    pub notices: Vec<Notice>,
    pub status: ExitStatus,
}

/// Errors that stop a run.
#[derive(Clone, Copy, Debug, PartialEq, Eq, Structural)]
pub enum RunError {
    /// Concatenated input was asked for and the total input size could not
    /// be determined.
    InputSizeUnknown,
    /// An MP4 input has no file behind it (standard input or a stream).
    Mp4WithoutFile,
}

/// The state the driver keeps across the input files of a run.
#[derive(Clone, Copy, Debug, PartialEq, Eq, Structural)]
pub struct Session {
    /// The first non-zero result a processing loop returned, `0` while none has.
    pub ret: i32,
    /// Whether a MythTV input was processed.
    pub show_myth_banner: bool,
    /// The GOP-timing option: `0` unset, other values chosen by the user or
    /// forced for elementary streams.
    pub use_gop_as_pts: i32,
    /// Whether the user asked to ignore PTS jumps.
    pub ignore_pts_jumps: bool,
    /// Whether MP4 inputs only have their chapters dumped.
    pub extract_chapters: bool,
    /// Whether a file report follows each MP4 input.
    pub print_file_reports: bool,
}

/// The formats read by the general demuxing loop.
pub open spec fn is_general_mode(mode: StreamMode) -> bool {
    mode == StreamMode::Transport || mode == StreamMode::Program || mode == StreamMode::Asf
        || mode == StreamMode::Wtv || mode == StreamMode::Gxf || mode == StreamMode::Mxf
}

/// Formats whose timeline is trusted as it is: raw captions, CCExtractor's
/// binary format and MP4.
pub open spec fn has_trusted_timeline(mode: StreamMode) -> bool {
    mode == StreamMode::McPoodlesRaw || mode == StreamMode::Rcwt || mode == StreamMode::Mp4
}

/// Whether the PTS-jump check is switched off for an input of this format.
pub open spec fn disables_sync_check(mode: StreamMode, ignore_pts_jumps: bool) -> bool {
    has_trusted_timeline(mode) || (is_general_mode(mode) && ignore_pts_jumps)
}

/// The loop that reads an input of this format; elementary streams (and
/// undetected formats) get none.
pub open spec fn loop_for(mode: StreamMode, extract_chapters: bool, print_file_reports: bool) -> Option<ProcessingLoop> {
    match mode {
        StreamMode::ElementaryOrNotFound => None,
        StreamMode::McPoodlesRaw => Some(ProcessingLoop::McPoodlesRaw),
        StreamMode::Rcwt => Some(ProcessingLoop::Rcwt),
        StreamMode::Myth => Some(ProcessingLoop::Myth),
        StreamMode::Mp4 => Some(ProcessingLoop::Mp4 { dump_chapters: extract_chapters, print_file_report: print_file_reports }),
        StreamMode::Mkv => Some(ProcessingLoop::Matroska),
        StreamMode::Autodetect => None,
        _ => Some(ProcessingLoop::General),
    }
}

/// The MP4 reader dumps chapters exactly when the user asked for chapters and
/// prints a file report exactly when the user asked for reports; for every
/// other format the loop does not depend on these options.
pub proof fn lemma_mp4_plan_follows_options(
    mode: StreamMode,
    extract_chapters: bool,
    print_file_reports: bool,
    other_extract_chapters: bool,
    other_print_file_reports: bool,
)
    ensures
        loop_for(mode, extract_chapters, print_file_reports) matches Some(ProcessingLoop::Mp4 { dump_chapters, print_file_report })
            ==> dump_chapters == extract_chapters && print_file_report == print_file_reports,
        mode == StreamMode::Mp4 <==> loop_for(mode, extract_chapters, print_file_reports) matches Some(ProcessingLoop::Mp4 { .. }),
        mode != StreamMode::Mp4 ==> loop_for(mode, extract_chapters, print_file_reports)
            == loop_for(mode, other_extract_chapters, other_print_file_reports),
{
}

/// The PTS-jump check is switched off, whatever the options, for McPoodle's
/// raw format, CCExtractor's binary format and MP4, and never for MythTV,
/// Matroska or elementary streams; the ignore-PTS-jumps option switches it off
/// only for the formats of the general loop.
pub proof fn lemma_sync_check_formats(mode: StreamMode, ignore_pts_jumps: bool)
    ensures
        !disables_sync_check(mode, false) ==> (disables_sync_check(mode, true) <==> loop_for(mode, false, false) == Some(ProcessingLoop::General)),
        disables_sync_check(mode, false) <==> (mode == StreamMode::McPoodlesRaw || mode == StreamMode::Rcwt || mode == StreamMode::Mp4),
        disables_sync_check(mode, false) ==> disables_sync_check(mode, ignore_pts_jumps),
        (mode == StreamMode::Myth || mode == StreamMode::Mkv || mode == StreamMode::ElementaryOrNotFound
            || mode == StreamMode::Autodetect) ==> !disables_sync_check(mode, ignore_pts_jumps),
{
}

/// The session after an input file of the given format began: elementary
/// streams force GOP timing when the user chose none, MythTV inputs make the
/// closing banner appear; nothing else changes.
pub open spec fn after_file(s: Session, mode: StreamMode) -> Session {
    Session {
        use_gop_as_pts: if mode == StreamMode::ElementaryOrNotFound && s.use_gop_as_pts == 0 {
            1i32
        } else {
            s.use_gop_as_pts
        },
        show_myth_banner: s.show_myth_banner || mode == StreamMode::Myth,
        ..s
    }
}

/// The session after input files of the given formats began, in order.
pub open spec fn after_files(s: Session, modes: Seq<StreamMode>) -> Session
    decreases modes.len(),
{
    if modes.len() == 0 {
        s
    } else {
        after_file(after_files(s, modes.drop_last()), modes.last())
    }
}

/// Over a run, the closing MythTV banner is due exactly when some input was a
/// MythTV recording; GOP timing ends up forced exactly when the user chose
/// none and some input was an elementary stream; the run's result and the
/// options are left as they were.
pub proof fn lemma_files_of_a_run(s: Session, modes: Seq<StreamMode>)
    ensures
        after_files(s, modes).show_myth_banner == (s.show_myth_banner || modes.contains(StreamMode::Myth)),
        after_files(s, modes).use_gop_as_pts == (if s.use_gop_as_pts == 0 && modes.contains(StreamMode::ElementaryOrNotFound) {
            1i32
        } else {
            s.use_gop_as_pts
        }),
        after_files(s, modes).ret == s.ret,
        after_files(s, modes).ignore_pts_jumps == s.ignore_pts_jumps,
        after_files(s, modes).extract_chapters == s.extract_chapters,
        after_files(s, modes).print_file_reports == s.print_file_reports,
    decreases modes.len(),
{
    if modes.len() > 0 {
        let prefix = modes.drop_last();
        lemma_files_of_a_run(s, prefix);
        assert(modes =~= prefix.push(modes.last()));
        assert forall|m: StreamMode| modes.contains(m) <==> (prefix.contains(m) || m == modes.last()) by {
            if modes.contains(m) {
                let i = choose|i: int| 0 <= i < modes.len() && modes[i] == m;
                if i < prefix.len() {
                    assert(prefix[i] == m);
                }
            }
            if prefix.contains(m) {
                let i = choose|i: int| 0 <= i < prefix.len() && prefix[i] == m;
                assert(modes[i] == m);
            }
            if m == modes.last() {
                assert(modes[modes.len() - 1] == m);
            }
        }
    } else {
        assert(!modes.contains(StreamMode::Myth));
        assert(!modes.contains(StreamMode::ElementaryOrNotFound));
    }
}

/// The run's result after a processing loop returned `result`: the first
/// non-zero result is kept.
pub open spec fn next_ret(ret: i32, result: i32) -> i32 {
    if ret == 0 { result } else { ret }
}

/// The run's result after processing loops returned `results`, in order.
pub open spec fn ret_after(results: Seq<i32>) -> i32
    decreases results.len(),
{
    if results.len() == 0 {
        0
    } else {
        next_ret(ret_after(results.drop_last()), results.last())
    }
}

/// The run's result is the result of the first processing loop that
/// returned a non-zero value, and `0` when every loop returned `0`.
pub proof fn lemma_ret_is_first_nonzero(results: Seq<i32>)
    ensures
        (forall|i: int| 0 <= i < results.len() ==> results[i] == 0) ==> ret_after(results) == 0,
        forall|k: int|
            0 <= k < results.len() && results[k] != 0 && (forall|i: int| 0 <= i < k ==> results[i] == 0)
                ==> ret_after(results) == results[k],
    decreases results.len(),
{
    if results.len() > 0 {
        let prefix = results.drop_last();
        lemma_ret_is_first_nonzero(prefix);
        assert forall|k: int|
            0 <= k < results.len() && results[k] != 0 && (forall|i: int| 0 <= i < k ==> results[i] == 0)
                implies ret_after(results) == results[k] by {
            if k < results.len() - 1 {
                assert(prefix[k] == results[k]);
                assert(forall|i: int| 0 <= i < k ==> prefix[i] == results[i]);
            } else {
                assert(forall|i: int| 0 <= i < prefix.len() ==> prefix[i] == results[i]);
            }
        }
        if forall|i: int| 0 <= i < results.len() ==> results[i] == 0 {
            assert(forall|i: int| 0 <= i < prefix.len() ==> prefix[i] == results[i]);
        }
    }
}

/// Once a processing loop has returned a non-zero result, later results do
/// not change the run's result.
pub proof fn lemma_ret_is_sticky(earlier: Seq<i32>, later: Seq<i32>)
    requires
        ret_after(earlier) != 0,
    ensures
        ret_after(earlier + later) == ret_after(earlier),
    decreases later.len(),
{
    if later.len() > 0 {
        lemma_ret_is_sticky(earlier, later.drop_last());
        assert((earlier + later).drop_last() =~= earlier + later.drop_last());
    } else {
        assert(earlier + later =~= earlier);
    }
}

/// Recording results one at a time, from a fresh session, keeps the
/// session's result equal to the run's result over all results so far.
pub proof fn lemma_record_tracks_results(results: Seq<i32>, result: i32)
    ensures
        next_ret(ret_after(results), result) == ret_after(results.push(result)),
{
    assert(results.push(result).drop_last() =~= results);
}

/// A run exits with success exactly when every processing loop returned `0`,
/// and with the no-captions status once some loop returned a non-zero result.
pub proof fn lemma_exit_status_reflects_results(results: Seq<i32>)
    ensures
        (exit_status_for(ret_after(results)) == ExitStatus::Success)
            <==> (forall|i: int| 0 <= i < results.len() ==> results[i] == 0),
    decreases results.len(),
{
    if results.len() > 0 {
        let prefix = results.drop_last();
        lemma_exit_status_reflects_results(prefix);
        assert(forall|i: int| 0 <= i < prefix.len() ==> prefix[i] == results[i]);
        if ret_after(results) == 0 {
            assert forall|i: int| 0 <= i < results.len() implies results[i] == 0 by {
                if i < prefix.len() {
                    assert(prefix[i] == results[i]);
                }
            }
        }
    }
}

/// Each closing message appears at most once and exactly on its own
/// condition: the cancel note when a limit was reached, the no-captions note
/// when the run's result is `0`, and the MythTV note when a MythTV input was
/// processed, independently of the other two.
pub proof fn lemma_closing_notices(processed_enough: bool, ret: i32, show_myth_banner: bool)
    ensures
        closing_notices(processed_enough, ret, show_myth_banner).contains(Notice::ProcessingCanceled) == processed_enough,
        closing_notices(processed_enough, ret, show_myth_banner).contains(Notice::NoCaptionsFound) == (ret == 0),
        closing_notices(processed_enough, ret, show_myth_banner).contains(Notice::MythTimingChanged) == show_myth_banner,
        closing_notices(processed_enough, ret, show_myth_banner).len()
            == (if processed_enough { 1int } else { 0int }) + (if ret == 0 { 1int } else { 0int })
                + (if show_myth_banner { 1int } else { 0int }),
        processed_enough ==> closing_notices(processed_enough, ret, show_myth_banner)[0] == Notice::ProcessingCanceled,
        show_myth_banner ==> closing_notices(processed_enough, ret, show_myth_banner).last() == Notice::MythTimingChanged,
        (!processed_enough && ret == 0) ==> closing_notices(processed_enough, ret, show_myth_banner)[0] == Notice::NoCaptionsFound,
{
    let n = closing_notices(processed_enough, ret, show_myth_banner);
    let a: Seq<Notice> = if processed_enough { seq![Notice::ProcessingCanceled] } else { Seq::empty() };
    let b: Seq<Notice> = if ret == 0 { seq![Notice::NoCaptionsFound] } else { Seq::empty() };
    let c: Seq<Notice> = if show_myth_banner { seq![Notice::MythTimingChanged] } else { Seq::empty() };
    assert(n == a + b + c);
    assert forall|x: Notice| n.contains(x) <==> (a.contains(x) || b.contains(x) || c.contains(x)) by {
        if n.contains(x) {
            let i = choose|i: int| 0 <= i < n.len() && n[i] == x;
            if i < a.len() {
                assert(a[i] == x);
            } else if i < a.len() + b.len() {
                assert(b[i - a.len()] == x);
            } else {
                assert(c[i - a.len() - b.len()] == x);
            }
        }
        if a.contains(x) {
            let i = choose|i: int| 0 <= i < a.len() && a[i] == x;
            assert(n[i] == x);
        }
        if b.contains(x) {
            let i = choose|i: int| 0 <= i < b.len() && b[i] == x;
            assert(n[a.len() + i] == x);
        }
        if c.contains(x) {
            let i = choose|i: int| 0 <= i < c.len() && c[i] == x;
            assert(n[a.len() + b.len() + i] == x);
        }
    }
    if processed_enough { assert(a[0] == Notice::ProcessingCanceled); }
    if ret == 0 { assert(b[0] == Notice::NoCaptionsFound); }
    if show_myth_banner { assert(c[0] == Notice::MythTimingChanged); }
}

/// The closing messages of a run, in order.
pub open spec fn closing_notices(processed_enough: bool, ret: i32, show_myth_banner: bool) -> Seq<Notice> {
    (if processed_enough { seq![Notice::ProcessingCanceled] } else { Seq::empty() })
        + (if ret == 0 { seq![Notice::NoCaptionsFound] } else { Seq::empty() })
        + (if show_myth_banner { seq![Notice::MythTimingChanged] } else { Seq::empty() })
}

/// The exit status of a run whose result is `ret`.
pub open spec fn exit_status_for(ret: i32) -> ExitStatus {
    if ret == 0 { ExitStatus::Success } else { ExitStatus::NoCaptions }
}

impl Session {
    /// The state before the first input file.
    pub fn new(use_gop_as_pts: i32, ignore_pts_jumps: bool, extract_chapters: bool, print_file_reports: bool) -> (s: Session)
        ensures
            s.ret == 0,
            !s.show_myth_banner,
            s.use_gop_as_pts == use_gop_as_pts,
            s.ignore_pts_jumps == ignore_pts_jumps,
            s.extract_chapters == extract_chapters,
            s.print_file_reports == print_file_reports,
    {
        Session { ret: 0, show_myth_banner: false, use_gop_as_pts, ignore_pts_jumps, extract_chapters, print_file_reports }
    }

    /// Decides what to do with an input file of the given format.
    /// Elementary streams force GOP timing when the user chose none and are
    /// marked as such, with no loop run; MythTV inputs make the closing banner
    /// appear.
    pub fn begin_file(&mut self, mode: StreamMode) -> (plan: FilePlan)
        requires
            mode != StreamMode::Autodetect,
        ensures
            plan.disable_sync_check == disables_sync_check(mode, old(self).ignore_pts_jumps),
            plan.elementary_stream == (mode == StreamMode::ElementaryOrNotFound),
            plan.processing == loop_for(mode, old(self).extract_chapters, old(self).print_file_reports),
            *final(self) == after_file(*old(self), mode),
            mode == StreamMode::ElementaryOrNotFound ==> plan.processing is None,
            (mode == StreamMode::Transport || mode == StreamMode::Program || mode == StreamMode::Asf
                || mode == StreamMode::Wtv || mode == StreamMode::Gxf || mode == StreamMode::Mxf)
                ==> plan.processing == Some(ProcessingLoop::General),
            mode == StreamMode::McPoodlesRaw ==> plan.processing == Some(ProcessingLoop::McPoodlesRaw),
            mode == StreamMode::Rcwt ==> plan.processing == Some(ProcessingLoop::Rcwt),
            mode == StreamMode::Myth ==> plan.processing == Some(ProcessingLoop::Myth),
            mode == StreamMode::Mkv ==> plan.processing == Some(ProcessingLoop::Matroska),
            final(self).show_myth_banner <==> (old(self).show_myth_banner || mode == StreamMode::Myth),
            final(self).use_gop_as_pts == (if mode == StreamMode::ElementaryOrNotFound && old(self).use_gop_as_pts == 0 {
                1i32
            } else {
                old(self).use_gop_as_pts
            }),
            final(self).ret == old(self).ret,
            mode == StreamMode::Mp4 ==> plan.processing == Some(ProcessingLoop::Mp4 {
                dump_chapters: old(self).extract_chapters,
                print_file_report: old(self).print_file_reports,
            }),
            plan.disable_sync_check <==> (mode == StreamMode::McPoodlesRaw || mode == StreamMode::Rcwt
                || mode == StreamMode::Mp4 || ((mode == StreamMode::Transport || mode == StreamMode::Program
                || mode == StreamMode::Asf || mode == StreamMode::Wtv || mode == StreamMode::Gxf
                || mode == StreamMode::Mxf) && old(self).ignore_pts_jumps)),
    {
        let trusted_timeline = match mode {
            StreamMode::McPoodlesRaw | StreamMode::Rcwt | StreamMode::Mp4 => true,
            _ => false,
        };
        match mode {
            StreamMode::ElementaryOrNotFound => {
                if self.use_gop_as_pts == 0 {
                    self.use_gop_as_pts = 1;
                }
                FilePlan { disable_sync_check: trusted_timeline, elementary_stream: true, processing: None }
            },
            StreamMode::Transport | StreamMode::Program | StreamMode::Asf | StreamMode::Wtv
            | StreamMode::Gxf | StreamMode::Mxf => {
                let disable_sync_check = trusted_timeline || self.ignore_pts_jumps;
                FilePlan { disable_sync_check, elementary_stream: false, processing: Some(ProcessingLoop::General) }
            },
            StreamMode::McPoodlesRaw => {
                FilePlan { disable_sync_check: trusted_timeline, elementary_stream: false, processing: Some(ProcessingLoop::McPoodlesRaw) }
            },
            StreamMode::Rcwt => {
                FilePlan { disable_sync_check: trusted_timeline, elementary_stream: false, processing: Some(ProcessingLoop::Rcwt) }
            },
            StreamMode::Myth => {
                self.show_myth_banner = true;
                FilePlan { disable_sync_check: trusted_timeline, elementary_stream: false, processing: Some(ProcessingLoop::Myth) }
            },
            StreamMode::Mp4 => {
                let processing = ProcessingLoop::Mp4 {
                    dump_chapters: self.extract_chapters,
                    print_file_report: self.print_file_reports,
                };
                FilePlan { disable_sync_check: trusted_timeline, elementary_stream: false, processing: Some(processing) }
            },
            StreamMode::Mkv => {
                FilePlan { disable_sync_check: trusted_timeline, elementary_stream: false, processing: Some(ProcessingLoop::Matroska) }
            },
            StreamMode::Autodetect => {
                FilePlan { disable_sync_check: trusted_timeline, elementary_stream: false, processing: None }
            },
        }
    }

    /// Takes in the result of a processing loop.
    pub fn record_result(&mut self, result: i32)
        ensures
            final(self).ret == next_ret(old(self).ret, result),
            old(self).ret != 0 ==> final(self).ret == old(self).ret,
            old(self).ret == 0 ==> final(self).ret == result,
            final(self).show_myth_banner == old(self).show_myth_banner,
            final(self).use_gop_as_pts == old(self).use_gop_as_pts,
            final(self).ignore_pts_jumps == old(self).ignore_pts_jumps,
            final(self).extract_chapters == old(self).extract_chapters,
            final(self).print_file_reports == old(self).print_file_reports,
    {
        if self.ret == 0 {
            self.ret = result;
        }
    }

    /// How the run ends, given whether a user-defined limit was reached.
    pub fn finish(&self, processed_enough: bool) -> (c: Conclusion)
        ensures
            c.notices@ == closing_notices(processed_enough, self.ret, self.show_myth_banner),
            c.status == exit_status_for(self.ret),
            c.notices@.contains(Notice::ProcessingCanceled) == processed_enough,
            c.notices@.contains(Notice::NoCaptionsFound) == (self.ret == 0),
            c.notices@.contains(Notice::MythTimingChanged) == self.show_myth_banner,
            processed_enough ==> c.notices@[0] == Notice::ProcessingCanceled,
            self.show_myth_banner ==> c.notices@.last() == Notice::MythTimingChanged,
            c.status == ExitStatus::Success <==> self.ret == 0,
    {
        let mut notices: Vec<Notice> = Vec::new();
        if processed_enough {
            notices.push(Notice::ProcessingCanceled);
        }
        if self.ret == 0 {
            notices.push(Notice::NoCaptionsFound);
        }
        if self.show_myth_banner {
            notices.push(Notice::MythTimingChanged);
        }
        let status = if self.ret == 0 { ExitStatus::Success } else { ExitStatus::NoCaptions };
        proof {
            assert(notices@ =~= closing_notices(processed_enough, self.ret, self.show_myth_banner));
            lemma_closing_notices(processed_enough, self.ret, self.show_myth_banner);
        }
        Conclusion { notices, status }
    }
}

/// The XDS option after checking it against the output format: XDS is only
/// exported to transcripts, so for any other format it is switched off and a
/// warning is due.
#[derive(Clone, Copy, Debug, PartialEq, Eq, Structural)]
pub struct XdsSetting {
    pub xds: i32,
    pub warn_ignored: bool,
}

/// Checks the XDS option against the output format.
pub fn xds_setting(xds: i32, writes_transcript: bool) -> (s: XdsSetting)
    ensures
        s.warn_ignored == (xds != 0 && !writes_transcript),
        s.xds == (if s.warn_ignored { 0 } else { xds }),
{
    if xds != 0 && !writes_transcript {
        XdsSetting { xds: 0, warn_ignored: true }
    } else {
        XdsSetting { xds, warn_ignored: false }
    }
}

/// Checks the total input size computed for concatenated input: a negative
/// size means an input file could not be opened.
pub fn check_total_input_size(size: i64) -> (r: Result<i64, RunError>)
    ensures
        size >= 0 ==> r == Ok::<i64, RunError>(size),
        size < 0 ==> r == Err::<i64, RunError>(RunError::InputSizeUnknown),
{
    if size < 0 {
        Err(RunError::InputSizeUnknown)
    } else {
        Ok(size)
    }
}

/// Checks that an MP4 input is an actual file: the MP4 reader cannot read a
/// stream, and the current file index is `-1` when the input is standard
/// input. Gives the file's index.
pub fn check_mp4_input(current_file: i32) -> (r: Result<i32, RunError>)
    ensures
        current_file != -1 ==> r == Ok::<i32, RunError>(current_file),
        current_file == -1 ==> r == Err::<i32, RunError>(RunError::Mp4WithoutFile),
{
    if current_file == -1 {
        Err(RunError::Mp4WithoutFile)
    } else {
        Ok(current_file)
    }
}

} // verus!
