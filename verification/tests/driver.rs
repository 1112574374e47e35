use ccextractor::report::{decoder_report, DecoderStats, FrameDurations, ReportItem};
use ccextractor::session::{
    check_mp4_input, check_total_input_size, xds_setting, ExitStatus, Notice, ProcessingLoop,
    RunError, Session, StreamMode, XdsSetting,
};
use ccextractor::startup::{argument_count, is_c_string_compatible, ExitCodes, ParseOutcome};
use ccextractor::teletext::{configured_teletext_page, teletext_page_to_bcd};
use ccextractor::timing::{
    gop_summary, gop_summary_fits, gop_summary_shown, CaptionBlockCounters, DecoderTiming, GopSummary, GopTime,
    PtsSummary, UNSET_MIN_PTS,
};

#[test]
fn teletext_pages_become_bcd() {
    assert_eq!(teletext_page_to_bcd(888), 0x888);
    assert_eq!(teletext_page_to_bcd(100), 0x100);
    assert_eq!(teletext_page_to_bcd(1), 0x001);
    assert_eq!(teletext_page_to_bcd(999), 0x999);
    assert_eq!(teletext_page_to_bcd(305), 0x305);
}

#[test]
fn teletext_pages_above_999_truncate_the_hundreds() {
    assert_eq!(teletext_page_to_bcd(1000), 0xA00);
    assert_eq!(teletext_page_to_bcd(65535), 0x8F35);
}

#[test]
fn teletext_default_page_stays_zero() {
    assert_eq!(configured_teletext_page(0), 0);
    assert_eq!(configured_teletext_page(801), 0x801);
}

#[test]
fn teletext_bcd_round_trips_every_three_digit_page() {
    for page in 0u16..=999 {
        let bcd = teletext_page_to_bcd(page);
        let back = 100 * (bcd >> 8) + 10 * ((bcd >> 4) & 0xF) + (bcd & 0xF);
        assert_eq!(back, page);
    }
}

fn session() -> Session {
    Session::new(0, false, false, false)
}

#[test]
fn elementary_stream_forces_gop_timing() {
    let mut s = session();
    let plan = s.begin_file(StreamMode::ElementaryOrNotFound);
    assert!(plan.elementary_stream);
    assert!(!plan.disable_sync_check);
    assert_eq!(plan.processing, None);
    assert_eq!(s.use_gop_as_pts, 1);

    let mut ignoring = Session::new(0, true, false, false);
    let plan = ignoring.begin_file(StreamMode::ElementaryOrNotFound);
    assert!(!plan.disable_sync_check);
    assert_eq!(plan.processing, None);

    let mut chosen = Session::new(-1, false, false, false);
    chosen.begin_file(StreamMode::ElementaryOrNotFound);
    assert_eq!(chosen.use_gop_as_pts, -1);
}

#[test]
fn general_formats_use_the_general_loop() {
    for mode in [
        StreamMode::Transport,
        StreamMode::Program,
        StreamMode::Asf,
        StreamMode::Wtv,
        StreamMode::Gxf,
        StreamMode::Mxf,
    ] {
        let mut s = session();
        let plan = s.begin_file(mode);
        assert_eq!(plan.processing, Some(ProcessingLoop::General));
        assert!(!plan.disable_sync_check);
        assert!(!plan.elementary_stream);
        assert_eq!(s.use_gop_as_pts, 0);

        let mut ignoring = Session::new(0, true, false, false);
        assert!(ignoring.begin_file(mode).disable_sync_check);
    }
}

#[test]
fn trusted_timelines_switch_off_the_sync_check() {
    let mut s = session();
    let raw = s.begin_file(StreamMode::McPoodlesRaw);
    assert!(raw.disable_sync_check);
    assert_eq!(raw.processing, Some(ProcessingLoop::McPoodlesRaw));
    let rcwt = s.begin_file(StreamMode::Rcwt);
    assert!(rcwt.disable_sync_check);
    assert_eq!(rcwt.processing, Some(ProcessingLoop::Rcwt));
    let mp4 = s.begin_file(StreamMode::Mp4);
    assert!(mp4.disable_sync_check);
    assert_eq!(
        mp4.processing,
        Some(ProcessingLoop::Mp4 { dump_chapters: false, print_file_report: false })
    );
    let mkv = s.begin_file(StreamMode::Mkv);
    assert!(!mkv.disable_sync_check);
    assert_eq!(mkv.processing, Some(ProcessingLoop::Matroska));
}

#[test]
fn mp4_options_reach_the_plan() {
    let mut s = Session::new(0, false, true, true);
    let plan = s.begin_file(StreamMode::Mp4);
    assert_eq!(
        plan.processing,
        Some(ProcessingLoop::Mp4 { dump_chapters: true, print_file_report: true })
    );
}

#[test]
fn myth_input_shows_the_banner() {
    let mut s = session();
    s.begin_file(StreamMode::Transport);
    assert!(!s.show_myth_banner);
    let plan = s.begin_file(StreamMode::Myth);
    assert_eq!(plan.processing, Some(ProcessingLoop::Myth));
    assert!(s.show_myth_banner);
    s.begin_file(StreamMode::Program);
    assert!(s.show_myth_banner);
    let c = s.finish(false);
    assert_eq!(c.notices, vec![Notice::NoCaptionsFound, Notice::MythTimingChanged]);
}

#[test]
fn first_nonzero_result_is_kept() {
    let mut s = session();
    s.record_result(0);
    assert_eq!(s.ret, 0);
    s.record_result(3);
    assert_eq!(s.ret, 3);
    s.record_result(0);
    s.record_result(7);
    assert_eq!(s.ret, 3);
}

#[test]
fn run_without_results_ends_with_success_and_no_captions_notice() {
    let s = session();
    let c = s.finish(false);
    assert_eq!(c.notices, vec![Notice::NoCaptionsFound]);
    assert_eq!(c.status, ExitStatus::Success);
    assert_eq!(CODES.code_for(c.status), 0);
}

#[test]
fn run_with_a_result_ends_with_no_captions_status() {
    let mut s = session();
    s.record_result(1);
    let c = s.finish(true);
    assert_eq!(c.notices, vec![Notice::ProcessingCanceled]);
    assert_eq!(c.status, ExitStatus::NoCaptions);
    assert_eq!(CODES.code_for(c.status), 10);
}

#[test]
fn xds_is_only_kept_for_transcripts() {
    assert_eq!(xds_setting(1, true), XdsSetting { xds: 1, warn_ignored: false });
    assert_eq!(xds_setting(1, false), XdsSetting { xds: 0, warn_ignored: true });
    assert_eq!(xds_setting(0, false), XdsSetting { xds: 0, warn_ignored: false });
}

#[test]
fn negative_total_size_stops_the_run() {
    assert_eq!(check_total_input_size(-1), Err(RunError::InputSizeUnknown));
    assert_eq!(check_total_input_size(0), Ok(0));
    assert_eq!(check_total_input_size(4096), Ok(4096));
}

#[test]
fn mp4_needs_an_actual_file() {
    assert_eq!(check_mp4_input(-1), Err(RunError::Mp4WithoutFile));
    assert_eq!(check_mp4_input(0), Ok(0));
    assert_eq!(check_mp4_input(2), Ok(2));
}

fn timing() -> DecoderTiming {
    DecoderTiming {
        pts_set: 2,
        min_pts: 900_000,
        sync_pts: 1_800_000,
        fts_now: 500,
        fts_offset: 100,
        fts_max: 19_960,
        fts_global: 1000,
    }
}

#[test]
fn end_of_input_adds_frame_and_field1_blocks() {
    let mut t = timing();
    let mut c = CaptionBlockCounters { field1: 30, field2: 60, cea708: 90 };
    assert!(t.end_of_input_fits(&c, 40));
    t.close_at_end_of_input(&mut c, 40);
    // 1000 + 19960 + 40 + 30 * 1001 / 3
    assert_eq!(t.fts_global, 31_010);
    assert_eq!(t.fts_now, 0);
    assert_eq!(c, CaptionBlockCounters { field1: 0, field2: 0, cea708: 0 });
}

#[test]
fn end_of_input_falls_back_to_field2_then_708() {
    let mut t = timing();
    let mut c = CaptionBlockCounters { field1: 0, field2: 4, cea708: 90 };
    t.close_at_end_of_input(&mut c, 0);
    assert_eq!(t.fts_global, 1000 + 19_960 + 1334);
    let mut t2 = timing();
    let mut c2 = CaptionBlockCounters { field1: 0, field2: 0, cea708: -1 };
    t2.close_at_end_of_input(&mut c2, 0);
    assert_eq!(t2.fts_global, 1000 + 19_960 - 333);
}

#[test]
fn end_of_input_overflow_is_detected() {
    let t = timing();
    let c = CaptionBlockCounters { field1: i32::MAX, field2: 0, cea708: 0 };
    assert!(!t.end_of_input_fits(&c, 0));
    let mut big = timing();
    big.fts_global = i64::MAX;
    let c0 = CaptionBlockCounters { field1: 0, field2: 0, cea708: 0 };
    assert!(!big.end_of_input_fits(&c0, 0));
}

#[test]
fn pts_range_in_milliseconds() {
    let t = timing();
    assert!(t.has_pts_range());
    assert!(t.pts_summary_fits(40));
    let s = t.pts_summary(40);
    assert_eq!(s, PtsSummary { min_ms: 9900, max_ms: 20_040, length_ms: 10_140 });
}

#[test]
fn pts_range_rounds_toward_zero() {
    let mut t = timing();
    t.min_pts = -95;
    t.sync_pts = 179;
    t.fts_offset = 0;
    let s = t.pts_summary(0);
    assert_eq!(s, PtsSummary { min_ms: -1, max_ms: 1, length_ms: 2 });
}

#[test]
fn pts_range_needs_a_set_minimum() {
    let mut t = timing();
    t.pts_set = 0;
    assert!(!t.has_pts_range());
    let mut u = timing();
    u.min_pts = UNSET_MIN_PTS;
    assert!(!u.has_pts_range());
}

#[test]
fn gop_times_difference() {
    let first = GopTime { inited: true, ms: 1000 };
    let last = GopTime { inited: true, ms: 61_000 };
    assert!(gop_summary_shown(first, last, false));
    assert!(!gop_summary_shown(first, last, true));
    assert!(!gop_summary_shown(GopTime { inited: false, ms: 0 }, last, false));
    assert!(gop_summary_fits(first, last, 267));
    assert_eq!(
        gop_summary(first, last, 267),
        GopSummary { initial_ms: 1000, final_ms: 61_000, diff_ms: 60_000, length_ms: 60_267 }
    );
    let huge = GopTime { inited: true, ms: i64::MAX };
    let low = GopTime { inited: true, ms: -1 };
    assert!(!gop_summary_fits(low, huge, 0));
}

fn stats() -> DecoderStats {
    DecoderStats {
        total_pulldownframes: 0,
        frames_since_last_gop: 8,
        false_pict_header: 0,
        num_key_frames: 12,
        stat_numuserheaders: 40,
        stat_dvdccheaders: 0,
        stat_scte20ccheaders: 0,
        stat_replay4000headers: 0,
        stat_replay5000headers: 0,
        stat_hdtv: 0,
        stat_dishheaders: 0,
        stat_divicom: 3,
    }
}

#[test]
fn decoder_report_lists_present_parts_in_order() {
    let mut s = stats();
    s.total_pulldownframes = 5;
    let t = timing();
    let first = GopTime { inited: true, ms: 1000 };
    let last = GopTime { inited: true, ms: 2000 };
    let d = FrameDurations { pulldown_ms: 166, postsync_ms: 40, gop_frames_ms: 266 };
    let r = decoder_report(&s, &t, first, last, false, true, d);
    assert_eq!(
        r,
        vec![
            ReportItem::PulldownFrames { frames: 5, ms: 166 },
            ReportItem::PtsRange {
                range: PtsSummary { min_ms: 9900, max_ms: 20_040, length_ms: 10_140 },
                approximated: true
            },
            ReportItem::GopTimes {
                times: GopSummary { initial_ms: 1000, final_ms: 2000, diff_ms: 1000, length_ms: 1266 },
                frames: 8
            },
            ReportItem::KeyFrames(12),
            ReportItem::UserDataFields(40),
            ReportItem::DivicomFields(3),
        ]
    );
}

#[test]
fn decoder_report_skips_gop_times_for_asf() {
    let s = stats();
    let mut t = timing();
    t.pts_set = 0;
    let first = GopTime { inited: true, ms: 1000 };
    let last = GopTime { inited: true, ms: 2000 };
    let d = FrameDurations { pulldown_ms: 0, postsync_ms: 0, gop_frames_ms: 0 };
    let r = decoder_report(&s, &t, first, last, true, false, d);
    assert_eq!(
        r,
        vec![ReportItem::KeyFrames(12), ReportItem::UserDataFields(40), ReportItem::DivicomFields(3)]
    );
    let unset = GopTime { inited: false, ms: 0 };
    let r2 = decoder_report(&s, &t, unset, last, false, false, d);
    assert_eq!(r2.len(), 3);
}

#[test]
fn decoder_report_counters_each_line() {
    let s = DecoderStats {
        total_pulldownframes: 0,
        frames_since_last_gop: 0,
        false_pict_header: 1,
        num_key_frames: 2,
        stat_numuserheaders: 3,
        stat_dvdccheaders: 4,
        stat_scte20ccheaders: 5,
        stat_replay4000headers: 6,
        stat_replay5000headers: 7,
        stat_hdtv: 8,
        stat_dishheaders: 9,
        stat_divicom: 10,
    };
    let mut t = timing();
    t.pts_set = 0;
    let unset = GopTime { inited: false, ms: 0 };
    let d = FrameDurations { pulldown_ms: 0, postsync_ms: 0, gop_frames_ms: 0 };
    let r = decoder_report(&s, &t, unset, unset, false, false, d);
    assert_eq!(
        r,
        vec![
            ReportItem::FalsePictureHeaders(1),
            ReportItem::KeyFrames(2),
            ReportItem::UserDataFields(3),
            ReportItem::DvdFields(4),
            ReportItem::Scte20Fields(5),
            ReportItem::ReplayTv4000Fields(6),
            ReportItem::ReplayTv5000Fields(7),
            ReportItem::HdtvFields(8),
            ReportItem::DishNetworkFields(9),
            ReportItem::DivicomFields(10),
        ]
    );
}

const CODES: ExitCodes = ExitCodes { ok: 0, no_input_files: 2, with_help: 11, no_captions: 10 };

#[test]
fn parser_codes_decide_whether_to_start() {
    assert_eq!(CODES.parse_outcome(0), ParseOutcome::Start);
    assert_eq!(CODES.parse_outcome(2), ParseOutcome::ShowUsageAndExit(2));
    assert_eq!(CODES.parse_outcome(11), ParseOutcome::EndAfterHelp);
    assert_eq!(CODES.parse_outcome(7), ParseOutcome::Exit(7));
}

#[test]
fn exit_status_codes() {
    assert_eq!(CODES.code_for(ExitStatus::Success), 0);
    assert_eq!(CODES.code_for(ExitStatus::NoCaptions), 10);
}

#[test]
fn argument_counts_fit_a_c_int() {
    assert_eq!(argument_count(3), Some(3));
    assert_eq!(argument_count(i32::MAX as usize), Some(i32::MAX));
    assert_eq!(argument_count(i32::MAX as usize + 1), None);
}

#[test]
fn arguments_with_nul_bytes_are_refused() {
    assert!(is_c_string_compatible(b"-o"));
    assert!(is_c_string_compatible(b""));
    assert!(!is_c_string_compatible(b"a\0b"));
    assert!(!is_c_string_compatible(b"\0"));
}

#[test]
fn later_decoders_get_only_the_frame_time() {
    let mut counters = CaptionBlockCounters { field1: 3, field2: 0, cea708: 0 };
    let mut first = timing();
    first.close_at_end_of_input(&mut counters, 40);
    assert_eq!(first.fts_global, 1000 + 19_960 + 40 + 1001);
    let mut second = timing();
    second.close_at_end_of_input(&mut counters, 40);
    assert_eq!(second.fts_global, 1000 + 19_960 + 40);
}

#[test]
fn exit_status_is_success_only_when_all_results_are_zero() {
    let mut zeros = session();
    zeros.record_result(0);
    zeros.record_result(0);
    assert_eq!(zeros.finish(false).status, ExitStatus::Success);
    let mut later = session();
    later.record_result(0);
    later.record_result(-2);
    assert_eq!(later.ret, -2);
    assert_eq!(later.finish(false).status, ExitStatus::NoCaptions);
}
