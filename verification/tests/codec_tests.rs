use rs_ffmpeg::codec::{
    drain_step, CodecCall, CodecContext, CodecSettings, CodecState, Direction, DrainStep,
    FlushPlan, AVFMT_GLOBALHEADER, AV_CODEC_CAP_DELAY, AV_CODEC_FLAG_GLOBAL_HEADER,
};
use rs_ffmpeg::error::{ErrnoCodes, RsmpegError, AVERROR_EOF};
use rs_ffmpeg::handle::{Release, ResourceKind};
use rs_ffmpeg::stream::{CodecParameters, MediaType, Rational};

fn errno() -> ErrnoCodes {
    ErrnoCodes::new(11, 22, 5)
}

fn decoder() -> CodecContext {
    CodecContext::new(0x7000, Direction::Decode, 27, AV_CODEC_CAP_DELAY, errno()).unwrap()
}

fn encoder() -> CodecContext {
    CodecContext::new(0x7100, Direction::Encode, 27, AV_CODEC_CAP_DELAY, errno()).unwrap()
}

fn open_decoder() -> CodecContext {
    let mut c = decoder();
    c.open(0).unwrap();
    c
}

fn s() -> String {
    String::new()
}

#[test]
fn new_context_is_created_not_open() {
    assert_eq!(
        CodecContext::new(0, Direction::Decode, 27, 0, errno()),
        Err(RsmpegError::AllocationError)
    );
    let c = decoder();
    assert_eq!(c.as_raw(), 0x7000);
    assert_eq!(c.state(), CodecState::Created);
    assert_eq!(c.direction(), Direction::Decode);
    assert_eq!(
        c.settings(),
        CodecSettings {
            media_type: MediaType::Other,
            codec_id: 27,
            format: -1,
            width: 0,
            height: 0,
            sample_rate: 0,
            bit_rate: 0,
            gop_size: 0,
            time_base: Rational { num: 0, den: 1 },
            framerate: Rational { num: 0, den: 1 },
            flags: 0,
        }
    );
}

#[test]
fn open_maps_its_code() {
    let mut c = decoder();
    assert_eq!(c.open(-22), Err(RsmpegError::CodecOpenError { code: -22 }));
    assert_eq!(c.state(), CodecState::Created);
    assert_eq!(c.open(0), Ok(()));
    assert_eq!(c.state(), CodecState::Opened);
    assert_eq!(c.open(0), Err(RsmpegError::UsageError));
    assert_eq!(c.state(), CodecState::Opened);
}

#[test]
fn nothing_is_submitted_or_drained_before_open() {
    let mut c = decoder();
    assert!(!c.admits(CodecCall::Send { end_of_stream: false }));
    assert!(!c.admits(CodecCall::Receive));
    assert_eq!(c.send_packet(false, 0, s()), Err(RsmpegError::UsageError));
    assert_eq!(c.receive_frame(0, s()), Err(RsmpegError::UsageError));
    assert_eq!(c.state(), CodecState::Created);
}

#[test]
fn decode_loop_submit_then_drain() {
    let mut c = open_decoder();
    assert_eq!(c.send_packet(false, 0, s()), Ok(()));
    assert_eq!(c.receive_frame(0, s()), Ok(()));
    assert_eq!(c.receive_frame(-11, s()), Err(RsmpegError::DrainExhausted));
    assert_eq!(c.state(), CodecState::Opened);
    assert_eq!(c.send_packet(false, 0, s()), Ok(()));
    assert_eq!(c.receive_frame(-11, s()), Err(RsmpegError::DrainExhausted));
    assert_eq!(c.send_packet(true, 0, s()), Ok(()));
    assert_eq!(c.state(), CodecState::Draining);
    assert_eq!(c.receive_frame(0, s()), Ok(()));
    assert_eq!(c.receive_frame(AVERROR_EOF, s()), Err(RsmpegError::Flushed));
    assert_eq!(c.state(), CodecState::Flushed);
}

#[test]
fn flushed_comes_once_and_then_usage_errors() {
    let mut c = open_decoder();
    c.send_packet(true, 0, s()).unwrap();
    let mut flushed = 0;
    let codes = [0, 0, AVERROR_EOF, AVERROR_EOF, 0, -11, AVERROR_EOF];
    let mut after = Vec::new();
    for code in codes {
        let r = c.receive_frame(code, s());
        if r == Err(RsmpegError::Flushed) {
            flushed += 1;
        } else if flushed > 0 {
            after.push(r);
        }
    }
    assert_eq!(flushed, 1);
    assert_eq!(after.len(), 4);
    for r in after {
        assert_eq!(r, Err(RsmpegError::UsageError));
    }
    assert_eq!(c.send_packet(false, 0, s()), Err(RsmpegError::UsageError));
    assert_eq!(c.open(0), Err(RsmpegError::UsageError));
    assert_eq!(c.configure(c.settings()), Err(RsmpegError::UsageError));
    assert_eq!(c.state(), CodecState::Flushed);
}

#[test]
fn no_submission_after_end_of_stream() {
    let mut c = open_decoder();
    c.send_packet(true, 0, s()).unwrap();
    assert_eq!(c.send_packet(false, 0, s()), Err(RsmpegError::UsageError));
    assert_eq!(c.send_packet(true, 0, s()), Err(RsmpegError::UsageError));
    assert_eq!(c.state(), CodecState::Draining);
}

#[test]
fn failed_submission_changes_nothing() {
    let mut c = open_decoder();
    assert_eq!(
        c.send_packet(true, -12, String::from("Cannot allocate memory")),
        Err(RsmpegError::NativeError {
            code: -12,
            message: String::from("Cannot allocate memory")
        })
    );
    assert_eq!(c.state(), CodecState::Opened);
    assert_eq!(
        c.send_packet(false, -11, String::from("Resource temporarily unavailable")),
        Err(RsmpegError::NativeError {
            code: -11,
            message: String::from("Resource temporarily unavailable")
        })
    );
    assert_eq!(c.state(), CodecState::Opened);
}

#[test]
fn failed_drain_changes_nothing() {
    let mut c = open_decoder();
    assert_eq!(
        c.receive_frame(-22, String::from("Invalid argument")),
        Err(RsmpegError::NativeError { code: -22, message: String::from("Invalid argument") })
    );
    assert_eq!(c.state(), CodecState::Opened);
}

#[test]
fn each_direction_has_its_own_calls() {
    let mut d = open_decoder();
    assert_eq!(d.send_frame(false, 0, s()), Err(RsmpegError::UsageError));
    assert_eq!(d.send_frame(true, 0, s()), Err(RsmpegError::UsageError));
    assert_eq!(d.receive_packet(AVERROR_EOF, s()), Err(RsmpegError::UsageError));
    assert_eq!(d.state(), CodecState::Opened);
    let mut e = encoder();
    e.open(0).unwrap();
    assert_eq!(e.send_packet(true, 0, s()), Err(RsmpegError::UsageError));
    assert_eq!(e.receive_frame(AVERROR_EOF, s()), Err(RsmpegError::UsageError));
    assert_eq!(e.state(), CodecState::Opened);
}

#[test]
fn encode_loop_mirrors_decode() {
    let mut e = encoder();
    e.open(0).unwrap();
    assert_eq!(e.send_frame(false, 0, s()), Ok(()));
    assert_eq!(e.receive_packet(-11, s()), Err(RsmpegError::DrainExhausted));
    assert_eq!(e.send_frame(false, 0, s()), Ok(()));
    assert_eq!(e.receive_packet(0, s()), Ok(()));
    assert_eq!(e.receive_packet(-11, s()), Err(RsmpegError::DrainExhausted));
    assert_eq!(e.send_frame(true, 0, s()), Ok(()));
    assert_eq!(e.state(), CodecState::Draining);
    assert_eq!(e.receive_packet(0, s()), Ok(()));
    assert_eq!(e.receive_packet(AVERROR_EOF, s()), Err(RsmpegError::Flushed));
    assert_eq!(e.state(), CodecState::Flushed);
    assert_eq!(e.receive_packet(0, s()), Err(RsmpegError::UsageError));
}

#[test]
fn drain_uses_the_errno_table_of_the_context() {
    let bsd = ErrnoCodes::new(35, 22, 5);
    let mut c = CodecContext::new(0x7000, Direction::Decode, 27, 0, bsd).unwrap();
    c.open(0).unwrap();
    assert_eq!(c.receive_frame(-35, s()), Err(RsmpegError::DrainExhausted));
    assert_eq!(
        c.receive_frame(-11, String::from("e")),
        Err(RsmpegError::NativeError { code: -11, message: String::from("e") })
    );
}

#[test]
fn drain_step_ends_loops_without_error_on_the_two_signals() {
    assert_eq!(drain_step(Ok(())), DrainStep::Deliver);
    assert_eq!(drain_step(Err(RsmpegError::DrainExhausted)), DrainStep::Stop);
    assert_eq!(drain_step(Err(RsmpegError::Flushed)), DrainStep::Stop);
    assert_eq!(
        drain_step(Err(RsmpegError::UsageError)),
        DrainStep::Fail(RsmpegError::UsageError)
    );
    assert_eq!(
        drain_step(Err(RsmpegError::NativeError { code: -5, message: String::from("io") })),
        DrainStep::Fail(RsmpegError::NativeError { code: -5, message: String::from("io") })
    );
}

#[test]
fn flush_is_skipped_without_delay_capability() {
    let no_delay = CodecContext::new(0x1, Direction::Encode, 27, 0, errno()).unwrap();
    assert_eq!(no_delay.flush_plan(), FlushPlan::Skip);
    let other_bits = CodecContext::new(0x1, Direction::Encode, 27, 1 | 2 | 64, errno()).unwrap();
    assert_eq!(other_bits.flush_plan(), FlushPlan::Skip);
    let delay = CodecContext::new(0x1, Direction::Encode, 27, 32 | 2, errno()).unwrap();
    assert_eq!(delay.flush_plan(), FlushPlan::Submit);
    assert_eq!(AV_CODEC_CAP_DELAY, 1 << 5);
}

#[test]
fn settings_change_only_before_open() {
    let mut c = encoder();
    let mut wanted = c.settings();
    wanted.width = 1280;
    wanted.height = 720;
    wanted.bit_rate = 400000;
    wanted.gop_size = 12;
    wanted.time_base = Rational { num: 1, den: 25 };
    assert_eq!(c.configure(wanted), Ok(()));
    assert_eq!(c.settings(), wanted);
    c.open(0).unwrap();
    let mut later = wanted;
    later.width = 1;
    assert_eq!(c.configure(later), Err(RsmpegError::UsageError));
    assert_eq!(c.settings(), wanted);
}

#[test]
fn codecpar_round_trip_keeps_stream_values() {
    let par = CodecParameters {
        media_type: MediaType::Video,
        codec_id: 27,
        format: 0,
        width: 640,
        height: 360,
        sample_rate: 0,
    };
    let mut c = decoder();
    let mut before = c.settings();
    before.bit_rate = 1000;
    before.flags = 3;
    c.configure(before).unwrap();
    assert_eq!(c.apply_codecpar(&par), Ok(()));
    assert_eq!(c.extract_codecpar(), par);
    assert_eq!(c.settings().bit_rate, 1000);
    assert_eq!(c.settings().flags, 3);
    c.open(0).unwrap();
    let other = CodecParameters { width: 1, ..par };
    assert_eq!(c.apply_codecpar(&other), Err(RsmpegError::UsageError));
    assert_eq!(c.extract_codecpar(), par);
}

#[test]
fn global_header_follows_the_format_flag() {
    assert_eq!(AVFMT_GLOBALHEADER, 0x40);
    assert_eq!(AV_CODEC_FLAG_GLOBAL_HEADER, 1 << 22);
    let mut c = encoder();
    assert_eq!(c.negotiate_global_header(0x1 | 0x80), Ok(()));
    assert_eq!(c.settings().flags, 0);
    let mut s = c.settings();
    s.flags = 2;
    c.configure(s).unwrap();
    assert_eq!(c.negotiate_global_header(0x40 | 0x1), Ok(()));
    assert_eq!(c.settings().flags, 2 | (1 << 22));
    c.open(0).unwrap();
    assert_eq!(c.negotiate_global_header(0x40), Err(RsmpegError::UsageError));
}

#[test]
fn codec_release_frees_the_context() {
    assert_eq!(
        decoder().release(),
        Release::Free { kind: ResourceKind::CodecContext, addr: 0x7000 }
    );
}

#[test]
fn no_submission_before_the_last_one_is_drained() {
    let mut c = open_decoder();
    assert!(!c.needs_drain());
    assert_eq!(c.send_packet(false, 0, s()), Ok(()));
    assert!(c.needs_drain());
    assert!(!c.admits(CodecCall::Send { end_of_stream: false }));
    assert_eq!(c.send_packet(false, 0, s()), Err(RsmpegError::UsageError));
    assert_eq!(c.send_packet(true, 0, s()), Err(RsmpegError::UsageError));
    assert_eq!(c.state(), CodecState::Opened);
    assert_eq!(c.receive_frame(0, s()), Ok(()));
    assert!(c.needs_drain());
    assert_eq!(c.send_packet(false, 0, s()), Err(RsmpegError::UsageError));
    assert_eq!(
        c.receive_frame(-5, String::from("io")),
        Err(RsmpegError::NativeError { code: -5, message: String::from("io") })
    );
    assert!(c.needs_drain());
    assert_eq!(c.receive_frame(-11, s()), Err(RsmpegError::DrainExhausted));
    assert!(!c.needs_drain());
    assert_eq!(c.send_packet(false, 0, s()), Ok(()));
}

#[test]
fn failed_submission_needs_no_drain() {
    let mut c = open_decoder();
    assert!(c.send_packet(false, -12, s()).is_err());
    assert!(!c.needs_drain());
    assert_eq!(c.send_packet(false, 0, s()), Ok(()));
}

#[test]
fn draining_an_idle_codec_is_allowed() {
    let mut c = open_decoder();
    assert_eq!(c.receive_frame(-11, s()), Err(RsmpegError::DrainExhausted));
    assert_eq!(c.receive_frame(-11, s()), Err(RsmpegError::DrainExhausted));
    assert_eq!(c.send_packet(false, 0, s()), Ok(()));
}
