use rs_ffmpeg::buffer::BufferPool;
use rs_ffmpeg::error::{ErrnoCodes, RsmpegError};
use rs_ffmpeg::handle::{Release, ResourceKind};
use rs_ffmpeg::io::IoBridge;
use rs_ffmpeg::output::{
    Closed, CreateFailure, IoTarget, MuxCall, MuxState, OutputContainer, WriteStatus,
};
use rs_ffmpeg::packet::{Packet, PacketMeta};
use rs_ffmpeg::payload::Payload;
use rs_ffmpeg::stream::{CodecParameters, MediaType, Rational};

fn packet_with(pool: &mut BufferPool, data: Vec<u8>, meta: PacketMeta) -> Packet {
    Packet { payload: Payload::new(pool, data), meta }
}

fn errno() -> ErrnoCodes {
    ErrnoCodes::new(11, 22, 5)
}

fn container() -> OutputContainer {
    OutputContainer::create(0, 0x5000, None, errno()).unwrap()
}

fn bridge() -> IoBridge {
    IoBridge::new(0x9000, 4096, false, errno()).unwrap()
}

fn closed(complete: bool) -> Closed {
    Closed {
        container: Release::Free { kind: ResourceKind::Container, addr: 0x5000 },
        bridge: None,
        complete,
    }
}

fn packet_for(stream_index: i32) -> Packet {
    let mut p = Packet::blank();
    p.meta.stream_index = stream_index;
    p
}

fn video() -> CodecParameters {
    CodecParameters {
        media_type: MediaType::Video,
        codec_id: 27,
        format: 0,
        width: 640,
        height: 360,
        sample_rate: 0,
    }
}

#[test]
fn create_maps_code_and_address() {
    assert_eq!(
        OutputContainer::create(-22, 0x5000, None, errno()),
        Err(CreateFailure { error: RsmpegError::OpenError { code: -22 }, bridge: None })
    );
    assert_eq!(
        OutputContainer::create(-22, 0, None, errno()),
        Err(CreateFailure { error: RsmpegError::OpenError { code: -22 }, bridge: None })
    );
    assert_eq!(
        OutputContainer::create(0, 0, None, errno()),
        Err(CreateFailure { error: RsmpegError::AllocationError, bridge: None })
    );
    let c = OutputContainer::create(0, 0x5000, None, errno()).unwrap();
    assert_eq!(c.as_raw(), 0x5000);
    assert_eq!(c.state(), MuxState::HeaderPending);
    assert_eq!(c.io_target(), IoTarget::File);
    assert!(c.bridge().is_none());
    assert_eq!(c.nb_streams(), 0);
    assert!(!c.is_complete());
}

#[test]
fn container_owns_its_bridge_until_it_is_released() {
    let mut c = OutputContainer::create(0, 0x5000, Some(bridge()), errno()).unwrap();
    assert_eq!(c.io_target(), IoTarget::Bridge);
    assert_eq!(c.bridge().unwrap().as_raw(), 0x9000);
    c.new_stream(0x5100).unwrap();
    c.write_header(0, String::new()).unwrap();
    c.write_trailer(0, String::new()).unwrap();
    assert_eq!(c.bridge().unwrap().buffer_size(), 4096);
    let left = c.release();
    assert_eq!(left.container, Release::Free { kind: ResourceKind::Container, addr: 0x5000 });
    assert!(left.complete);
    assert_eq!(
        left.bridge.unwrap().release(),
        Release::Free { kind: ResourceKind::IoContext, addr: 0x9000 }
    );
}

#[test]
fn failed_create_hands_the_bridge_back() {
    let failure = OutputContainer::create(-5, 0x5000, Some(bridge()), errno()).unwrap_err();
    assert_eq!(failure.error, RsmpegError::OpenError { code: -5 });
    assert_eq!(failure.bridge, Some(bridge()));
    let failure = OutputContainer::create(0, 0, Some(bridge()), errno()).unwrap_err();
    assert_eq!(failure.error, RsmpegError::AllocationError);
    assert_eq!(
        failure.bridge.unwrap().release(),
        Release::Free { kind: ResourceKind::IoContext, addr: 0x9000 }
    );
}

#[test]
fn trailer_without_header_fails() {
    let mut c = container();
    assert_eq!(c.write_trailer(0, String::new()), Err(RsmpegError::UsageError));
    assert_eq!(c.state(), MuxState::HeaderPending);
    c.new_stream(0x5100).unwrap();
    assert!(!c.admits(MuxCall::WriteTrailer));
    assert_eq!(c.write_trailer(0, String::new()), Err(RsmpegError::UsageError));
    assert_eq!(c.write_trailer(-5, String::from("x")), Err(RsmpegError::UsageError));
    assert_eq!(c.state(), MuxState::HeaderPending);
}

#[test]
fn trailer_after_failed_header_fails() {
    let mut c = container();
    c.new_stream(0x5100).unwrap();
    assert_eq!(
        c.write_header(-22, String::from("Invalid argument")),
        Err(RsmpegError::NativeError { code: -22, message: String::from("Invalid argument") })
    );
    assert_eq!(c.state(), MuxState::Failed);
    assert_eq!(c.write_trailer(0, String::new()), Err(RsmpegError::UsageError));
    assert_eq!(c.write_header(0, String::new()), Err(RsmpegError::UsageError));
    assert_eq!(c.new_stream(0x5200), Err(RsmpegError::UsageError));
    assert_eq!(c.state(), MuxState::Failed);
}

#[test]
fn header_needs_a_stream() {
    let mut c = container();
    assert!(!c.admits(MuxCall::WriteHeader));
    assert_eq!(c.write_header(0, String::new()), Err(RsmpegError::UsageError));
    assert_eq!(c.state(), MuxState::HeaderPending);
    assert_eq!(c.new_stream(0x5100), Ok(0));
    assert!(c.admits(MuxCall::WriteHeader));
    assert_eq!(c.write_header(0, String::new()), Ok(()));
    assert_eq!(c.state(), MuxState::HeaderWritten);
}

#[test]
fn header_is_written_once() {
    let mut c = container();
    c.new_stream(0x5100).unwrap();
    assert_eq!(c.write_header(0, String::new()), Ok(()));
    assert_eq!(c.write_header(0, String::new()), Err(RsmpegError::UsageError));
    assert_eq!(c.state(), MuxState::HeaderWritten);
}

#[test]
fn streams_are_numbered_in_order_and_only_before_the_header() {
    let mut c = container();
    assert_eq!(c.new_stream(0x5100), Ok(0));
    assert_eq!(c.new_stream(0), Err(RsmpegError::AllocationError));
    assert_eq!(c.nb_streams(), 1);
    assert_eq!(c.new_stream(0x5200), Ok(1));
    assert_eq!(c.stream(0).unwrap().index(), 0);
    assert_eq!(c.stream(1).unwrap().index(), 1);
    assert_eq!(c.stream(1).unwrap().as_raw(), 0x5200);
    assert_eq!(c.stream(1).unwrap().time_base(), Rational { num: 0, den: 1 });
    assert_eq!(c.stream(1).unwrap().codecpar().media_type, MediaType::Other);
    assert_eq!(c.stream(1).unwrap().codecpar().format, -1);
    assert!(c.stream(2).is_none());
    c.write_header(0, String::new()).unwrap();
    assert_eq!(c.new_stream(0x5300), Err(RsmpegError::UsageError));
    assert_eq!(c.nb_streams(), 2);
}

#[test]
fn stream_setup_only_before_the_header() {
    let mut c = container();
    c.new_stream(0x5100).unwrap();
    c.new_stream(0x5200).unwrap();
    assert_eq!(c.set_codecpar(1, video()), Ok(()));
    assert_eq!(c.set_time_base(1, Rational { num: 1, den: 25 }), Ok(()));
    assert_eq!(c.stream(1).unwrap().codecpar(), video());
    assert_eq!(c.stream(1).unwrap().time_base(), Rational { num: 1, den: 25 });
    assert_eq!(c.stream(1).unwrap().index(), 1);
    assert_eq!(c.stream(0).unwrap().codecpar().media_type, MediaType::Other);
    assert_eq!(c.set_codecpar(2, video()), Err(RsmpegError::UsageError));
    assert_eq!(c.set_time_base(2, Rational { num: 1, den: 25 }), Err(RsmpegError::UsageError));
    c.write_header(0, String::new()).unwrap();
    assert_eq!(c.set_codecpar(0, video()), Err(RsmpegError::UsageError));
    assert_eq!(c.set_time_base(0, Rational { num: 1, den: 30 }), Err(RsmpegError::UsageError));
    assert_eq!(c.stream(0).unwrap().codecpar().media_type, MediaType::Other);
}

#[test]
fn packets_only_between_header_and_trailer() {
    let mut c = container();
    c.new_stream(0x5100).unwrap();
    let p = packet_for(0);
    assert_eq!(c.interleaved_write_frame(&p, 0, String::new()), Err(RsmpegError::UsageError));
    c.write_header(0, String::new()).unwrap();
    assert_eq!(c.interleaved_write_frame(&p, 0, String::new()), Ok(WriteStatus::Written));
    assert_eq!(c.state(), MuxState::HeaderWritten);
    c.write_trailer(0, String::new()).unwrap();
    assert_eq!(c.interleaved_write_frame(&p, 0, String::new()), Err(RsmpegError::UsageError));
}

#[test]
fn packet_must_name_a_stream_of_the_container() {
    let mut c = container();
    c.new_stream(0x5100).unwrap();
    c.write_header(0, String::new()).unwrap();
    assert_eq!(
        c.interleaved_write_frame(&packet_for(1), 0, String::new()),
        Err(RsmpegError::UsageError)
    );
    assert_eq!(
        c.interleaved_write_frame(&packet_for(-1), 0, String::new()),
        Err(RsmpegError::UsageError)
    );
    assert!(c.admits(MuxCall::WritePacket { stream_index: 0 }));
    assert!(!c.admits(MuxCall::WritePacket { stream_index: 1 }));
}

#[test]
fn refused_time_ordering_is_not_an_error() {
    let mut c = container();
    c.new_stream(0x5100).unwrap();
    c.write_header(0, String::new()).unwrap();
    assert_eq!(
        c.interleaved_write_frame(&packet_for(0), -22, String::from("Invalid argument")),
        Ok(WriteStatus::TimeOrderRejected)
    );
    assert_eq!(c.state(), MuxState::HeaderWritten);
    assert_eq!(
        c.interleaved_write_frame(&packet_for(0), 0, String::new()),
        Ok(WriteStatus::Written)
    );
    assert_eq!(c.write_trailer(0, String::new()), Ok(()));
}

#[test]
fn failed_packet_write_is_fatal() {
    let mut c = container();
    c.new_stream(0x5100).unwrap();
    c.write_header(0, String::new()).unwrap();
    assert_eq!(
        c.interleaved_write_frame(&packet_for(0), -5, String::from("Input/output error")),
        Err(RsmpegError::NativeError { code: -5, message: String::from("Input/output error") })
    );
    assert_eq!(c.state(), MuxState::Failed);
    assert_eq!(
        c.interleaved_write_frame(&packet_for(0), 0, String::new()),
        Err(RsmpegError::UsageError)
    );
    assert_eq!(c.write_trailer(0, String::new()), Err(RsmpegError::UsageError));
    assert!(!c.is_complete());
}

#[test]
fn refused_packet_write_changes_nothing() {
    let mut c = container();
    c.new_stream(0x5100).unwrap();
    c.write_header(0, String::new()).unwrap();
    assert_eq!(
        c.interleaved_write_frame(&packet_for(3), -5, String::from("Input/output error")),
        Err(RsmpegError::UsageError)
    );
    assert_eq!(c.state(), MuxState::HeaderWritten);
}

#[test]
fn trailer_is_written_once() {
    let mut c = container();
    c.new_stream(0x5100).unwrap();
    c.write_header(0, String::new()).unwrap();
    assert!(c.admits(MuxCall::WriteTrailer));
    assert_eq!(c.write_trailer(0, String::new()), Ok(()));
    assert_eq!(c.state(), MuxState::TrailerWritten);
    assert!(c.is_complete());
    assert_eq!(c.write_trailer(0, String::new()), Err(RsmpegError::UsageError));
    assert_eq!(c.state(), MuxState::TrailerWritten);
}

#[test]
fn failed_trailer_leaves_the_file_incomplete() {
    let mut c = container();
    c.new_stream(0x5100).unwrap();
    c.write_header(0, String::new()).unwrap();
    assert_eq!(
        c.write_trailer(-28, String::from("No space left on device")),
        Err(RsmpegError::NativeError {
            code: -28,
            message: String::from("No space left on device")
        })
    );
    assert_eq!(c.state(), MuxState::Failed);
    assert!(!c.is_complete());
    assert_eq!(c.write_trailer(0, String::new()), Err(RsmpegError::UsageError));
    assert_eq!(c.release(), closed(false));
}

#[test]
fn release_says_whether_the_file_is_complete() {
    let mut c = container();
    c.new_stream(0x5100).unwrap();
    c.write_header(0, String::new()).unwrap();
    c.write_trailer(0, String::new()).unwrap();
    assert_eq!(c.release(), closed(true));
    assert_eq!(container().release(), closed(false));
}

#[test]
fn written_packet_keeps_its_data() {
    let mut pool = BufferPool::new();
    let mut c = container();
    c.new_stream(0x5100).unwrap();
    c.write_header(0, String::new()).unwrap();
    let meta = PacketMeta { pts: 40, dts: 40, duration: 40, stream_index: 0, flags: 1 };
    let p = packet_with(&mut pool, vec![1, 2, 3], meta);
    assert_eq!(c.interleaved_write_frame(&p, 0, String::new()), Ok(WriteStatus::Written));
    assert_eq!(p.payload.data(&pool), Some(&vec![1, 2, 3]));
    assert_eq!(p.meta, meta);
}
