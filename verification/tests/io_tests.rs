use rs_ffmpeg::error::{ErrnoCodes, RsmpegError, AVERROR_EOF};
use rs_ffmpeg::handle::{Release, ResourceKind};
use rs_ffmpeg::io::{
    decode_whence, read_reply, seek_reply, write_reply, HostOutcome, IoBridge, Whence,
    AVSEEK_FORCE, AVSEEK_SIZE,
};
use rs_ffmpeg::sink::MemorySink;

fn errno() -> ErrnoCodes {
    ErrnoCodes::new(11, 22, 5)
}

#[test]
fn whence_numbers_are_the_c_library_ones() {
    assert_eq!(decode_whence(libc::SEEK_SET), Some(Whence::Start));
    assert_eq!(decode_whence(libc::SEEK_CUR), Some(Whence::Current));
    assert_eq!(decode_whence(libc::SEEK_END), Some(Whence::End));
    assert_eq!(decode_whence(0), Some(Whence::Start));
    assert_eq!(decode_whence(1), Some(Whence::Current));
    assert_eq!(decode_whence(2), Some(Whence::End));
}

#[test]
fn whence_size_and_force() {
    assert_eq!(AVSEEK_SIZE, 0x10000);
    assert_eq!(AVSEEK_FORCE, 0x20000);
    assert_eq!(decode_whence(AVSEEK_SIZE), Some(Whence::Size));
    assert_eq!(decode_whence(AVSEEK_SIZE | AVSEEK_FORCE), Some(Whence::Size));
    assert_eq!(decode_whence(AVSEEK_FORCE), Some(Whence::Start));
    assert_eq!(decode_whence(1 | AVSEEK_FORCE), Some(Whence::Current));
    assert_eq!(decode_whence(2 | AVSEEK_FORCE), Some(Whence::End));
}

#[test]
fn whence_without_meaning() {
    assert_eq!(decode_whence(3), None);
    assert_eq!(decode_whence(-1), None);
    assert_eq!(decode_whence(AVSEEK_SIZE | 1), None);
    assert_eq!(decode_whence(i32::MIN), None);
}

#[test]
fn write_reply_passes_plausible_counts_only() {
    let e = errno();
    assert_eq!(write_reply(HostOutcome::Done(0), 4096, &e), 0);
    assert_eq!(write_reply(HostOutcome::Done(4096), 4096, &e), 4096);
    assert_eq!(write_reply(HostOutcome::Done(4097), 4096, &e), -5);
    assert_eq!(write_reply(HostOutcome::Done(-1), 4096, &e), -5);
    assert_eq!(write_reply(HostOutcome::Done(i64::MAX), i32::MAX, &e), -5);
    assert_eq!(write_reply(HostOutcome::Done(1), -1, &e), -5);
}

#[test]
fn host_failure_never_crosses_as_success() {
    let e = errno();
    for outcome in [HostOutcome::Failed, HostOutcome::Panicked] {
        assert_eq!(write_reply(outcome, 4096, &e), -5);
        assert_eq!(read_reply(outcome, 4096, &e), -5);
        assert_eq!(seek_reply(outcome, &e), -5);
    }
    let zero = ErrnoCodes::new(11, 22, 0);
    assert_eq!(write_reply(HostOutcome::Panicked, 1, &zero), -1);
    assert_eq!(seek_reply(HostOutcome::Failed, &zero), -1);
}

#[test]
fn read_reply_turns_nothing_read_into_end_of_stream() {
    let e = errno();
    assert_eq!(read_reply(HostOutcome::Done(0), 4096, &e), AVERROR_EOF);
    assert_eq!(read_reply(HostOutcome::Done(0), 0, &e), 0);
    assert_eq!(read_reply(HostOutcome::Done(1), 4096, &e), 1);
    assert_eq!(read_reply(HostOutcome::Done(4096), 4096, &e), 4096);
    assert_eq!(read_reply(HostOutcome::Done(4097), 4096, &e), -5);
    assert_eq!(read_reply(HostOutcome::Done(-3), 4096, &e), -5);
}

#[test]
fn seek_reply_passes_offsets_only() {
    let e = errno();
    assert_eq!(seek_reply(HostOutcome::Done(0), &e), 0);
    assert_eq!(seek_reply(HostOutcome::Done(i64::MAX), &e), i64::MAX);
    assert_eq!(seek_reply(HostOutcome::Done(-1), &e), -5);
}

#[test]
fn bridge_needs_a_buffer_that_the_native_library_can_count() {
    assert_eq!(IoBridge::new(0x9000, 0, true, errno()), Err(RsmpegError::UsageError));
    assert_eq!(IoBridge::new(0, 0, true, errno()), Err(RsmpegError::UsageError));
    if usize::MAX > i32::MAX as usize {
        assert_eq!(
            IoBridge::new(0x9000, i32::MAX as usize + 1, false, errno()),
            Err(RsmpegError::UsageError)
        );
    }
    assert!(IoBridge::new(0x9000, i32::MAX as usize, false, errno()).is_ok());
    assert_eq!(IoBridge::new(0, 4096, true, errno()), Err(RsmpegError::AllocationError));
    let b = IoBridge::new(0x9000, 4096, true, errno()).unwrap();
    assert_eq!(b.as_raw(), 0x9000);
    assert_eq!(b.buffer_size(), 4096);
    assert!(b.has_read());
    assert_eq!(b.release(), Release::Free { kind: ResourceKind::IoContext, addr: 0x9000 });
}

#[test]
fn bridge_answers_for_a_missing_read_callback() {
    let write_only = IoBridge::new(0x9000, 4096, false, errno()).unwrap();
    assert!(!write_only.has_read());
    assert_eq!(write_only.on_write(HostOutcome::Done(10), 10), 10);
    assert_eq!(write_only.on_seek(HostOutcome::Done(10)), 10);
    assert_eq!(write_only.on_read(HostOutcome::Done(10), 10), -5);
    let b = IoBridge::new(0x9000, 4096, true, errno()).unwrap();
    assert_eq!(b.on_read(HostOutcome::Done(0), 10), AVERROR_EOF);
    assert_eq!(b.on_read(HostOutcome::Done(3), 10), 3);
    assert_eq!(b.on_seek(HostOutcome::Done(77)), 77);
    assert_eq!(b.on_seek(HostOutcome::Panicked), -5);
    assert_eq!(b.on_write(HostOutcome::Failed, 10), -5);
    assert_eq!(b.on_write(HostOutcome::Done(11), 10), -5);
}

#[test]
fn sink_starts_empty() {
    let s = MemorySink::new();
    assert_eq!(s.contents(), &Vec::<u8>::new());
    assert_eq!(s.position(), 0);
}

#[test]
fn sink_holds_the_written_bytes_in_call_order() {
    let mut s = MemorySink::new();
    let chunks: [&[u8]; 4] = [b"ftyp", b"", b"moov-box", b"mdat"];
    let mut expected = Vec::new();
    for c in chunks {
        assert_eq!(s.write(c), HostOutcome::Done(c.len() as i64));
        expected.extend_from_slice(c);
    }
    assert_eq!(s.contents(), &expected);
    assert_eq!(s.position(), expected.len());
}

#[test]
fn sink_overwrites_after_a_seek_back() {
    let mut s = MemorySink::new();
    s.write(&[0, 0, 0, 0, 1, 2, 3, 4]);
    assert_eq!(s.seek(0, libc::SEEK_SET), HostOutcome::Done(0));
    assert_eq!(s.write(&[9, 9]), HostOutcome::Done(2));
    assert_eq!(s.contents(), &vec![9, 9, 0, 0, 1, 2, 3, 4]);
    assert_eq!(s.position(), 2);
    assert_eq!(s.seek(-1, libc::SEEK_END), HostOutcome::Done(7));
    assert_eq!(s.write(&[5, 6, 7]), HostOutcome::Done(3));
    assert_eq!(s.contents(), &vec![9, 9, 0, 0, 1, 2, 3, 5, 6, 7]);
    assert_eq!(s.position(), 10);
}

#[test]
fn sink_fills_a_gap_with_zeros() {
    let mut s = MemorySink::new();
    s.write(&[1]);
    assert_eq!(s.seek(3, libc::SEEK_CUR), HostOutcome::Done(4));
    assert_eq!(s.contents(), &vec![1]);
    assert_eq!(s.write(&[2]), HostOutcome::Done(1));
    assert_eq!(s.contents(), &vec![1, 0, 0, 0, 2]);
}

#[test]
fn sink_reports_its_size_without_moving() {
    let mut s = MemorySink::new();
    s.write(&[1, 2, 3]);
    s.seek(1, 0);
    assert_eq!(s.seek(0, AVSEEK_SIZE), HostOutcome::Done(3));
    assert_eq!(s.seek(-100, AVSEEK_SIZE | AVSEEK_FORCE), HostOutcome::Done(3));
    assert_eq!(s.position(), 1);
}

#[test]
fn sink_refuses_impossible_seeks() {
    let mut s = MemorySink::new();
    s.write(&[1, 2, 3]);
    assert_eq!(s.seek(-1, libc::SEEK_SET), HostOutcome::Failed);
    assert_eq!(s.seek(-4, libc::SEEK_CUR), HostOutcome::Failed);
    assert_eq!(s.seek(-4, libc::SEEK_END), HostOutcome::Failed);
    assert_eq!(s.seek(i64::MAX, libc::SEEK_CUR), HostOutcome::Failed);
    assert_eq!(s.seek(0, 3), HostOutcome::Failed);
    assert_eq!(s.position(), 3);
    assert_eq!(s.contents(), &vec![1, 2, 3]);
    assert_eq!(s.seek(-3, libc::SEEK_CUR), HostOutcome::Done(0));
    assert_eq!(s.seek(0, libc::SEEK_END), HostOutcome::Done(3));
}

#[test]
fn sink_behind_a_bridge_gives_native_answers() {
    let bridge = IoBridge::new(0x9000, 8, false, errno()).unwrap();
    let mut sink = MemorySink::new();
    assert_eq!(sink.serve_write(&bridge, b"abcdefgh"), 8);
    assert_eq!(sink.serve_write(&bridge, b"ij"), 2);
    assert_eq!(sink.serve_write(&bridge, b""), 0);
    assert_eq!(sink.serve_seek(&bridge, 4, libc::SEEK_SET), 4);
    assert_eq!(sink.serve_seek(&bridge, -1, libc::SEEK_SET), -5);
    assert_eq!(sink.serve_seek(&bridge, 0, 7), -5);
    assert_eq!(sink.position(), 4);
    assert_eq!(sink.serve_write(&bridge, b"XY"), 2);
    assert_eq!(sink.serve_seek(&bridge, 0, AVSEEK_SIZE), 10);
    assert_eq!(sink.serve_seek(&bridge, 0, libc::SEEK_CUR), 6);
    assert_eq!(sink.contents(), &b"abcdXYghij".to_vec());
}

#[test]
fn bytes_served_through_the_bridge_arrive_in_call_order() {
    let bridge = IoBridge::new(0x9000, 4096, false, errno()).unwrap();
    let mut sink = MemorySink::new();
    let mut expected = Vec::new();
    for n in 0..50u8 {
        let chunk: Vec<u8> = (0..n).map(|i| i.wrapping_mul(n)).collect();
        assert_eq!(sink.serve_write(&bridge, &chunk), n as i32);
        expected.extend_from_slice(&chunk);
    }
    assert_eq!(sink.contents(), &expected);
    assert_eq!(sink.position(), expected.len());
}
