use rs_ffmpeg::buffer::BufferPool;
use rs_ffmpeg::error::RsmpegError;

#[test]
fn new_pool_is_empty() {
    let pool = BufferPool::new();
    assert_eq!(pool.slot_count(), 0);
}

#[test]
fn allocate_uses_the_lowest_free_slot() {
    let mut pool = BufferPool::new();
    let a = pool.allocate(vec![1, 2, 3]);
    let b = pool.allocate(vec![4]);
    assert_eq!(a.slot_index(), 0);
    assert_eq!(b.slot_index(), 1);
    assert_eq!(pool.slot_count(), 2);
    assert_eq!(pool.unref(a), Ok(true));
    let c = pool.allocate(vec![9, 9]);
    assert_eq!(c.slot_index(), 0);
    assert_eq!(pool.slot_count(), 2);
    assert_eq!(pool.data(&c), Some(&vec![9, 9]));
    assert_eq!(pool.data(&b), Some(&vec![4]));
}

#[test]
fn share_counts_and_copies_nothing() {
    let mut pool = BufferPool::new();
    let a = pool.allocate(vec![7, 8]);
    assert_eq!(pool.ref_count(&a), 1);
    assert!(pool.is_writable(&a));
    let b = pool.share(&a).unwrap();
    assert_eq!(b.slot_index(), a.slot_index());
    assert_eq!(pool.ref_count(&a), 2);
    assert!(!pool.is_writable(&a));
    assert_eq!(pool.slot_count(), 1);
}

#[test]
fn buffer_is_freed_with_its_last_reference() {
    let mut pool = BufferPool::new();
    let a = pool.allocate(vec![1]);
    let b = pool.share(&a).unwrap();
    let c = pool.share(&a).unwrap();
    assert_eq!(pool.unref(a), Ok(false));
    assert_eq!(pool.ref_count(&b), 2);
    assert_eq!(pool.data(&b), Some(&vec![1]));
    assert_eq!(pool.unref(b), Ok(false));
    assert_eq!(pool.ref_count(&c), 1);
    let probe = pool.share(&c).unwrap();
    assert_eq!(pool.unref(c), Ok(false));
    assert_eq!(pool.unref(probe), Ok(true));
}

#[test]
fn dead_reference_is_a_usage_error() {
    let mut pool = BufferPool::new();
    let mut other = BufferPool::new();
    let a = pool.allocate(vec![1]);
    let mut stranger = other.allocate(vec![2]);
    assert_eq!(pool.unref(a), Ok(true));
    // `stranger` names slot 0, which `pool` has freed.
    assert!(!pool.is_live(&stranger));
    assert_eq!(pool.ref_count(&stranger), 0);
    assert_eq!(pool.data(&stranger), None);
    assert_eq!(pool.share(&stranger), Err(RsmpegError::UsageError));
    assert_eq!(pool.make_writable(&mut stranger), Err(RsmpegError::UsageError));
    assert_eq!(pool.write(&mut stranger, 0, &[1]), Err(RsmpegError::UsageError));
    assert_eq!(pool.unref(stranger), Err(RsmpegError::UsageError));
}

#[test]
fn write_in_place_when_sole_reference() {
    let mut pool = BufferPool::new();
    let mut a = pool.allocate(vec![0, 0, 0, 0]);
    assert_eq!(pool.write(&mut a, 1, &[5, 6]), Ok(()));
    assert_eq!(a.slot_index(), 0);
    assert_eq!(pool.slot_count(), 1);
    assert_eq!(pool.data(&a), Some(&vec![0, 5, 6, 0]));
}

#[test]
fn write_through_one_alias_is_not_seen_through_the_other() {
    let mut pool = BufferPool::new();
    let mut a = pool.allocate(vec![1, 2, 3, 4]);
    let b = pool.share(&a).unwrap();
    assert_eq!(pool.write(&mut a, 2, &[9, 9]), Ok(()));
    assert_eq!(pool.data(&a), Some(&vec![1, 2, 9, 9]));
    assert_eq!(pool.data(&b), Some(&vec![1, 2, 3, 4]));
    assert_ne!(a.slot_index(), b.slot_index());
    assert_eq!(pool.ref_count(&a), 1);
    assert_eq!(pool.ref_count(&b), 1);
    // The other alias is now alone and is written in place.
    let mut b = b;
    assert_eq!(pool.write(&mut b, 0, &[7]), Ok(()));
    assert_eq!(b.slot_index(), 0);
    assert_eq!(pool.data(&b), Some(&vec![7, 2, 3, 4]));
    assert_eq!(pool.data(&a), Some(&vec![1, 2, 9, 9]));
}

#[test]
fn write_that_does_not_fit_changes_nothing() {
    let mut pool = BufferPool::new();
    let mut a = pool.allocate(vec![1, 2, 3]);
    let b = pool.share(&a).unwrap();
    assert_eq!(pool.write(&mut a, 2, &[8, 8]), Err(RsmpegError::UsageError));
    assert_eq!(pool.write(&mut a, 4, &[]), Err(RsmpegError::UsageError));
    assert_eq!(pool.write(&mut a, usize::MAX, &[1]), Err(RsmpegError::UsageError));
    assert_eq!(a.slot_index(), b.slot_index());
    assert_eq!(pool.ref_count(&a), 2);
    assert_eq!(pool.data(&a), Some(&vec![1, 2, 3]));
}

#[test]
fn empty_write_at_the_end_fits() {
    let mut pool = BufferPool::new();
    let mut a = pool.allocate(vec![1, 2, 3]);
    assert_eq!(pool.write(&mut a, 3, &[]), Ok(()));
    assert_eq!(pool.data(&a), Some(&vec![1, 2, 3]));
}

#[test]
fn make_writable_copies_only_when_shared() {
    let mut pool = BufferPool::new();
    let mut a = pool.allocate(vec![4, 5]);
    assert_eq!(pool.make_writable(&mut a), Ok(false));
    assert_eq!(a.slot_index(), 0);
    let b = pool.share(&a).unwrap();
    let c = pool.share(&a).unwrap();
    assert_eq!(pool.make_writable(&mut a), Ok(true));
    assert_eq!(a.slot_index(), 1);
    assert_eq!(pool.data(&a), Some(&vec![4, 5]));
    assert_eq!(pool.ref_count(&a), 1);
    assert_eq!(pool.ref_count(&b), 2);
    assert_eq!(pool.ref_count(&c), 2);
    assert_eq!(pool.data(&c), Some(&vec![4, 5]));
}

#[test]
fn copy_goes_to_a_freed_slot_if_there_is_one() {
    let mut pool = BufferPool::new();
    let gone = pool.allocate(vec![0]);
    let mut a = pool.allocate(vec![1, 1]);
    let b = pool.share(&a).unwrap();
    assert_eq!(pool.unref(gone), Ok(true));
    assert_eq!(pool.write(&mut a, 0, &[2]), Ok(()));
    assert_eq!(a.slot_index(), 0);
    assert_eq!(b.slot_index(), 1);
    assert_eq!(pool.data(&a), Some(&vec![2, 1]));
    assert_eq!(pool.data(&b), Some(&vec![1, 1]));
}
