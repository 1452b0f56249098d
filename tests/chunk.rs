use bytes::Bytes;
use std::io::IoSlice;

use openssh::{take_bytes, take_io_slices, take_slices};

#[test]
fn test_take_io_slices() {
    let limit = 200;

    let content = b"HELLO, WORLD!\n".repeat(limit / 8);
    let len = content.len();

    assert!(len / 2 < limit);

    let io_slices = [
        IoSlice::new(&content[..len / 2]),
        IoSlice::new(&content[len / 2..]),
    ];

    let (n, io_subslices, reminder) = take_io_slices(&io_slices, limit).unwrap();

    assert_eq!(n, limit);
    assert_eq!(io_subslices.len(), 1);
    assert_eq!(&*io_subslices[0], &*io_slices[0]);
    assert_eq!(&*reminder[0], &io_slices[1][..(limit - len / 2)]);
}

#[test]
fn chunk_three_buffers_of_fifty() {
    let bufs = vec![vec![1u8; 50], vec![2u8; 50], vec![3u8; 50]];
    let (n, prefix, rem) = take_slices(&bufs, 80).unwrap();
    assert_eq!(n, 80);
    assert_eq!(prefix.len(), 1);
    assert_eq!(prefix[0], vec![1u8; 50]);
    assert_eq!(rem[0], vec![2u8; 30]);
}

#[test]
fn chunk_empty_list_gives_nothing() {
    let bufs: Vec<Vec<u8>> = vec![];
    assert!(take_slices(&bufs, 0).is_none());
    assert!(take_slices(&bufs, 100).is_none());
    assert!(take_slices(&bufs, usize::MAX).is_none());
    let empty = vec![vec![], vec![]];
    assert!(take_slices(&empty, 10).is_none());
}

#[test]
fn chunk_single_buffer_under_and_over() {
    let bufs = vec![vec![7u8; 10]];
    let (n, prefix, rem) = take_slices(&bufs, 20).unwrap();
    assert_eq!((n, prefix.len(), rem[0].len()), (10, 1, 0));
    let (n, prefix, rem) = take_slices(&bufs, 4).unwrap();
    assert_eq!((n, prefix.len()), (4, 0));
    assert_eq!(rem[0], vec![7u8; 4]);
}

#[test]
fn chunk_limit_on_boundary() {
    let bufs = vec![vec![1u8; 30], vec![2u8; 20], vec![3u8; 40]];
    let (n, prefix, rem) = take_slices(&bufs, 50).unwrap();
    assert_eq!(n, 50);
    assert_eq!(prefix.len(), 2);
    assert!(rem[0].is_empty());
    let (n, prefix, rem) = take_slices(&bufs, 90).unwrap();
    assert_eq!((n, prefix.len(), rem[0].len()), (90, 3, 0));
}

#[test]
fn chunk_limit_zero_takes_nothing() {
    let bufs = vec![vec![1u8; 5]];
    let (n, prefix, rem) = take_slices(&bufs, 0).unwrap();
    assert_eq!((n, prefix.len(), rem[0].len()), (0, 0, 0));
}

#[test]
fn chunk_reproduces_leading_bytes() {
    let bufs: Vec<Vec<u8>> = vec![(0u8..7).collect(), vec![], (7u8..20).collect(), (20u8..25).collect()];
    let all: Vec<u8> = bufs.concat();
    for limit in 1..30usize {
        let (n, prefix, rem) = take_slices(&bufs, limit).unwrap();
        assert_eq!(n, limit.min(all.len()));
        let mut got: Vec<u8> = prefix.concat();
        got.extend_from_slice(&rem[0]);
        assert_eq!(got, all[..n].to_vec());
    }
}

#[test]
fn chunk_bytes_trims_remainder() {
    let bufs = vec![Bytes::from_static(b"hello "), Bytes::from_static(b"world")];
    let (n, prefix, rem) = take_bytes(&bufs, 8).unwrap();
    assert_eq!(n, 8);
    assert_eq!(prefix.len(), 1);
    assert_eq!(&prefix[0][..], b"hello ");
    assert_eq!(&rem[0][..], b"wo");
    let (n, prefix, rem) = take_bytes(&bufs, 100).unwrap();
    assert_eq!((n, prefix.len(), rem[0].len()), (11, 2, 0));
    assert!(take_bytes(&[], 5).is_none());
}

#[test]
fn chunk_vec_buffers_same_split() {
    let limit = 200;
    let content = b"HELLO, WORLD!\n".repeat(limit / 8);
    let len = content.len();
    let bufs = [content[..len / 2].to_vec(), content[len / 2..].to_vec()];
    let (n, prefix, rem) = take_slices(&bufs, limit).unwrap();
    assert_eq!(n, limit);
    assert_eq!(prefix.len(), 1);
    assert_eq!(rem[0], bufs[1][..(limit - len / 2)].to_vec());
}
