use keyhunter::range::{divide, KeyRange};

#[test]
fn new_accepts_ordered_bounds() {
    let r = KeyRange::new(3, 7).unwrap();
    assert_eq!(r.start, 3);
    assert_eq!(r.end, 7);
    assert!(KeyRange::new(8, 7).is_none());
}

#[test]
fn divide_twenty_keys_into_four_chunks() {
    let r = KeyRange::new(0x1, 0x14).unwrap();
    let chunks = divide(&r, 4);
    assert_eq!(chunks.len(), 4);
    let starts: Vec<u128> = chunks.iter().map(|c| c.start).collect();
    let lens: Vec<u128> = chunks.iter().map(|c| c.len).collect();
    assert_eq!(starts, vec![1, 6, 11, 16]);
    assert_eq!(lens, vec![5, 5, 5, 5]);
}

#[test]
fn divide_remainder_goes_to_final_chunk() {
    let r = KeyRange::new(0, 9).unwrap();
    let chunks = divide(&r, 3);
    assert_eq!(chunks.len(), 3);
    assert_eq!((chunks[0].start, chunks[0].len), (0, 3));
    assert_eq!((chunks[1].start, chunks[1].len), (3, 3));
    assert_eq!((chunks[2].start, chunks[2].len), (6, 4));
}

#[test]
fn divide_more_workers_than_keys_leaves_degenerate_chunks() {
    let r = KeyRange::new(10, 12).unwrap();
    let chunks = divide(&r, 5);
    assert_eq!(chunks.len(), 5);
    for c in chunks.iter().take(4) {
        assert_eq!(c.len, 0);
    }
    assert_eq!((chunks[4].start, chunks[4].len), (10, 3));
}

#[test]
fn divide_single_worker_takes_whole_range() {
    let r = KeyRange::new(5, 5).unwrap();
    let chunks = divide(&r, 1);
    assert_eq!(chunks.len(), 1);
    assert_eq!((chunks[0].start, chunks[0].len), (5, 1));
}

#[test]
fn divide_chunks_cover_range_exactly() {
    let r = KeyRange::new(100, 1100).unwrap();
    let chunks = divide(&r, 7);
    let mut expected_next: u128 = 100;
    let mut total: u128 = 0;
    for c in chunks.iter() {
        assert_eq!(c.start, expected_next);
        expected_next = c.start + c.len;
        total += c.len;
    }
    assert_eq!(expected_next, 1101);
    assert_eq!(total, 1001);
}
