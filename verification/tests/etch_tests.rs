use arcade::etch::{SegmentLog, MAX_SEGMENTS, TRIM_COUNT};

#[test]
fn log_keeps_strokes_in_order() {
    let mut l: SegmentLog<u32> = SegmentLog::new();
    for i in 0..5 {
        l.push(i);
    }
    assert_eq!(l.len(), 5);
    assert_eq!(*l.get(0), 0);
    assert_eq!(*l.get(4), 4);
    l.clear();
    assert_eq!(l.len(), 0);
}

#[test]
fn full_log_drops_oldest_thousand() {
    let mut l: SegmentLog<usize> = SegmentLog::new();
    for i in 0..MAX_SEGMENTS {
        l.push(i);
    }
    assert_eq!(l.len(), MAX_SEGMENTS);
    l.push(MAX_SEGMENTS);
    assert_eq!(l.len(), MAX_SEGMENTS - TRIM_COUNT + 1);
    assert_eq!(*l.get(0), TRIM_COUNT);
    assert_eq!(*l.get(l.len() - 1), MAX_SEGMENTS);
    for i in 0..20_000 {
        l.push(i);
        assert!(l.len() <= MAX_SEGMENTS);
    }
}
