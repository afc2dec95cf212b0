use dsh_desktop::logbuf::{format_clock, timestamp, LogBuffer};

fn is_clock(t: &str) -> bool {
    let b = t.as_bytes();
    b.len() == 12
        && b[2] == b':'
        && b[5] == b':'
        && b[8] == b'.'
        && [0, 1, 3, 4, 6, 7, 9, 10, 11].iter().all(|&i| b[i].is_ascii_digit())
}

#[test]
fn clock_formatting() {
    assert_eq!(format_clock(3661, 5), "01:01:01.005");
    assert_eq!(format_clock(86399, 999), "23:59:59.999");
    assert_eq!(format_clock(86400 * 3 + 7200, 0), "02:00:00.000");
    assert_eq!(format_clock(0, 42), "00:00:00.042");
}

#[test]
fn timestamp_has_clock_shape() {
    assert!(is_clock(&timestamp()));
}

#[test]
fn buffer_keeps_most_recent_lines() {
    let mut b = LogBuffer::new(3);
    for i in 0..5 {
        b.push(format!("line {}", i));
    }
    assert_eq!(b.len(), 3);
    assert_eq!(b.capacity(), 3);
    assert_eq!(b.tail(10), vec!["line 2", "line 3", "line 4"]);
    assert_eq!(b.tail(1), vec!["line 4"]);
    assert_eq!(b.tail(2), vec!["line 3", "line 4"]);
    assert!(b.tail(0).is_empty());
}

#[test]
fn zero_capacity_keeps_nothing() {
    let mut b = LogBuffer::new(0);
    b.push("a".to_string());
    assert_eq!(b.len(), 0);
}

#[test]
fn log_stamps_lines() {
    let mut b = LogBuffer::new(100);
    b.log("[app] hello");
    let l = &b.tail(1)[0];
    assert!(is_clock(&l[..12]));
    assert_eq!(&l[12..], " [app] hello");
}
