use opencodedeck::monitor::log_buffer::{LogBuffer, LogEntry};

fn entry(src: &str, n: i64) -> LogEntry {
    LogEntry { ts: n, source: src.to_string(), level: "info".to_string(), line: format!("line {}", n) }
}

#[test]
fn evicts_oldest_when_over_capacity() {
    let mut buf = LogBuffer::new(3);
    for i in 0..5 {
        buf.push(entry("server", i));
    }
    let recent = buf.recent("server", 10);
    assert_eq!(recent.len(), 3);
    assert_eq!(recent[0].line, "line 2");
}

#[test]
fn recent_all_merges_and_sorts() {
    let mut buf = LogBuffer::new(100);
    buf.push(entry("server", 2));
    buf.push(entry("bridge", 1));
    buf.push(entry("server", 3));
    let all = buf.recent_all(10);
    assert_eq!(all.len(), 3);
    assert_eq!(all[0].ts, 1);
    assert_eq!(all[1].ts, 2);
    assert_eq!(all[2].ts, 3);
}

#[test]
fn clear_removes_entries() {
    let mut buf = LogBuffer::new(100);
    buf.push(entry("server", 1));
    buf.clear("server");
    assert_eq!(buf.recent("server", 10).len(), 0);
}

#[test]
fn recent_returns_only_the_latest_limit() {
    let mut buf = LogBuffer::new(10);
    for i in 0..6 {
        buf.push(entry("bridge", i));
    }
    let r = buf.recent("bridge", 2);
    assert_eq!(r.iter().map(|e| e.ts).collect::<Vec<_>>(), vec![4, 5]);
    assert_eq!(buf.recent("server", 5).len(), 0);
}

#[test]
fn unknown_source_goes_to_bridge_history() {
    let mut buf = LogBuffer::new(10);
    buf.push(entry("other", 7));
    assert_eq!(buf.recent("bridge", 10).len(), 1);
    assert_eq!(buf.recent("server", 10).len(), 0);
    buf.clear("anything");
    assert_eq!(buf.recent("bridge", 10).len(), 0);
}

#[test]
fn zero_capacity_keeps_the_newest_entry() {
    let mut buf = LogBuffer::new(0);
    buf.push(entry("server", 1));
    buf.push(entry("server", 2));
    let r = buf.recent("server", 10);
    assert_eq!(r.len(), 1);
    assert_eq!(r[0].ts, 2);
}

#[test]
fn recent_all_is_stable_and_truncated() {
    let mut buf = LogBuffer::new(10);
    let mut a = entry("server", 5);
    a.line = "server five".to_string();
    let mut b = entry("bridge", 5);
    b.line = "bridge five".to_string();
    buf.push(b);
    buf.push(entry("bridge", 9));
    buf.push(a);
    buf.push(entry("server", 1));
    let all = buf.recent_all(10);
    assert_eq!(all.iter().map(|e| e.ts).collect::<Vec<_>>(), vec![1, 5, 5, 9]);
    // equal timestamps: the server history comes first
    assert_eq!(all[1].line, "server five");
    assert_eq!(all[2].line, "bridge five");
    let last_two = buf.recent_all(2);
    assert_eq!(last_two.iter().map(|e| e.ts).collect::<Vec<_>>(), vec![5, 9]);
    assert_eq!(last_two[0].line, "bridge five");
}
