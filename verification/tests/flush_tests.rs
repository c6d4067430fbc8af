use update_agent::flush::Flush;
use update_agent::record::LogRecord;

fn rec(t: &str, m: &str) -> LogRecord {
    LogRecord { created_at: t.to_string(), message: m.to_string() }
}

#[test]
fn complete_flush_delivers_all_in_order_with_timestamps() {
    let drained = vec![rec("t1", "first"), rec("t2", "second"), rec("t3", "third")];
    let mut f = Flush::begin(drained.clone());
    let mut remote: Vec<LogRecord> = Vec::new();
    loop {
        match f.next() {
            Some(r) => {
                remote.push(r.clone());
                f.ack();
            }
            None => break,
        }
    }
    assert!(f.is_complete());
    assert_eq!(remote, drained);
}

#[test]
fn partial_flush_never_allows_clearing() {
    let drained = vec![rec("t1", "first"), rec("t2", "second"), rec("t3", "third")];
    let mut f = Flush::begin(drained);
    // The first write succeeds, the second fails: only one ack arrives.
    let first = f.next().unwrap().clone();
    assert_eq!(first, rec("t1", "first"));
    f.ack();
    assert!(!f.is_complete());
    // The unflushed tail is still pending, starting at the second record.
    assert_eq!(f.next().unwrap(), &rec("t2", "second"));
}

#[test]
fn empty_flush_is_complete_immediately() {
    let f = Flush::begin(Vec::new());
    assert!(f.is_complete());
    assert!(f.next().is_none());
}
