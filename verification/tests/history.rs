use omniform::history::{add, clear, load, HistoryEntry};

fn entry(id: &str, t: u64) -> HistoryEntry {
    HistoryEntry {
        id: id.to_string(),
        title: format!("title {id}"),
        url: format!("https://x.test/{id}"),
        format: "mp4".to_string(),
        output_path: "/out".to_string(),
        timestamp: t,
    }
}

#[test]
fn unreadable_history_is_empty() {
    assert!(load(None).is_empty());
}

#[test]
fn stored_history_is_kept() {
    let v = vec![entry("b", 2), entry("a", 1)];
    assert_eq!(load(Some(v.clone())), v);
}

#[test]
fn newest_entry_comes_first() {
    let h = add(load(Some(vec![entry("a", 1)])), entry("b", 2));
    assert_eq!(h, vec![entry("b", 2), entry("a", 1)]);
    let h2 = add(load(None), entry("c", 3));
    assert_eq!(h2, vec![entry("c", 3)]);
}

#[test]
fn cleared_history_is_empty() {
    assert!(clear().is_empty());
    assert!(load(Some(clear())).is_empty());
}
