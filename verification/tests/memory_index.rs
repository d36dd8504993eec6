use loom::ids::MemoryId;
use loom::memory::MemoryType;
use loom::memory_index::{add_needs_room, MemoryIndex};

fn tags(t: &[&str]) -> Vec<String> {
    t.iter().map(|s| s.to_string()).collect()
}

#[test]
fn room_is_needed_only_for_a_new_item_in_a_full_store() {
    assert!(add_needs_room(false, 10, 10));
    assert!(add_needs_room(false, 11, 10));
    assert!(!add_needs_room(true, 10, 10));
    assert!(!add_needs_room(false, 9, 10));
}

#[test]
fn reindex_moves_kind_and_tags() {
    let mut index = MemoryIndex::new();
    let a = MemoryId(1);
    let b = MemoryId(2);
    index.reindex(a, None, MemoryType::ShortTerm, &tags(&["error", "unresolved"]));
    index.reindex(b, None, MemoryType::ShortTerm, &tags(&["error"]));
    assert_eq!(index.typed_ids(MemoryType::ShortTerm).len(), 2);
    assert_eq!(index.tagged_ids("unresolved"), vec![a]);

    index.reindex(a, Some((MemoryType::ShortTerm, tags(&["error", "unresolved"]))), MemoryType::LongTerm, &tags(&["error", "resolved"]));
    assert_eq!(index.typed_ids(MemoryType::ShortTerm), vec![b]);
    assert_eq!(index.typed_ids(MemoryType::LongTerm), vec![a]);
    assert!(index.tagged_ids("unresolved").is_empty());
    assert_eq!(index.tagged_ids("resolved"), vec![a]);
    let mut err = index.tagged_ids("error");
    err.sort_by_key(|m| m.0);
    assert_eq!(err, vec![a, b]);
}

#[test]
fn updating_twice_lists_an_item_once() {
    let mut index = MemoryIndex::new();
    let a = MemoryId(7);
    index.reindex(a, None, MemoryType::Working, &tags(&["x"]));
    index.reindex(a, Some((MemoryType::Working, tags(&["x"]))), MemoryType::Working, &tags(&["x"]));
    assert_eq!(index.typed_ids(MemoryType::Working), vec![a]);
    assert_eq!(index.tagged_ids("x"), vec![a]);
}

#[test]
fn forget_removes_kind_and_tags() {
    let mut index = MemoryIndex::new();
    let a = MemoryId(3);
    index.reindex(a, None, MemoryType::Episodic, &tags(&["t1", "t2"]));
    index.forget(a, MemoryType::Episodic, &tags(&["t1", "t2"]));
    assert!(index.typed_ids(MemoryType::Episodic).is_empty());
    assert!(index.tagged_ids("t1").is_empty());
    assert!(index.tagged_ids("t2").is_empty());
}
