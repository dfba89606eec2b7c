use pet_bridge::correlation::CorrelationTable;
use pet_bridge::keyed::KeyedList;
use pet_bridge::queue::EventQueue;

#[test]
fn drain_delivers_items_in_enqueue_order() {
    let mut q: EventQueue<u32> = EventQueue::new();
    for i in 0..5u32 {
        q.enqueue(i * 10);
    }
    assert_eq!(q.len(), 5);
    let items = q.drain();
    assert_eq!(items, vec![0, 10, 20, 30, 40]);
    assert!(q.is_empty());
    assert_eq!(q.drain(), Vec::<u32>::new());
}

#[test]
fn items_waiting_before_come_out_first() {
    let mut q: EventQueue<String> = EventQueue::new();
    q.enqueue("a".to_string());
    q.enqueue("b".to_string());
    let first = q.drain();
    q.enqueue("c".to_string());
    assert_eq!(first, vec!["a".to_string(), "b".to_string()]);
    assert_eq!(q.drain(), vec!["c".to_string()]);
}

#[test]
fn table_keeps_one_entry_per_identifier() {
    let mut t: CorrelationTable<u32> = CorrelationTable::new();
    t.insert("r1".to_string(), 1, 100);
    t.insert("r2".to_string(), 2, 110);
    t.insert("r1".to_string(), 3, 120);
    assert_eq!(t.len(), 2);
    let e = t.get(&"r1".to_string()).unwrap();
    assert_eq!(e.payload, 3);
    assert_eq!(e.submitted_at, 120);
    assert_eq!(e.retry_count, 0);
}

#[test]
fn response_removes_entry_and_unknown_id_is_ignored() {
    let mut t: CorrelationTable<u32> = CorrelationTable::new();
    t.insert("r1".to_string(), 7, 5);
    assert!(t.contains(&"r1".to_string()));
    assert!(t.remove(&"nope".to_string()).is_none());
    assert_eq!(t.len(), 1);
    let e = t.remove(&"r1".to_string()).unwrap();
    assert_eq!(e.payload, 7);
    assert!(!t.contains(&"r1".to_string()));
    assert!(t.remove(&"r1".to_string()).is_none());
    assert_eq!(t.len(), 0);
}

#[test]
fn keyed_list_keeps_insertion_order() {
    let mut k: KeyedList<u8> = KeyedList::new();
    k.insert("b".to_string(), 1);
    k.insert("a".to_string(), 2);
    k.insert("b".to_string(), 3);
    assert_eq!(k.len(), 2);
    let (k0, v0) = k.entry_at(0);
    let (k1, v1) = k.entry_at(1);
    assert_eq!((k0.as_str(), *v0), ("b", 3));
    assert_eq!((k1.as_str(), *v1), ("a", 2));
    assert_eq!(k.remove(&"b".to_string()), Some(3));
    assert_eq!(k.entry_at(0).0.as_str(), "a");
}
