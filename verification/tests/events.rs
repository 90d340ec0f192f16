use dashboard::events::{Category, EventQueue, EventRecord};

fn queue_of(names: &[&str]) -> EventQueue {
    EventQueue::new(
        names
            .iter()
            .map(|name| EventRecord::new(name, Category::Type1))
            .collect(),
    )
}

fn messages(queue: &EventQueue) -> Vec<String> {
    (0..queue.len())
        .map(|i| queue.get(i).message.clone())
        .collect()
}

#[test]
fn record_keeps_message_and_category() {
    let record = EventRecord::new("Message3", Category::Type2);
    assert_eq!(record.message, "Message3");
    assert_eq!(record.category, Category::Type2);
    assert_eq!(record.clone(), record);
}

#[test]
fn one_rotation_moves_the_front_to_the_back() {
    let mut queue = queue_of(&["A", "B", "C"]);
    queue.rotate();
    assert_eq!(messages(&queue), vec!["B", "C", "A"]);
}

#[test]
fn as_many_rotations_as_records_restore_the_order() {
    let names = ["A", "B", "C", "D", "E"];
    let mut queue = queue_of(&names);
    for _ in 0..names.len() {
        queue.rotate();
    }
    assert_eq!(messages(&queue), names.to_vec());
}

#[test]
fn rotation_keeps_every_record() {
    let mut queue = queue_of(&["A", "B", "A", "C"]);
    for _ in 0..3 {
        queue.rotate();
    }
    let mut seen = messages(&queue);
    seen.sort();
    assert_eq!(seen, vec!["A", "A", "B", "C"]);
    assert_eq!(messages(&queue), vec!["C", "A", "B", "A"]);
}

#[test]
fn rotating_an_empty_queue_is_harmless() {
    let mut queue = queue_of(&[]);
    queue.rotate();
    assert_eq!(queue.len(), 0);
}

#[test]
fn rotating_a_single_record_keeps_it() {
    let mut queue = queue_of(&["A"]);
    queue.rotate();
    assert_eq!(messages(&queue), vec!["A"]);
}
