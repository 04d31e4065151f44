use battlebot::batch::Batch;

#[test]
fn batch_empty_holds_nothing() {
    let batch: Batch<u8> = Batch::empty();
    assert_eq!(batch.len(), 0);
    assert_eq!(batch.get(0), None);
    assert_eq!(batch.get(3), None);
}

#[test]
fn batch_keeps_order() {
    let batch = Batch::three(7u8, 8, 9);
    assert_eq!(batch.len(), 3);
    assert_eq!(batch.get(0), Some(7));
    assert_eq!(batch.get(1), Some(8));
    assert_eq!(batch.get(2), Some(9));
    assert_eq!(batch.get(3), None);
    assert_eq!(batch.get(usize::MAX), None);
}

#[test]
fn batch_of_one_and_two() {
    let one = Batch::one(5u8);
    assert_eq!(one.len(), 1);
    assert_eq!(one.get(0), Some(5));
    assert_eq!(one.get(1), None);
    let two = Batch::two(5u8, 6);
    assert_eq!(two.len(), 2);
    assert_eq!(two.get(0), Some(5));
    assert_eq!(two.get(1), Some(6));
    assert_eq!(two.get(2), None);
}
