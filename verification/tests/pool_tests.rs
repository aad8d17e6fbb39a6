use rust_optimizer::pool::partition_batches;

#[test]
fn batches_are_fixed_size_in_order() {
    let items: Vec<u32> = (0..300).collect();
    let out = partition_batches(items, 128);
    assert_eq!(out.len(), 3);
    assert_eq!(out[0].len(), 128);
    assert_eq!(out[1].len(), 128);
    assert_eq!(out[2].len(), 44);
    let flat: Vec<u32> = out.into_iter().flatten().collect();
    assert_eq!(flat, (0..300).collect::<Vec<u32>>());
}

#[test]
fn batches_of_exact_multiple() {
    let items: Vec<u32> = (0..256).collect();
    let out = partition_batches(items, 128);
    assert_eq!(out.len(), 2);
    assert_eq!(out[0].len(), 128);
    assert_eq!(out[1].len(), 128);
}

#[test]
fn batches_of_empty_work_list() {
    let items: Vec<u32> = Vec::new();
    let out = partition_batches(items, 128);
    assert!(out.is_empty());
}

#[test]
fn batch_of_one_item() {
    let out = partition_batches(vec![7u32], 128);
    assert_eq!(out.len(), 1);
    assert_eq!(out[0], vec![7]);
}
