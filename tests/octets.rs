use milk_and_cookies::{add_overflow, sub_overflow, task1, task1_v6, task2, task2_v6, xor, Task1, Task2, Task3};

#[test]
fn test_add() {
    assert_eq!(add_overflow(1, 1), 2);
    assert_eq!(add_overflow(255, 1), 0);
    assert_eq!(add_overflow(255, 2), 1);
}

#[test]
fn sub_wraps_below_zero() {
    assert_eq!(sub_overflow(5, 3), 2);
    assert_eq!(sub_overflow(0, 1), 255);
    assert_eq!(sub_overflow(1, 255), 2);
}

#[test]
fn destination_adds_octets() {
    let q = Task1 { from: [10, 0, 0, 0], key: [1, 128, 0, 255] };
    assert_eq!(task1(&q), [11, 128, 0, 255]);
    let q = Task1 { from: [128, 128, 128, 128], key: [255, 255, 255, 255] };
    assert_eq!(task1(&q), [127, 127, 127, 127]);
}

#[test]
fn key_subtracts_octets() {
    let q = Task2 { from: [10, 0, 0, 0], to: [11, 2, 3, 255] };
    assert_eq!(task2(&q), [1, 2, 3, 255]);
    let q = Task2 { from: [128, 128, 128, 128], to: [127, 127, 127, 127] };
    assert_eq!(task2(&q), [255, 255, 255, 255]);
}

#[test]
fn v6_xor_segments() {
    let from = [0xfe80, 0, 0, 0, 0, 0, 0, 1];
    let key = [0xffff, 0xffff, 0, 0, 0, 0, 0, 1];
    assert_eq!(xor(from, key), [0x017f, 0xffff, 0, 0, 0, 0, 0, 0]);
    let q = Task3 { from, to: None, key: Some(key) };
    assert_eq!(task1_v6(&q), Some([0x017f, 0xffff, 0, 0, 0, 0, 0, 0]));
    assert_eq!(task2_v6(&q), None);
    let q = Task3 { from, to: Some([0xfe80, 0, 0, 0, 0, 0, 0, 0]), key: None };
    assert_eq!(task2_v6(&q), Some([0, 0, 0, 0, 0, 0, 0, 1]));
    assert_eq!(task1_v6(&q), None);
}
