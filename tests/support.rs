use rupyjit::adapters::{add_longs, less_than_flag, sub_longs, truth_flag};
use rupyjit::buffer::{region_size, PAGE_SIZE};
use rupyjit::key::jit_key;

#[test]
fn add_and_sub() {
    assert_eq!(add_longs(3, 4), Some(7));
    assert_eq!(sub_longs(10, 3), Some(7));
    assert_eq!(sub_longs(3, 10), Some(-7));
    assert_eq!(add_longs(i64::MAX, 1), None);
    assert_eq!(sub_longs(i64::MIN, 1), None);
    assert_eq!(add_longs(i64::MIN, i64::MAX), Some(-1));
}

#[test]
fn comparison_and_truth() {
    assert_eq!(less_than_flag(1, 2), 1);
    assert_eq!(less_than_flag(2, 2), 0);
    assert_eq!(less_than_flag(i64::MAX, i64::MIN), 0);
    assert_eq!(truth_flag(1), 1);
    assert_eq!(truth_flag(0), 0);
    assert_eq!(truth_flag(-1), 0);
}

#[test]
fn region_sizes() {
    assert_eq!(PAGE_SIZE, 4096);
    assert_eq!(region_size(0), 4096);
    assert_eq!(region_size(1), 4096);
    assert_eq!(region_size(101), 4096);
    assert_eq!(region_size(4096), 4096);
    assert_eq!(region_size(4097), 8192);
}

#[test]
fn cache_key() {
    assert_eq!(jit_key("f", &vec![]), "f");
    assert_eq!(
        jit_key("add", &vec!["int".to_string(), "float".to_string()]),
        "add_int_float"
    );
}
