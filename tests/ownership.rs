use rust_snippets::ownership::{allocate_vec_heap_memory, read_vec_heap_memory, sample_2, BUFFER_LEN};

#[test]
fn test_dynamic_memory() {
    assert!(read_vec_heap_memory());
}

#[test]
fn allocated_buffer_is_zeroed_and_keeps_its_address() {
    let (v, addr) = allocate_vec_heap_memory();
    assert_eq!(v.len(), BUFFER_LEN);
    assert_eq!(BUFFER_LEN, 1024 * 1024);
    assert!(v.iter().all(|b| *b == 0));
    assert_eq!(format!("{:p}", v.as_slice()), addr);
}

#[test]
fn sample_2_runs() {
    sample_2();
}
