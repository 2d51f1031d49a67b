use blocking_queue::counter::SharedCounter;

#[test]
fn new_counter_reads_zero() {
    let c = SharedCounter::new();
    assert_eq!(c.read(), 0);
}

#[test]
fn ten_tasks_of_hundred_increments_reach_exactly_one_thousand() {
    // The serialization of 10 tasks each applying add(1) a hundred times:
    // whatever order the lock grants, the sum is the same.
    let mut c = SharedCounter::new();
    for _ in 0..10 {
        for _ in 0..100 {
            c.add(1);
        }
    }
    assert_eq!(c.read(), 1000);
}

#[test]
fn interleavings_agree_on_the_final_value() {
    // Two different interleavings of the same increments.
    let mut round_robin = SharedCounter::new();
    for _ in 0..100 {
        for _ in 0..10 {
            round_robin.add(1);
        }
    }
    let mut task_by_task = SharedCounter::new();
    for _ in 0..10 {
        for _ in 0..100 {
            task_by_task.add(1);
        }
    }
    assert_eq!(round_robin.read(), task_by_task.read());
    assert_eq!(round_robin.read(), 1000);
}

#[test]
fn add_accumulates_mixed_amounts() {
    let mut c = SharedCounter::new();
    c.add(5);
    c.add(0);
    c.add(37);
    assert_eq!(c.read(), 42);
}

#[test]
fn add_all_adds_the_sum_of_the_batch() {
    let mut c = SharedCounter::new();
    c.add(1);
    c.add_all(&vec![2, 3, 4, 5]);
    assert_eq!(c.read(), 15);
}

#[test]
fn add_all_of_empty_batch_changes_nothing() {
    let mut c = SharedCounter::new();
    c.add(9);
    c.add_all(&Vec::new());
    assert_eq!(c.read(), 9);
}

#[test]
fn counter_reaches_the_largest_value() {
    let mut c = SharedCounter::new();
    c.add(u64::MAX);
    assert_eq!(c.read(), u64::MAX);
}
