use fib_stream::{FibError, FibStream};

#[test]
fn first_five_values() {
    let mut s = FibStream::new();
    assert_eq!(s.produce_next(), Ok(1));
    assert_eq!(s.produce_next(), Ok(2));
    assert_eq!(s.produce_next(), Ok(3));
    assert_eq!(s.produce_next(), Ok(5));
    assert_eq!(s.produce_next(), Ok(8));
}

#[test]
fn tenth_value_is_exact() {
    let mut s = FibStream::new();
    let mut v: u64 = 0;
    for _ in 0..10 {
        v = s.produce_next().unwrap();
    }
    assert_eq!(v, 89);
}

#[test]
fn values_strictly_increase() {
    let mut s = FibStream::new();
    let mut last: u64 = s.produce_next().unwrap();
    for _ in 0..40 {
        let next: u64 = s.produce_next().unwrap();
        assert!(next > last);
        last = next;
    }
}

#[test]
fn values_obey_recurrence() {
    let mut s = FibStream::new();
    let mut values: Vec<u64> = Vec::new();
    for _ in 0..40 {
        values.push(s.produce_next().unwrap());
    }
    for k in 2..values.len() {
        assert_eq!(values[k], values[k - 1] + values[k - 2]);
    }
}

#[test]
fn independent_generators_agree() {
    let mut a = FibStream::new();
    let mut b = FibStream::new();
    for _ in 0..60 {
        assert_eq!(a.produce_next(), b.produce_next());
    }
}

#[test]
fn pulling_one_leaves_the_other_alone() {
    let mut a = FibStream::new();
    let mut b = FibStream::new();
    for _ in 0..10 {
        a.produce_next().unwrap();
    }
    assert_eq!(b.produce_next(), Ok(1));
    assert_eq!(a.produce_next(), Ok(144));
}

#[test]
fn overflow_is_reported_and_sticky() {
    let mut s = FibStream::new();
    let mut last: u64 = 0;
    for _ in 0..92 {
        last = s.produce_next().unwrap();
    }
    assert_eq!(last, 12200160415121876738);
    assert_eq!(s.produce_next(), Err(FibError::Overflow));
    assert_eq!(s.produce_next(), Err(FibError::Overflow));
}
