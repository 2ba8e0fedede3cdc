use dubble::DoubleBuffered;

#[test]
fn basic_int() {
    // create a db int
    let mut db = DoubleBuffered::<i32>::default();

    *db.write() = 3;
    // read buffer should not update until told to do so.
    assert!(*db.read() == 0);
    db.update();
    assert!(*db.read() == 3);

    // check the same thing again
    *db.write() = 4;
    assert!(*db.read() == 3);
    db.update();
    assert!(*db.read() == 4);
}

#[test]
fn basic_string() {
    let mut db = DoubleBuffered::construct_with(String::new);
    assert!(*db.read() == String::new());
    *db.write() = "hello, world".to_string();
    db.update();
    assert!(*db.read() == String::from("hello, world"));
}

#[test]
fn basic_int_using_deref() {
    // the same test as basic_int, but making use of the Deref traits

    // create a db int
    let mut db = DoubleBuffered::<i32>::default();

    *db = 3;
    // read buffer should not update until told to do so.
    assert!(*db == 0);
    db.update();
    assert!(*db == 3);

    // check the same thing again
    *db = 4;
    assert!(*db == 3);
    db.update();
    assert!(*db == 4);
}

#[test]
fn vec_i32() {
    let mut db = DoubleBuffered::<Vec<i32>>::default();

    // using deref and index
    db.push(0);
    db.update();
    assert!(db[0] == 0);

    // read view should not change
    db[0] = 1;
    assert!(db[0] == 0);

    // should now be updated
    db.update();
    assert!(db[0] == 1);
}

#[test]
fn new_gives_the_value_to_both_sides() {
    let db = DoubleBuffered::new(vec![7u8, 8, 9]);
    assert_eq!(*db.read(), vec![7u8, 8, 9]);
    assert_eq!(db.unbuffer_read(), vec![7u8, 8, 9]);

    let db = DoubleBuffered::new(String::from("abc"));
    assert_eq!(db.unbuffer_write(), "abc");
}

#[test]
fn new_sides_are_independent() {
    let mut db = DoubleBuffered::new(vec![1i32]);
    db.write().push(2);
    assert_eq!(*db.read(), vec![1]);
    assert_eq!(db.unbuffer_write(), vec![1, 2]);
}

#[test]
fn staging_is_invisible_until_update() {
    let mut db = DoubleBuffered::new(0u64);
    for round in 1..=5u64 {
        let before = *db.read();
        for step in 0..3u64 {
            *db.write() = round * 10 + step;
            assert_eq!(*db.read(), before);
        }
        db.update();
        assert_eq!(*db.read(), round * 10 + 2);
    }
}

#[test]
fn upsert_publishes_at_once() {
    let mut db = DoubleBuffered::new(String::from("old"));
    db.upsert(String::from("new"));
    assert_eq!(*db.read(), "new");
    assert_eq!(db.unbuffer_write(), "new");
}

#[test]
fn upsert_matches_write_then_update() {
    let mut a = DoubleBuffered::new(vec![1u32]);
    let mut b = DoubleBuffered::new(vec![1u32]);
    a.upsert(vec![4, 5]);
    *b.write() = vec![4, 5];
    b.update();
    assert_eq!(*a.read(), *b.read());
    assert_eq!(a.unbuffer_write(), b.unbuffer_write());
}

#[test]
fn update_twice_is_update_once() {
    let mut db = DoubleBuffered::new(1i64);
    *db.write() = -6;
    db.update();
    let once = *db.read();
    db.update();
    assert_eq!(*db.read(), once);
    assert_eq!(once, -6);
}

#[test]
fn unbuffer_read_does_not_publish() {
    let mut db = DoubleBuffered::new(1u8);
    *db.write() = 2;
    assert_eq!(db.unbuffer_read(), 1);
}

#[test]
fn unbuffer_write_takes_the_staged_value() {
    let mut db = DoubleBuffered::new(1u8);
    *db.write() = 2;
    assert_eq!(db.unbuffer_write(), 2);
}

#[test]
fn construct_with_calls_the_constructor_per_side() {
    let calls = std::cell::Cell::new(0u32);
    let db = DoubleBuffered::construct_with(|| {
        calls.set(calls.get() + 1);
        calls.get()
    });
    assert_eq!(calls.get(), 2);
    let read = *db.read();
    assert_eq!(read, 1);
    assert_eq!(db.unbuffer_write(), 2);
}

#[test]
fn default_of_empty_vec() {
    let db = DoubleBuffered::<Vec<u8>>::default();
    assert!(db.read().is_empty());
    assert!(db.unbuffer_write().is_empty());
}

#[test]
fn deref_mut_then_deref_sees_old_value() {
    let mut db = DoubleBuffered::<i32>::default();
    *db = 3;
    assert_eq!(*db, 0);
    db.update();
    assert_eq!(*db, 3);
}

#[test]
fn index_reads_the_read_side_and_index_mut_the_write_side() {
    let mut db = DoubleBuffered::new(vec![10i32, 20, 30]);
    db[1] = 25;
    assert_eq!(db[1], 20);
    assert_eq!(db.write()[1], 25);
    db.update();
    assert_eq!(db[1], 25);
    assert_eq!(db[2], 30);
}
