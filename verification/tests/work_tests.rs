use amqp_examples::work::{point_count, work_message};

#[test]
fn point_count_counts_dots() {
    assert_eq!(point_count(b""), 0);
    assert_eq!(point_count(b"no dots here"), 0);
    assert_eq!(point_count(b"a.b..c..."), 6);
    assert_eq!(point_count(b"..."), 3);
}

#[test]
fn work_message_text() {
    assert_eq!(work_message(0), "Hello msg");
    assert_eq!(work_message(3), "Hello msg...");
}

#[test]
fn work_message_round_trip() {
    for n in [0usize, 1, 2, 5, 17] {
        assert_eq!(point_count(work_message(n).as_bytes()), n);
    }
}
