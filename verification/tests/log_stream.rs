use deltachat_core::log_stream::{read_error_message, Metrics};

#[test]
fn stream_metrics() {
    let mut m = Metrics::new();
    m.add_read(10);
    m.add_written(5);
    m.add_read(1);
    assert_eq!(m.total_read, 11);
    assert_eq!(m.total_written, 5);
    m.total_read = u64::MAX - 1;
    m.add_read(10);
    assert_eq!(m.total_read, u64::MAX);
    assert_eq!(
        read_error_message("127.0.0.1:993", &m, "reset"),
        format!("Read error on stream 127.0.0.1:993 after reading {} and writing 5 bytes: reset.", u64::MAX)
    );
}
