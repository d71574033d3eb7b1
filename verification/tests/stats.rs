use arsa_backend::stats::{
    stats_fit_check, sum_block_io, sum_network, summarize_stats, BlockIoEntry, NetworkCounters,
    StatsInput,
};

fn entry(op: Option<&str>, value: Option<u64>) -> BlockIoEntry {
    BlockIoEntry { op: op.map(|s| s.to_string()), value }
}

#[test]
fn block_io_sums_by_operation() {
    let e = vec![
        entry(Some("read"), Some(10)),
        entry(Some("write"), Some(5)),
        entry(Some("read"), None),
        entry(None, Some(100)),
        entry(Some("read"), Some(1)),
    ];
    assert_eq!(sum_block_io(&e, "read"), 11);
    assert_eq!(sum_block_io(&e, "write"), 5);
    assert_eq!(sum_block_io(&e, ""), 100);
    assert_eq!(sum_block_io(&vec![], "read"), 0);
}

#[test]
fn network_sums() {
    let n = vec![
        NetworkCounters { rx_bytes: Some(3), tx_bytes: None },
        NetworkCounters { rx_bytes: Some(4), tx_bytes: Some(9) },
    ];
    assert_eq!(sum_network(&n), (7, 9));
}

#[test]
fn summary() {
    let input = StatsInput {
        io_service_bytes_recursive: vec![entry(Some("read"), Some(2)), entry(Some("write"), Some(3))],
        networks: vec![NetworkCounters { rx_bytes: Some(1), tx_bytes: Some(2) }],
        name: Some("/f30b8424".to_string()),
        id: None,
        mem_usage: Some(1024),
        mem_limit: None,
        pid_count: Some(12),
    };
    let s = summarize_stats(&input);
    assert_eq!(s.block_io_read, 2);
    assert_eq!(s.block_io_write, 3);
    assert_eq!(s.network_rx_bytes, 1);
    assert_eq!(s.network_tx_bytes, 2);
    assert_eq!(s.name, "f30b8424");
    assert_eq!(s.id, "");
    assert_eq!(s.mem_usage, 1024);
    assert_eq!(s.mem_limit, 0);
    assert_eq!(s.pid_count, 12);
}

#[test]
fn sums_that_overflow_are_detected() {
    let fits = StatsInput {
        io_service_bytes_recursive: vec![entry(Some("read"), Some(u64::MAX)), entry(Some("write"), Some(1))],
        networks: vec![NetworkCounters { rx_bytes: Some(u64::MAX), tx_bytes: None }],
        name: None,
        id: None,
        mem_usage: None,
        mem_limit: None,
        pid_count: None,
    };
    assert!(stats_fit_check(&fits));
    let read_overflows = StatsInput {
        io_service_bytes_recursive: vec![entry(Some("read"), Some(u64::MAX)), entry(Some("read"), Some(1))],
        networks: vec![],
        name: None,
        id: None,
        mem_usage: None,
        mem_limit: None,
        pid_count: None,
    };
    assert!(!stats_fit_check(&read_overflows));
    let tx_overflows = StatsInput {
        io_service_bytes_recursive: vec![],
        networks: vec![
            NetworkCounters { rx_bytes: Some(1), tx_bytes: Some(u64::MAX) },
            NetworkCounters { rx_bytes: Some(1), tx_bytes: Some(1) },
        ],
        name: None,
        id: None,
        mem_usage: None,
        mem_limit: None,
        pid_count: None,
    };
    assert!(!stats_fit_check(&tx_overflows));
}
