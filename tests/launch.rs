use sozu_worker::config::{ListenerConfig, ListenerType};
use sozu_worker::launch::{inheritable_flags, plan_workers, worker_arguments, LaunchError, Listener};

fn http(worker_count: Option<u16>) -> ListenerConfig {
    ListenerConfig {
        listener_type: ListenerType::HTTP,
        address: "127.0.0.1".to_string(),
        port: 8080,
        worker_count,
        answer_404: None,
        answer_503: None,
        certificate: None,
        key: None,
    }
}

#[test]
fn two_http_workers() {
    let cfg = http(Some(2));
    let plan = plan_workers("frontend", &cfg).unwrap();
    assert_eq!(plan.slots, vec![1u16, 0]);
    let pids = [4242, 4243];
    let records: Vec<Listener<u8>> = (0..plan.slots.len()).map(|k| plan.listener(k, pids[k], 7u8)).collect();
    assert_eq!(records.len(), 2);
    let mut indices: Vec<u16> = records.iter().map(|l| l.index).collect();
    indices.sort();
    assert_eq!(indices, vec![0, 1]);
    for l in &records {
        assert_eq!(l.tag, "frontend");
        assert_eq!(l.address, "127.0.0.1");
        assert_eq!(l.port, 8080);
        assert_eq!(l.listener_type, ListenerType::HTTP);
    }
    assert_ne!(records[0].pid, records[1].pid);
}

#[test]
fn slots_cover_every_index_once() {
    let plan = plan_workers("t", &http(Some(5))).unwrap();
    assert_eq!(plan.slots, vec![1u16, 2, 3, 4, 0]);
    let plan = plan_workers("t", &http(None)).unwrap();
    assert_eq!(plan.slots, vec![0u16]);
}

#[test]
fn unknown_protocol_starts_nothing() {
    let mut cfg = http(Some(3));
    cfg.listener_type = ListenerType::TCP;
    assert!(plan_workers("t", &cfg).is_none());
    cfg.listener_type = ListenerType::HTTPS;
    assert!(plan_workers("t", &cfg).is_none());
}

#[test]
fn cloexec_is_cleared() {
    assert_eq!(inheritable_flags(1), Ok(0));
    assert_eq!(inheritable_flags(0), Ok(0));
    assert_eq!(inheritable_flags(3), Err(LaunchError::DescriptorFlags));
}

#[test]
fn arguments_of_a_worker() {
    let args = worker_arguments("7", "frontend", "1");
    assert_eq!(args, vec!["worker", "--fd", "7", "--tag", "frontend", "--id", "1"]);
}
