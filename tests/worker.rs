use sozu_worker::channel::{ChannelError, CommandChannel, READ_CAPACITY, WRITE_CAPACITY};
use sozu_worker::config::{ListenerConfig, ListenerType};
use sozu_worker::locate::{path_from_canonical, path_from_link, scratch_buffer, LocateError, PATH_CAPACITY};
use sozu_worker::worker::{receive_config, worker_label, worker_start, WorkerError, WorkerStart};

fn cfg(listener_type: ListenerType) -> ListenerConfig {
    ListenerConfig {
        listener_type,
        address: "127.0.0.1".to_string(),
        port: 443,
        worker_count: None,
        answer_404: None,
        answer_503: None,
        certificate: Some("c".to_string()),
        key: Some("k".to_string()),
    }
}

#[test]
fn closed_descriptor_fails_handshake() {
    let mut c: CommandChannel<u8, u16> = CommandChannel::new(READ_CAPACITY, WRITE_CAPACITY);
    c.set_blocking(true);
    c.mark_peer_closed();
    assert_eq!(receive_config(&mut c), Err(WorkerError::ConfigHandshake(ChannelError::ChannelClosed)));
}

#[test]
fn config_arrives() {
    let mut c: CommandChannel<u8, u16> = CommandChannel::new(READ_CAPACITY, WRITE_CAPACITY);
    assert_eq!(receive_config(&mut c), Ok(None));
    c.receive(&[0, 0, 0, 2, 1, 2]);
    assert_eq!(receive_config(&mut c), Ok(Some(vec![1u8, 2])));
}

#[test]
fn label_joins_tag_and_id() {
    assert_eq!(worker_label("frontend", "3"), "frontend-3");
}

#[test]
fn start_by_protocol() {
    assert!(matches!(worker_start(&cfg(ListenerType::HTTP)), Ok(WorkerStart::Http(h)) if h.port == 443));
    assert!(matches!(worker_start(&cfg(ListenerType::HTTPS)), Ok(WorkerStart::Tls(t)) if t.key == "k"));
    assert!(matches!(
        worker_start(&cfg(ListenerType::TCP)),
        Err(WorkerError::UnsupportedListener(ListenerType::TCP))
    ));
    let mut no_key = cfg(ListenerType::HTTPS);
    no_key.key = None;
    assert!(matches!(worker_start(&no_key), Ok(WorkerStart::Nothing)));
}

#[test]
fn link_path() {
    let mut buf = scratch_buffer();
    assert_eq!(buf.len(), PATH_CAPACITY);
    assert!(buf.iter().all(|b| *b == 0));
    buf[..8].copy_from_slice(b"/usr/bin");
    assert_eq!(path_from_link(&buf, 8), Ok(b"/usr/bin".to_vec()));
    assert_eq!(path_from_link(&buf, -1), Err(LocateError::PathResolution));
    assert_eq!(path_from_link(&buf, (PATH_CAPACITY - 1) as isize), Err(LocateError::PathResolution));
    assert_eq!(path_from_link(&buf, 0), Err(LocateError::PathResolution));
}

#[test]
fn canonical_path() {
    let buf = b"/opt/sozu\0garbage".to_vec();
    assert_eq!(path_from_canonical(0, Some(&buf)), Ok(b"/opt/sozu".to_vec()));
    assert_eq!(path_from_canonical(-1, Some(&buf)), Err(LocateError::BufferTooSmall));
    assert_eq!(path_from_canonical(0, None), Err(LocateError::Canonicalization));
}
