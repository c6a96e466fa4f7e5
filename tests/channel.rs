use sozu_worker::channel::{ChannelError, CommandChannel, READ_CAPACITY, WRITE_CAPACITY};

struct Config;
struct Order;
struct Status;

fn transfer<A, B, C, D>(from: &mut CommandChannel<A, B>, to: &mut CommandChannel<C, D>) {
    let bytes = from.pending_output().to_vec();
    to.receive(&bytes);
    from.consume_written(bytes.len());
}

#[test]
fn frame_is_length_prefixed() {
    let mut c: CommandChannel<Config, Status> = CommandChannel::new(READ_CAPACITY, WRITE_CAPACITY);
    assert_eq!(c.write_message(b"abc"), Ok(()));
    assert_eq!(c.pending_output(), &[0u8, 0, 0, 3, b'a', b'b', b'c'][..]);
}

#[test]
fn handshake_round_trip() {
    let mut master: CommandChannel<Config, Status> = CommandChannel::new(READ_CAPACITY, WRITE_CAPACITY);
    let mut worker: CommandChannel<Status, Config> = CommandChannel::new(READ_CAPACITY, WRITE_CAPACITY);
    master.set_blocking(true);
    worker.set_blocking(true);
    let payload = b"{\"address\":\"127.0.0.1\",\"port\":8080}".to_vec();
    assert_eq!(master.write_message(&payload), Ok(()));
    transfer(&mut master, &mut worker);
    assert_eq!(worker.read_message(), Ok(Some(payload)));
    assert_eq!(worker.read_message(), Ok(None));
    assert!(master.pending_output().is_empty());
}

#[test]
fn nonblocking_read_without_data() {
    let mut c: CommandChannel<Status, Order> = CommandChannel::new(READ_CAPACITY, WRITE_CAPACITY);
    c.set_blocking(false);
    let start = std::time::Instant::now();
    assert_eq!(c.read_message(), Ok(None));
    assert!(start.elapsed() < std::time::Duration::from_secs(1));
    assert!(!c.is_blocking());
}

#[test]
fn partial_frame_is_not_a_message() {
    let mut c: CommandChannel<Status, Order> = CommandChannel::new(READ_CAPACITY, WRITE_CAPACITY);
    c.receive(&[0, 0, 0, 5, b'h', b'e']);
    assert_eq!(c.read_message(), Ok(None));
    c.receive(&[b'l', b'l', b'o']);
    assert_eq!(c.read_message(), Ok(Some(b"hello".to_vec())));
}

#[test]
fn reinterpret_keeps_stream() {
    let mut master: CommandChannel<Config, Status> = CommandChannel::new(READ_CAPACITY, WRITE_CAPACITY);
    let mut worker: CommandChannel<Status, Config> = CommandChannel::new(READ_CAPACITY, WRITE_CAPACITY);
    assert_eq!(master.write_message(b"config"), Ok(()));
    let mut master: CommandChannel<Order, Status> = master.reinterpret();
    assert_eq!(master.write_message(b"order"), Ok(()));
    transfer(&mut master, &mut worker);
    assert_eq!(worker.read_message(), Ok(Some(b"config".to_vec())));
    assert_eq!(worker.read_message(), Ok(Some(b"order".to_vec())));
    assert_eq!(worker.read_message(), Ok(None));
}

#[test]
fn write_too_large() {
    let mut c: CommandChannel<Order, Status> = CommandChannel::new(READ_CAPACITY, 10);
    assert_eq!(c.write_message(&[1u8; 7]), Err(ChannelError::MessageTooLarge));
    assert!(c.pending_output().is_empty());
    assert_eq!(c.write_message(&[1u8; 6]), Ok(()));
}

#[test]
fn write_waits_for_flush() {
    let mut c: CommandChannel<Order, Status> = CommandChannel::new(READ_CAPACITY, 12);
    assert_eq!(c.write_message(&[1u8; 4]), Ok(()));
    assert_eq!(c.write_message(&[2u8; 4]), Err(ChannelError::WouldBlock));
    c.consume_written(8);
    assert_eq!(c.write_message(&[2u8; 4]), Ok(()));
    assert_eq!(c.pending_output(), &[0u8, 0, 0, 4, 2, 2, 2, 2][..]);
}

#[test]
fn read_too_large() {
    let mut c: CommandChannel<Status, Order> = CommandChannel::new(8, WRITE_CAPACITY);
    c.receive(&[0, 0, 0, 5]);
    assert_eq!(c.read_message(), Err(ChannelError::MessageTooLarge));
    assert_eq!(c.read_room(), 4);
}

#[test]
fn closed_peer() {
    let mut c: CommandChannel<Status, Order> = CommandChannel::new(READ_CAPACITY, WRITE_CAPACITY);
    c.receive(&[0, 0, 0, 1, 9]);
    c.mark_peer_closed();
    assert_eq!(c.read_message(), Ok(Some(vec![9u8])));
    assert_eq!(c.read_message(), Err(ChannelError::ChannelClosed));
}

#[test]
fn write_to_closed_peer() {
    let mut c: CommandChannel<Order, Status> = CommandChannel::new(READ_CAPACITY, WRITE_CAPACITY);
    c.mark_peer_closed();
    assert_eq!(c.write_message(b"order"), Err(ChannelError::ChannelClosed));
    assert!(c.pending_output().is_empty());
}
