use ssh_session::channel::ChannelBroker;
use ssh_session::channel_shell::ShellBrocker;
use ssh_session::error::SshError;
use ssh_session::terminal::TerminalSize;

fn pty_req_bytes(channel: u32, w: u32, h: u32, wp: u32, hp: u32) -> Vec<u8> {
    let mut expected: Vec<u8> = Vec::new();
    expected.push(98);
    expected.extend_from_slice(&channel.to_be_bytes());
    expected.extend_from_slice(&7u32.to_be_bytes());
    expected.extend_from_slice(b"pty-req");
    expected.push(1);
    expected.extend_from_slice(&5u32.to_be_bytes());
    expected.extend_from_slice(b"xterm");
    expected.extend_from_slice(&w.to_be_bytes());
    expected.extend_from_slice(&h.to_be_bytes());
    expected.extend_from_slice(&wp.to_be_bytes());
    expected.extend_from_slice(&hp.to_be_bytes());
    expected.extend_from_slice(&[128, 0, 1, 0xc2, 0, 129, 0, 1, 0xc2, 0, 0]);
    expected
}

fn shell_bytes(channel: u32) -> Vec<u8> {
    let mut expected: Vec<u8> = Vec::new();
    expected.push(98);
    expected.extend_from_slice(&channel.to_be_bytes());
    expected.extend_from_slice(&5u32.to_be_bytes());
    expected.extend_from_slice(b"shell");
    expected.push(1);
    expected
}

#[test]
fn request_pty_exact_layout() {
    let mut sb = ShellBrocker(ChannelBroker::new(0, 7, 1024));
    let ts = TerminalSize::new(80, 24, 640, 480);
    sb.request_pty(ts).unwrap();
    assert_eq!(sb.0.sent.len(), 1);
    assert_eq!(sb.0.sent[0], pty_req_bytes(7, 80, 24, 640, 480));
}

#[test]
fn request_pty_layout_other_sizes() {
    let mut sb = ShellBrocker(ChannelBroker::new(3, 0xdeadbeef, 64));
    let ts = TerminalSize::new(1, 0, 0xffffffff, 115200);
    sb.request_pty(ts).unwrap();
    assert_eq!(sb.0.sent[0], pty_req_bytes(0xdeadbeef, 1, 0, 0xffffffff, 115200));
}

#[test]
fn get_shell_fixed_shape() {
    let mut sb = ShellBrocker(ChannelBroker::new(0, 9, 1024));
    sb.get_shell().unwrap();
    assert_eq!(sb.0.sent.len(), 1);
    assert_eq!(sb.0.sent[0], shell_bytes(9));
}

#[test]
fn open_sends_pty_then_shell() {
    let broker = ChannelBroker::new(0, 5, 2048);
    let ts = TerminalSize::new(120, 40, 0, 0);
    let sb = ShellBrocker::open(broker, ts).unwrap();
    assert_eq!(sb.0.sent.len(), 2);
    assert_eq!(sb.0.sent[0], pty_req_bytes(5, 120, 40, 0, 0));
    assert_eq!(sb.0.sent[1], shell_bytes(5));
}

#[test]
fn open_on_broken_channel_fails() {
    let mut broker = ChannelBroker::new(0, 5, 2048);
    broker.mark_broken();
    let ts = TerminalSize::new(80, 24, 0, 0);
    match ShellBrocker::open(broker, ts) {
        Err(SshError::TransportError) => {},
        _ => panic!("a broken channel must refuse to open"),
    }
}

#[test]
fn failed_pty_request_sends_nothing() {
    let mut broker = ChannelBroker::new(0, 5, 2048);
    broker.mark_broken();
    let mut sb = ShellBrocker(broker);
    let ts = TerminalSize::new(80, 24, 0, 0);
    assert_eq!(sb.request_pty(ts), Err(SshError::TransportError));
    assert_eq!(sb.0.sent.len(), 0);
}

#[test]
fn read_concatenates_all_queued_packets() {
    let mut sb = ShellBrocker(ChannelBroker::new(0, 2, 1024));
    sb.deliver(vec![1, 2]);
    sb.deliver(vec![3]);
    sb.deliver(vec![4, 5, 6]);
    let out = sb.read().unwrap();
    assert_eq!(out, vec![1, 2, 3, 4, 5, 6]);
    assert!(!out.is_empty());
    assert_eq!(sb.0.pending.len(), 0);
}

#[test]
fn read_on_empty_queue_does_not_return_empty_bytes() {
    let mut sb = ShellBrocker(ChannelBroker::new(0, 2, 1024));
    assert_eq!(sb.read(), Err(SshError::TimeoutError));
}

#[test]
fn read_single_packet() {
    let mut sb = ShellBrocker(ChannelBroker::new(0, 2, 1024));
    sb.deliver(vec![42]);
    assert_eq!(sb.read().unwrap(), vec![42]);
    assert_eq!(sb.read(), Err(SshError::TimeoutError));
}

#[test]
fn write_hands_payload_to_channel() {
    let mut sb = ShellBrocker(ChannelBroker::new(0, 2, 1024));
    sb.write(b"ls -l\n").unwrap();
    assert_eq!(sb.0.sent.len(), 1);
    assert_eq!(sb.0.sent[0], b"ls -l\n".to_vec());
}

#[test]
fn close_consumes_the_shell() {
    let sb = ShellBrocker(ChannelBroker::new(0, 2, 1024));
    assert_eq!(sb.close(), Ok(()));
    let mut broker = ChannelBroker::new(0, 2, 1024);
    broker.mark_broken();
    let sb2 = ShellBrocker(broker);
    assert_eq!(sb2.close(), Err(SshError::TransportError));
}

#[test]
fn broker_stays_reachable_through_the_shell() {
    let sb = ShellBrocker(ChannelBroker::new(11, 22, 333));
    assert_eq!(sb.broker().client_channel_no, 11);
    assert_eq!(sb.broker().server_channel_no, 22);
    assert_eq!(sb.broker().window_size, 333);
}
