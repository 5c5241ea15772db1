use ssh_session::model::Data;
use ssh_session::terminal::TerminalSize;

#[test]
fn u32_goes_out_big_endian() {
    let mut d = Data::new();
    d.put_u32(0x01020304);
    assert_eq!(d.into_bytes(), vec![1, 2, 3, 4]);
}

#[test]
fn strings_are_length_prefixed() {
    let mut d = Data::new();
    d.put_str("ab");
    assert_eq!(d.into_bytes(), vec![0, 0, 0, 2, b'a', b'b']);
    let mut e = Data::new();
    e.put_str("");
    assert_eq!(e.into_bytes(), vec![0, 0, 0, 0]);
}

#[test]
fn pieces_append_in_call_order() {
    let mut d = Data::new();
    d.put_u8(98);
    d.put_u32(7);
    d.put_u8s(&[0xde, 0xad]);
    assert_eq!(d.into_bytes(), vec![98, 0, 0, 0, 7, 0xde, 0xad]);
}

#[test]
fn terminal_size_fetches_in_declared_order() {
    let ts = TerminalSize::new(80, 24, 640, 480);
    assert_eq!(ts.fetch(), (80, 24, 640, 480));
}
