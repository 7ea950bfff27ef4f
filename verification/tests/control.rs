use roboapp::camera::control::decode_polled;
use roboapp::camera::control::ControlChannel;
use roboapp::camera::switch::SwitchCommand;
use tokio::sync::mpsc::unbounded_channel;

#[test]
fn nothing_polled_is_no_command() {
    assert_eq!(decode_polled(None), None);
}

#[test]
fn any_polled_payload_is_a_command() {
    assert_eq!(decode_polled(Some(b"2".to_vec())), Some(SwitchCommand::Select(2)));
    assert_eq!(decode_polled(Some(Vec::new())), Some(SwitchCommand::Advance));
    assert_eq!(decode_polled(Some(b"next".to_vec())), Some(SwitchCommand::Advance));
}

#[test]
fn empty_inbox_yields_nothing_without_waiting() {
    let (_tx, rx) = unbounded_channel::<Vec<u8>>();
    let mut channel = ControlChannel::new(rx);
    assert_eq!(channel.try_recv(), None);
    assert_eq!(channel.try_recv(), None);
}

#[test]
fn commands_come_out_in_the_order_sent() {
    let (tx, rx) = unbounded_channel::<Vec<u8>>();
    let mut channel = ControlChannel::new(rx);
    tx.send(b"1".to_vec()).unwrap();
    tx.send(Vec::new()).unwrap();
    tx.send(b"garbage".to_vec()).unwrap();
    tx.send(b"0".to_vec()).unwrap();
    assert_eq!(channel.try_recv(), Some(SwitchCommand::Select(1)));
    assert_eq!(channel.try_recv(), Some(SwitchCommand::Advance));
    assert_eq!(channel.try_recv(), Some(SwitchCommand::Advance));
    assert_eq!(channel.try_recv(), Some(SwitchCommand::Select(0)));
    assert_eq!(channel.try_recv(), None);
}

#[test]
fn closed_inbox_yields_nothing() {
    let (tx, rx) = unbounded_channel::<Vec<u8>>();
    let mut channel = ControlChannel::new(rx);
    tx.send(b"3".to_vec()).unwrap();
    drop(tx);
    assert_eq!(channel.try_recv(), Some(SwitchCommand::Select(3)));
    assert_eq!(channel.try_recv(), None);
}
