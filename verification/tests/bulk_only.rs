use std::cell::{Cell, RefCell};
use usbd_storage::transfer::TransferBus;
use usbd_storage::transport::bbb::{
    BulkOnly, BulkOnlyError, Next, Step, TransferCall, TransportError,
};
use usbd_storage::transport::cbw::{build_csw, CommandBlockWrapper, DataDirection, InvalidCbwError};
use usbd_storage::transport::CommandStatus;
use usbd_storage::usb::{
    Descriptor, Effect, EndpointAddress, Pipe, Recipient, Request, RequestType, UsbError,
};

const IN_EP: EndpointAddress = EndpointAddress(0x81);
const OUT_EP: EndpointAddress = EndpointAddress(0x01);
const TAG: u32 = 0x1122_3344;

fn transport(packet_size: u16, buf_size: usize) -> BulkOnly {
    BulkOnly::new(IN_EP, OUT_EP, packet_size, 0, vec![0u8; buf_size]).unwrap()
}

fn cbw(data_transfer_len: u32, flags: u8, lun: u8, block: &[u8]) -> Vec<u8> {
    let mut bytes = vec![0x55, 0x53, 0x42, 0x43];
    bytes.extend_from_slice(&TAG.to_le_bytes());
    bytes.extend_from_slice(&data_transfer_len.to_le_bytes());
    bytes.push(flags);
    bytes.push(lun);
    bytes.push(block.len() as u8);
    bytes.extend_from_slice(block);
    bytes.resize(31, 0);
    bytes
}

/// Hands `bytes` to the transport as packets from the host
fn host_sends(bbb: &mut BulkOnly, packet_size: usize, bytes: &[u8]) {
    for packet in bytes.chunks(packet_size) {
        assert_eq!(read_len(&bbb.read()), packet_size);
        assert_eq!(done(&bbb.packet_read(Ok(packet))), Ok(()));
    }
}

/// A transport in the data phase of a command for `len` bytes to the host
fn to_host(packet_size: u16, buf_size: usize, len: u32) -> BulkOnly {
    let mut bbb = transport(packet_size, buf_size);
    host_sends(&mut bbb, packet_size as usize, &cbw(len, 0x80, 0, &[0x28]));
    bbb
}

/// A transport in the data phase of a command for `len` bytes from the host
fn from_host(packet_size: u16, buf_size: usize, len: u32) -> BulkOnly {
    let mut bbb = transport(packet_size, buf_size);
    host_sends(&mut bbb, packet_size as usize, &cbw(len, 0x00, 0, &[0x2A]));
    bbb
}

fn read_len(step: &Step) -> usize {
    assert!(step.effects.is_empty());
    match &step.next {
        Next::ReadPacket { max_len } => *max_len,
        _ => panic!("a packet should be asked for"),
    }
}

fn packet(step: &Step) -> Vec<u8> {
    match &step.next {
        Next::WritePacket { packet } => packet.clone(),
        _ => panic!("a packet should be offered"),
    }
}

fn done(step: &Step) -> Result<(), TransportError<BulkOnlyError>> {
    match &step.next {
        Next::Done { result: Ok(()) } => Ok(()),
        Next::Done { result: Err(TransportError::Usb(e)) } => Err(TransportError::Usb(*e)),
        Next::Done { result: Err(TransportError::Error(e)) } => Err(TransportError::Error(*e)),
        _ => panic!("the operation should have ended"),
    }
}

fn csw(residue: u32, status: u8) -> Vec<u8> {
    let mut bytes = vec![0x55, 0x53, 0x42, 0x53];
    bytes.extend_from_slice(&TAG.to_le_bytes());
    bytes.extend_from_slice(&residue.to_le_bytes());
    bytes.push(status);
    bytes
}

const WOULD_BLOCK: TransportError<BulkOnlyError> = TransportError::Usb(UsbError::WouldBlock);
const INVALID_STATE: TransportError<BulkOnlyError> =
    TransportError::Error(BulkOnlyError::InvalidState);

#[test]
fn should_read_data_into_small_buffer() {
    const BUF_SIZE: usize = 512;
    const N: usize = 123;

    let mut bbb = from_host(8, BUF_SIZE, BUF_SIZE as u32);
    host_sends(&mut bbb, 8, [0xFFu8; BUF_SIZE].as_slice()); // fill the buffer

    assert_eq!(N, bbb.read_data([0u8; N].as_mut_slice()).unwrap());
}

/// Ends an IN data phase with `residue` bytes the host asked for but the command did
/// not send
fn end_in_transfer_with_status(residue: u32, status: CommandStatus) -> Step {
    let mut bbb = to_host(64, 512, residue);
    bbb.set_status(status);
    bbb.check_end_data_transfer()
}

#[test]
fn passed_short_read_does_not_stall_bulk_in() {
    let step = end_in_transfer_with_status(188, CommandStatus::Passed);

    assert!(
        !step.effects.contains(&Effect::StallIn),
        "a passed short read must not halt the bulk-IN endpoint"
    );
    assert!(
        !step.effects.contains(&Effect::StallOut),
        "an IN data phase must never halt the bulk-OUT endpoint"
    );
    assert_eq!(
        packet(&step),
        csw(188, 0),
        "the CSW must still be sent on the bulk-IN endpoint"
    );
}

#[test]
fn failed_short_read_stalls_bulk_in() {
    let step = end_in_transfer_with_status(188, CommandStatus::Failed);

    assert!(
        step.effects.contains(&Effect::StallIn),
        "a failed transfer with residue must halt the bulk-IN endpoint"
    );
    assert_eq!(
        Ok(()),
        done(&step),
        "the CSW must be deferred until the host clears the endpoint halt"
    );
}

struct WouldBlockTransferBus;

impl TransferBus for WouldBlockTransferBus {
    fn submit_write(&self, _ep: EndpointAddress, _buf: &[u8]) -> Result<(), UsbError> {
        Err(UsbError::WouldBlock)
    }
    fn submit_read(&self, _ep: EndpointAddress, _buf: &mut [u8]) -> Result<(), UsbError> {
        Err(UsbError::WouldBlock)
    }
    fn poll_transfer(&self, _ep: EndpointAddress) -> Option<Result<usize, UsbError>> {
        None
    }
}

#[test]
fn wouldblock_submit_keeps_transfer_phase_no_fullpacket_spin() {
    // IN data phase for a 512-byte READ; no status yet.
    let mut bbb = to_host(64, 512, 512);

    // First callback call: the submit is refused with WouldBlock.
    let src = [0u8; 512];
    let r = bbb.write_data_transfer(&WouldBlockTransferBus, &src);
    assert!(
        matches!(r, Err(TransportError::Usb(UsbError::WouldBlock))),
        "refused submit must surface WouldBlock, got {r:?}"
    );

    // The poll loop then drives write(): the phase stays in transfer mode.
    let w = done(&bbb.write());
    assert!(
        w.is_ok(),
        "write() after a WouldBlock submit must be a quiet no-op, got {w:?}"
    );
}

#[test]
fn configuration_is_checked() {
    let make = |packet_size: u16, max_lun: u8, len: usize| {
        BulkOnly::new(IN_EP, OUT_EP, packet_size, max_lun, vec![0u8; len]).err()
    };
    assert_eq!(make(64, 0x0F, 64), None);
    assert_eq!(make(8, 0, 31), None);
    assert_eq!(make(64, 0x10, 64), Some(BulkOnlyError::InvalidMaxLun));
    assert_eq!(make(64, 0x10, 0), Some(BulkOnlyError::InvalidMaxLun));
    assert_eq!(make(8, 0, 30), Some(BulkOnlyError::BufferTooSmall));
    assert_eq!(make(64, 0, 63), Some(BulkOnlyError::BufferTooSmall));
    assert_eq!(BulkOnly::check_config(64, 16, 64), Err(BulkOnlyError::InvalidMaxLun));
    assert_eq!(BulkOnly::check_config(512, 0, 511), Err(BulkOnlyError::BufferTooSmall));
    assert_eq!(BulkOnly::check_config(512, 15, 512), Ok(()));
}

#[test]
fn command_block_is_taken_from_the_cbw() {
    let mut bbb = transport(64, 64);
    assert!(bbb.get_command().is_none());
    host_sends(&mut bbb, 64, &cbw(512, 0x80, 0xF3, &[0x28, 1, 2, 3]));
    let command = bbb.get_command().unwrap();
    assert_eq!(command.bytes, [0x28, 1, 2, 3]);
    assert_eq!(command.lun, 3);
    assert!(!bbb.has_status());
}

#[test]
fn cbw_may_come_in_packets() {
    let mut bbb = transport(8, 64);
    let bytes = cbw(0, 0, 0, &[0x00]);
    for packet in bytes.chunks(8) {
        assert!(bbb.get_command().is_none());
        bbb.read();
        bbb.packet_read(Ok(packet));
    }
    assert_eq!(bbb.get_command().unwrap().bytes, [0x00]);
}

#[test]
fn no_room_for_a_packet_is_an_overflow() {
    let mut bbb = from_host(8, 32, 512);
    host_sends(&mut bbb, 8, &[1u8; 32]);
    assert_eq!(
        done(&bbb.read()),
        Err(TransportError::Error(BulkOnlyError::IoBufferOverflow))
    );
    let mut dst = [0u8; 8];
    assert_eq!(bbb.read_data(&mut dst), Ok(8));
    assert_eq!(read_len(&bbb.read()), 8);
}

#[test]
fn endpoint_errors_are_reported() {
    let mut bbb = transport(64, 64);
    bbb.read();
    assert_eq!(done(&bbb.packet_read(Err(UsbError::WouldBlock))), Err(WOULD_BLOCK));
    bbb.read();
    assert_eq!(done(&bbb.packet_read(Ok(&[]))), Err(WOULD_BLOCK));
    bbb.read();
    assert_eq!(
        done(&bbb.packet_read(Err(UsbError::BufferOverflow))),
        Err(TransportError::Usb(UsbError::BufferOverflow))
    );

    let mut bbb = to_host(64, 512, 10);
    assert_eq!(bbb.write_data(&[7; 10]), Ok(10));
    assert_eq!(packet(&bbb.write()), [7; 10]);
    assert_eq!(done(&bbb.packet_written(Err(UsbError::WouldBlock))), Err(WOULD_BLOCK));
    assert_eq!(done(&bbb.packet_written(Ok(0))), Err(WOULD_BLOCK));
    assert_eq!(
        done(&bbb.packet_written(Err(UsbError::InvalidEndpoint))),
        Err(TransportError::Usb(UsbError::InvalidEndpoint))
    );
    // nothing was lost
    assert_eq!(packet(&bbb.write()), [7; 10]);
}

#[test]
fn invalid_cbws_reset_the_transport() {
    let mut bad_signature = cbw(0, 0, 0, &[0x12]);
    bad_signature[0] ^= 0xFF;
    let mut no_block = cbw(0, 0, 0, &[0x12]);
    no_block[14] = 0;
    let mut long_block = cbw(0, 0, 0, &[0x12]);
    long_block[14] = 17;
    for bytes in [bad_signature, no_block, long_block] {
        let mut bbb = transport(64, 64);
        bbb.read();
        let step = bbb.packet_read(Ok(&bytes));
        assert_eq!(
            step.effects,
            [Effect::StallIn, Effect::StallOut, Effect::UnstallIn, Effect::UnstallOut]
        );
        assert_eq!(done(&step), Ok(()));
        assert!(bbb.get_command().is_none());
        // a valid command works right away
        host_sends(&mut bbb, 64, &cbw(0, 0, 0, &[0x12]));
        assert!(bbb.get_command().is_some());
    }
}

#[test]
fn cbw_body_fields() {
    let bytes = cbw(0x0102_0304, 0x80, 0x12, &[1, 2, 3]);
    let parsed = CommandBlockWrapper::from_le_bytes(&bytes[4..]).unwrap();
    assert_eq!(parsed.tag, TAG);
    assert_eq!(parsed.data_transfer_len, 0x0102_0304);
    assert_eq!(parsed.direction, DataDirection::In);
    assert_eq!(parsed.lun, 2);
    assert_eq!(parsed.block_len, 3);
    assert_eq!(parsed.block[..4], [1, 2, 3, 0]);
    // the padding is kept
    let mut padded = bytes.clone();
    padded[30] = 0xEE;
    assert_eq!(CommandBlockWrapper::from_raw(&padded).unwrap().block[15], 0xEE);
    assert_eq!(
        CommandBlockWrapper::from_le_bytes(&cbw(5, 0x7F, 0, &[1])[4..]).unwrap().direction,
        DataDirection::Out
    );
    assert_eq!(
        CommandBlockWrapper::from_le_bytes(&cbw(0, 0x80, 0, &[1])[4..]).unwrap().direction,
        DataDirection::NotExpected
    );
    assert_eq!(
        CommandBlockWrapper::from_le_bytes(&bytes[4..30]).err(),
        Some(InvalidCbwError)
    );
    assert!(CommandBlockWrapper::from_raw(&bytes).is_ok());
}

#[test]
fn csw_bytes_on_the_wire() {
    assert_eq!(
        build_csw(0x0403_0201, 0x0807_0605, CommandStatus::PhaseError),
        [0x55, 0x53, 0x42, 0x53, 1, 2, 3, 4, 5, 6, 7, 8, 2]
    );
    assert_eq!(CommandStatus::Passed.code(), 0);
    assert_eq!(CommandStatus::Failed.code(), 1);
}

#[test]
fn command_without_data_is_answered() {
    let mut bbb = transport(64, 64);
    host_sends(&mut bbb, 64, &cbw(0, 0x80, 0, &[0x00]));
    assert_eq!(done(&bbb.write()), Ok(()));
    bbb.set_status(CommandStatus::Failed);
    assert!(bbb.has_status());
    let step = bbb.write();
    assert!(step.effects.is_empty());
    assert_eq!(packet(&step), csw(0, 1));
    assert_eq!(done(&bbb.packet_written(Ok(13))), Ok(()));
    assert!(bbb.get_command().is_none());
    assert!(!bbb.has_status());
}

#[test]
fn csw_goes_out_in_pieces() {
    let mut bbb = transport(8, 64);
    host_sends(&mut bbb, 8, &cbw(0, 0, 0, &[0x00]));
    bbb.set_status(CommandStatus::Passed);
    let mut sent = Vec::new();
    let first = packet(&bbb.write());
    assert_eq!(first.len(), 8);
    // the endpoint takes only a part of it
    sent.extend_from_slice(&first[..3]);
    assert_eq!(done(&bbb.packet_written(Ok(3))), Ok(()));
    while bbb.get_command().is_some() {
        let next = packet(&bbb.write());
        sent.extend_from_slice(&next);
        assert_eq!(done(&bbb.packet_written(Ok(next.len()))), Ok(()));
    }
    assert_eq!(sent, csw(0, 0));
}

#[test]
fn full_packets_are_expected_in_mid_transfer() {
    let mut bbb = to_host(64, 512, 100);
    let expected = || Err(TransportError::Error(BulkOnlyError::FullPacketExpected));
    assert_eq!(done(&bbb.write()), expected());
    assert_eq!(bbb.write_data(&[1; 63]), Ok(63));
    assert_eq!(done(&bbb.write()), expected());
    assert_eq!(bbb.write_data(&[2; 37]), Ok(37));
    assert_eq!(packet(&bbb.write()).len(), 64);
    assert_eq!(done(&bbb.packet_written(Ok(64))), Ok(()));
    // the last packet may be short
    assert_eq!(packet(&bbb.write()), [2; 36]);
}

#[test]
fn buffered_data_goes_out_before_the_csw() {
    let mut bbb = to_host(64, 512, 512);
    assert_eq!(bbb.write_data(&[9; 100]), Ok(100));
    bbb.set_status(CommandStatus::Passed);
    assert_eq!(packet(&bbb.write()), [9; 64]);
    assert_eq!(done(&bbb.packet_written(Ok(64))), Ok(()));
    assert_eq!(packet(&bbb.write()), [9; 36]);
    // with the last byte the CSW follows
    assert_eq!(packet(&bbb.packet_written(Ok(36))), csw(412, 0));
}

#[test]
fn data_is_not_written_after_the_status() {
    let mut bbb = to_host(64, 512, 512);
    bbb.set_status(CommandStatus::Passed);
    assert_eq!(bbb.write_data(&[0; 8]), Err(INVALID_STATE));
    assert_eq!(bbb.try_write_data_all(&[0; 8]), Err(INVALID_STATE));
}

#[test]
fn write_data_is_clamped() {
    // to what the host expects
    let mut bbb = to_host(8, 64, 10);
    assert_eq!(bbb.write_data(&[1; 20]), Ok(10));
    // to the room in the buffer
    let mut bbb = to_host(8, 64, 512);
    assert_eq!(bbb.write_data(&[1; 60]), Ok(60));
    assert_eq!(bbb.write_data(&[1; 60]), Ok(4));
    assert_eq!(bbb.write_data(&[1; 60]), Ok(0));
}

#[test]
fn write_all_is_all_or_nothing() {
    let mut bbb = to_host(8, 64, 512);
    assert_eq!(bbb.try_write_data_all(&[1; 60]), Ok(()));
    assert_eq!(
        bbb.try_write_data_all(&[1; 5]),
        Err(TransportError::Error(BulkOnlyError::IoBufferOverflow))
    );
    assert_eq!(bbb.try_write_data_all(&[2; 4]), Ok(()));
    let mut sent = Vec::new();
    for _ in 0..8 {
        let next = packet(&bbb.write());
        sent.extend_from_slice(&next);
        bbb.packet_written(Ok(next.len()));
    }
    assert_eq!(sent[..60], [1; 60]);
    assert_eq!(sent[60..], [2; 4]);
}

#[test]
fn data_calls_need_their_data_phase() {
    let mut dst = [0u8; 4];
    let mut bbb = transport(64, 64);
    assert_eq!(bbb.read_data(&mut dst), Err(INVALID_STATE));
    assert_eq!(bbb.write_data(&[1]), Err(INVALID_STATE));
    assert_eq!(bbb.try_write_data_all(&[1]), Err(INVALID_STATE));
    let mut bbb = to_host(64, 64, 8);
    assert_eq!(bbb.read_data(&mut dst), Err(INVALID_STATE));
    let mut bbb = from_host(64, 64, 8);
    assert_eq!(bbb.write_data(&[1]), Err(INVALID_STATE));
    assert_eq!(bbb.try_write_data_all(&[1]), Err(INVALID_STATE));
    assert_eq!(dst, [0; 4]);
}

#[test]
fn host_data_is_read_back() {
    let mut bbb = from_host(8, 64, 20);
    let bytes: Vec<u8> = (0..20).collect();
    host_sends(&mut bbb, 8, &bytes);
    let mut dst = [0xEEu8; 24];
    assert_eq!(bbb.read_data(&mut dst[..5]), Ok(5));
    assert_eq!(bbb.read_data(&mut dst[5..]), Ok(15));
    assert_eq!(dst[..20], bytes[..]);
    assert_eq!(dst[20..], [0xEE; 4]);
    assert_eq!(bbb.read_data(&mut dst), Ok(0));
    // all of it was taken: nothing is halted
    bbb.set_status(CommandStatus::Passed);
    let step = bbb.read();
    assert!(step.effects.is_empty());
    assert_eq!(packet(&step), csw(0, 0)[..8]);
}

#[test]
fn unread_data_is_residue() {
    let mut bbb = from_host(64, 512, 512);
    host_sends(&mut bbb, 64, &[1; 512]);
    assert_eq!(bbb.read_data(&mut [0; 100]), Ok(100));
    bbb.set_status(CommandStatus::Failed);
    // all was received, so nothing is halted
    let step = bbb.read();
    assert!(step.effects.is_empty());
    assert_eq!(packet(&step), csw(412, 1));
}

#[test]
fn residue_is_never_more_than_announced() {
    // the host sends more than it announced
    let mut bbb = from_host(8, 64, 5);
    host_sends(&mut bbb, 8, &[1; 8]);
    assert_eq!(bbb.read_data(&mut [0; 3]), Ok(3));
    bbb.set_status(CommandStatus::Failed);
    let first = packet(&bbb.read());
    assert_eq!(done(&bbb.packet_written(Ok(8))), Ok(()));
    let second = packet(&bbb.write());
    assert_eq!([first, second].concat(), csw(2, 1));
}

#[test]
fn transfer_from_host_in_flight_is_waited_for() {
    let bus = QueueBus::new(1);
    let mut dst = [0u8; 6];
    let mut bbb = from_host(64, 512, 6);
    assert_eq!(bbb.read_data_transfer(&bus, &mut dst), Err(WOULD_BLOCK));
    bbb.set_status(CommandStatus::Passed);
    assert_eq!(done(&bbb.finish_data_transfer_phase()), Ok(()));
    assert!(bbb.is_data_transfer_phase());
    bus.complete(Ok(6));
    assert_eq!(bbb.read_data_transfer(&bus, &mut dst), Ok(6));
    assert_eq!(packet(&bbb.finish_data_transfer_phase()), csw(0, 0));

    let bus = QueueBus::new(1);
    let mut bbb = to_host(64, 512, 6);
    assert_eq!(bbb.write_data_transfer(&bus, &dst), Err(WOULD_BLOCK));
    assert_eq!(done(&bbb.write()), Ok(()));
    // to the host the status ends the phase all the same
    bbb.set_status(CommandStatus::Passed);
    assert_eq!(packet(&bbb.write()), csw(6, 0));
}

#[test]
fn bus_calls_are_named() {
    let mut bbb = transport(64, 64);
    assert_eq!(bbb.write_transfer_call(8), TransferCall::Refused);
    assert_eq!(bbb.read_transfer_call(8), TransferCall::Refused);
    assert_eq!(bbb.pipelined_write_transfer_call(8), TransferCall::Refused);
    assert_eq!(bbb.pipelined_poll_transfer_call(), TransferCall::Refused);
    host_sends(&mut bbb, 64, &cbw(100, 0x80, 0, &[0x28]));
    assert_eq!(bbb.write_transfer_call(8), TransferCall::Submit { ep: IN_EP, len: 8 });
    assert_eq!(bbb.write_transfer_call(101), TransferCall::Submit { ep: IN_EP, len: 100 });
    assert_eq!(
        bbb.pipelined_write_transfer_call(101),
        TransferCall::Submit { ep: IN_EP, len: 100 }
    );
    assert_eq!(bbb.pipelined_poll_transfer_call(), TransferCall::Poll { ep: IN_EP });
    assert_eq!(bbb.read_transfer_call(8), TransferCall::Refused);
    assert_eq!(bbb.transfer_submitted(Ok(())), Err(WOULD_BLOCK));
    assert_eq!(bbb.write_transfer_call(8), TransferCall::Poll { ep: IN_EP });
    assert_eq!(bbb.transfer_polled(None), Err(WOULD_BLOCK));
    assert_eq!(bbb.write_transfer_call(8), TransferCall::Poll { ep: IN_EP });
    assert_eq!(bbb.transfer_polled(Some(Ok(90))), Ok(90));
    assert_eq!(bbb.write_transfer_call(101), TransferCall::Submit { ep: IN_EP, len: 10 });

    let mut bbb = from_host(64, 64, 100);
    assert_eq!(bbb.read_transfer_call(101), TransferCall::Submit { ep: OUT_EP, len: 100 });
    assert_eq!(bbb.transfer_submitted(Ok(())), Err(WOULD_BLOCK));
    assert_eq!(bbb.read_transfer_call(101), TransferCall::Poll { ep: OUT_EP });
}

#[test]
fn short_write_halts_out_and_defers_the_csw() {
    let mut bbb = from_host(64, 512, 512);
    host_sends(&mut bbb, 64, &[1; 64]);
    assert_eq!(bbb.read_data(&mut [0; 60]), Ok(60));
    bbb.set_status(CommandStatus::Passed);
    let step = bbb.read();
    assert_eq!(step.effects, [Effect::StallOut]);
    assert_eq!(done(&step), Ok(()));
    // nothing happens until the halt is cleared
    assert_eq!(done(&bbb.read()), Ok(()));
    assert_eq!(done(&bbb.write()), Ok(()));
    assert!(bbb.control_out(&clear_halt(OUT_EP.0 as u16)));
    let step = bbb.halt_cleared();
    assert_eq!(step.effects, [Effect::UnstallIn, Effect::UnstallOut]);
    // of 512 bytes the user read 60; 4 more were received
    assert_eq!(packet(&step), csw(452, 0));
    assert_eq!(done(&bbb.packet_written(Ok(13))), Ok(()));
    assert!(bbb.get_command().is_none());
}

fn clear_halt(index: u16) -> Request {
    Request {
        request_type: RequestType::Standard,
        recipient: Recipient::Endpoint,
        request: 1,
        value: 0,
        index,
    }
}

#[test]
fn only_a_cleared_bulk_halt_is_accepted() {
    let mut bbb = to_host(64, 512, 188);
    assert!(!bbb.control_out(&clear_halt(0x81)));
    bbb.set_status(CommandStatus::Failed);
    bbb.write();
    // either bulk endpoint will do; only the low byte of the index counts
    assert!(bbb.control_out(&clear_halt(0x81)));
    assert!(bbb.control_out(&clear_halt(0x01)));
    assert!(bbb.control_out(&clear_halt(0xAB81)));
    assert!(!bbb.control_out(&clear_halt(0x82)));
    assert!(!bbb.control_out(&Request { value: 1, ..clear_halt(0x81) }));
    assert!(!bbb.control_out(&Request { request: 3, ..clear_halt(0x81) }));
    assert!(!bbb.control_out(&Request { recipient: Recipient::Device, ..clear_halt(0x81) }));
    assert!(!bbb.control_out(&Request { request_type: RequestType::Class, ..clear_halt(0x81) }));
    bbb.halt_cleared();
    assert!(!bbb.control_out(&clear_halt(0x81)));
}

#[test]
fn max_lun_is_answered() {
    let bbb = BulkOnly::new(IN_EP, OUT_EP, 64, 5, vec![0u8; 64]).unwrap();
    let req = Request {
        request_type: RequestType::Class,
        recipient: Recipient::Interface,
        request: 0xFE,
        value: 0,
        index: 0,
    };
    assert_eq!(bbb.control_in(&req), Some(5));
    assert_eq!(bbb.control_in(&Request { request: 0xFF, ..req }), None);
    assert_eq!(bbb.control_in(&Request { recipient: Recipient::Device, ..req }), None);
    assert_eq!(bbb.control_in(&Request { request_type: RequestType::Vendor, ..req }), None);
}

#[test]
fn reset_forgets_everything() {
    let mut bbb = to_host(64, 512, 512);
    assert_eq!(bbb.write_data(&[1; 64]), Ok(64));
    bbb.set_status(CommandStatus::Failed);
    assert_eq!(bbb.reset(), [Effect::UnstallIn, Effect::UnstallOut]);
    assert!(bbb.get_command().is_none());
    assert!(!bbb.has_status());
    assert_eq!(done(&bbb.write()), Ok(()));
    host_sends(&mut bbb, 64, &cbw(0, 0, 0, &[0x12]));
    assert_eq!(bbb.get_command().unwrap().bytes, [0x12]);
}

#[test]
fn endpoint_descriptors_and_addresses() {
    let bbb = transport(64, 64);
    assert_eq!(
        bbb.get_endpoint_descriptors(),
        [
            Descriptor::Endpoint { pipe: Pipe::DataIn },
            Descriptor::Endpoint { pipe: Pipe::DataOut },
        ]
    );
    assert_eq!(bbb.data_endpoints(), (IN_EP, OUT_EP));
}

/// A bus with room for `room` transfers; the test completes them
struct QueueBus {
    room: Cell<usize>,
    submitted: RefCell<Vec<(u8, Vec<u8>)>>,
    completions: RefCell<Vec<Result<usize, UsbError>>>,
}

impl QueueBus {
    fn new(room: usize) -> Self {
        QueueBus {
            room: Cell::new(room),
            submitted: RefCell::new(Vec::new()),
            completions: RefCell::new(Vec::new()),
        }
    }

    fn submit(&self, ep: EndpointAddress, bytes: &[u8]) -> Result<(), UsbError> {
        if self.room.get() == 0 {
            return Err(UsbError::WouldBlock);
        }
        self.room.set(self.room.get() - 1);
        self.submitted.borrow_mut().push((ep.0, bytes.to_vec()));
        Ok(())
    }

    fn complete(&self, outcome: Result<usize, UsbError>) {
        self.completions.borrow_mut().push(outcome);
    }
}

impl TransferBus for QueueBus {
    fn submit_write(&self, ep: EndpointAddress, buf: &[u8]) -> Result<(), UsbError> {
        self.submit(ep, buf)
    }
    fn submit_read(&self, ep: EndpointAddress, buf: &mut [u8]) -> Result<(), UsbError> {
        buf.fill(0xAB);
        self.submit(ep, buf)
    }
    fn poll_transfer(&self, _ep: EndpointAddress) -> Option<Result<usize, UsbError>> {
        let mut completions = self.completions.borrow_mut();
        if completions.is_empty() {
            None
        } else {
            self.room.set(self.room.get() + 1);
            Some(completions.remove(0))
        }
    }
}

#[test]
fn transfer_to_host_is_submitted_and_retired() {
    let bus = QueueBus::new(1);
    let mut bbb = to_host(64, 512, 300);
    // no more than the host expects is submitted
    assert_eq!(bbb.write_data_transfer(&bus, &[3; 512]), Err(WOULD_BLOCK));
    assert_eq!(*bus.submitted.borrow(), [(0x81, vec![3; 300])]);
    assert_eq!(bbb.write_data_transfer(&bus, &[3; 512]), Err(WOULD_BLOCK));
    assert_eq!(done(&bbb.write()), Ok(()));
    bus.complete(Ok(200));
    assert_eq!(bbb.write_data_transfer(&bus, &[3; 512]), Ok(200));
    assert_eq!(bus.submitted.borrow().len(), 1);
    bbb.set_status(CommandStatus::Passed);
    assert_eq!(packet(&bbb.write()), csw(100, 0));
}

#[test]
fn failed_transfer_can_be_submitted_again() {
    let bus = QueueBus::new(2);
    let mut bbb = to_host(64, 512, 300);
    assert_eq!(bbb.write_data_transfer(&bus, &[3; 300]), Err(WOULD_BLOCK));
    bus.complete(Err(UsbError::InvalidEndpoint));
    assert_eq!(
        bbb.write_data_transfer(&bus, &[3; 300]),
        Err(TransportError::Usb(UsbError::InvalidEndpoint))
    );
    assert_eq!(bbb.write_data_transfer(&bus, &[3; 300]), Err(WOULD_BLOCK));
    assert_eq!(bus.submitted.borrow().len(), 2);
}

#[test]
fn transfer_from_host_is_primed_and_retired() {
    let bus = QueueBus::new(1);
    let mut bbb = from_host(64, 512, 6);
    assert!(!bbb.is_data_transfer_phase());
    let mut dst = [0u8; 8];
    assert_eq!(bbb.read_data_transfer(&bus, &mut dst), Err(WOULD_BLOCK));
    assert!(bbb.is_data_transfer_phase());
    // the bus got the part of the buffer that the host has data for
    assert_eq!(dst, [0xAB, 0xAB, 0xAB, 0xAB, 0xAB, 0xAB, 0, 0]);
    assert_eq!(bus.submitted.borrow()[0].0, 0x01);
    bus.complete(Ok(6));
    assert_eq!(bbb.read_data_transfer(&bus, &mut dst), Ok(6));
    bbb.set_status(CommandStatus::Passed);
    let step = bbb.finish_data_transfer_phase();
    assert!(step.effects.is_empty());
    assert_eq!(packet(&step), csw(0, 0));
    assert!(!bbb.is_data_transfer_phase());
}

#[test]
fn pipelined_transfers_are_drained_in_order() {
    let bus = QueueBus::new(2);
    let mut bbb = to_host(64, 512, 100);
    assert_eq!(bbb.write_data_transfer_pipelined(&bus, &[1; 40]), Ok(()));
    assert_eq!(bbb.write_data_transfer_pipelined(&bus, &[2; 60]), Ok(()));
    assert_eq!(bbb.write_data_transfer_pipelined(&bus, &[3; 10]), Err(WOULD_BLOCK));
    assert_eq!(*bus.submitted.borrow(), [(0x81, vec![1; 40]), (0x81, vec![2; 60])]);
    assert_eq!(bbb.poll_data_transfer(&bus), Ok(None));
    bus.complete(Ok(40));
    bus.complete(Ok(60));
    assert_eq!(bbb.poll_data_transfer(&bus), Ok(Some(40)));
    assert_eq!(bbb.poll_data_transfer(&bus), Ok(Some(60)));
    bus.complete(Err(UsbError::InvalidState));
    assert_eq!(
        bbb.poll_data_transfer(&bus),
        Err(TransportError::Usb(UsbError::InvalidState))
    );
    bbb.set_status(CommandStatus::Passed);
    assert_eq!(packet(&bbb.write()), csw(0, 0));
}

#[test]
fn refused_pipelined_transfer_keeps_the_phase() {
    let bus = QueueBus::new(0);
    let mut bbb = to_host(64, 512, 100);
    assert_eq!(bbb.write_data_transfer_pipelined(&bus, &[1; 100]), Err(WOULD_BLOCK));
    assert_eq!(done(&bbb.write()), Ok(()));
}

#[test]
fn refused_read_keeps_the_phase() {
    let mut bbb = from_host(64, 512, 512);
    let mut dst = [0u8; 512];
    assert_eq!(bbb.read_data_transfer(&WouldBlockTransferBus, &mut dst), Err(WOULD_BLOCK));
    assert!(bbb.is_data_transfer_phase());
}

#[test]
fn command_keeps_its_tag() {
    let mut bbb = to_host(64, 512, 70);
    assert_eq!(bbb.write_data(&[1; 64]), Ok(64));
    bbb.write();
    bbb.packet_written(Ok(64));
    bbb.set_status(CommandStatus::PhaseError);
    assert_eq!(bbb.write().effects, [Effect::StallIn]);
    let sent = packet(&bbb.halt_cleared());
    assert_eq!(sent[4..8], TAG.to_le_bytes());
    assert_eq!(sent, csw(6, 2));
}

#[test]
fn transfers_need_their_data_phase() {
    let bus = QueueBus::new(1);
    let mut dst = [0u8; 4];
    let mut bbb = from_host(64, 64, 8);
    assert_eq!(bbb.write_data_transfer(&bus, &[1]), Err(INVALID_STATE));
    assert_eq!(bbb.write_data_transfer_pipelined(&bus, &[1]), Err(INVALID_STATE));
    assert_eq!(bbb.poll_data_transfer(&bus), Err(INVALID_STATE));
    let mut bbb = to_host(64, 64, 8);
    assert_eq!(bbb.read_data_transfer(&bus, &mut dst), Err(INVALID_STATE));
    assert!(bus.submitted.borrow().is_empty());
    assert_eq!(dst, [0; 4]);
}

#[test]
fn outcomes_of_transfers() {
    let mut bbb = to_host(64, 512, 100);
    assert_eq!(bbb.transfer_submitted(Ok(())), Err(WOULD_BLOCK));
    assert_eq!(bbb.transfer_polled(None), Err(WOULD_BLOCK));
    assert_eq!(bbb.transfer_polled(Some(Ok(70))), Ok(70));
    assert_eq!(bbb.pipelined_submitted(Ok(())), Ok(()));
    assert_eq!(bbb.pipelined_polled(Some(Ok(31))), Ok(Some(31)));
    // the residue does not go below zero
    bbb.set_status(CommandStatus::Failed);
    assert_eq!(packet(&bbb.write()), csw(0, 1));
}
