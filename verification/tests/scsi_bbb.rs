use std::cell::RefCell;
use std::collections::VecDeque;
use usbd_storage::subclass::scsi::{
    map_ignore, PollNext, PollStep, Scsi, ScsiCommand,
};
use usbd_storage::subclass::Command;
use usbd_storage::transfer::TransferBus;
use usbd_storage::transport::bbb::{BulkOnly, BulkOnlyError, Next, TransportError};
use usbd_storage::usb::{
    Descriptor, Effect, EndpointAddress, InterfaceNumber, Pipe, Recipient, Request, RequestType,
    UsbError,
};

const IN_EP: EndpointAddress = EndpointAddress(0xEE);
const OUT_EP: EndpointAddress = EndpointAddress(0xFF);

#[derive(Debug, Eq, PartialEq)]
struct Csw {
    data_transfer_len: u32,
    status: u8,
}

const PASSED: u8 = 0x00;
const FAILED: u8 = 0x01;
const PHASE_ERROR: u8 = 0x02;

/// The endpoints of a device, as its host sees them
struct Bus {
    from_host: VecDeque<Vec<u8>>,
    to_host: VecDeque<Vec<u8>>,
    in_stalled: bool,
    out_stalled: bool,
    packets_read: usize,
    read_error: Option<UsbError>,
    write_errors: VecDeque<UsbError>,
}

impl Bus {
    fn new() -> Self {
        Bus {
            from_host: VecDeque::new(),
            to_host: VecDeque::new(),
            in_stalled: false,
            out_stalled: false,
            packets_read: 0,
            read_error: None,
            write_errors: VecDeque::new(),
        }
    }

    fn write_data(&mut self, bytes: &[u8]) {
        for packet in bytes.chunks(64) {
            self.from_host.push_back(packet.to_vec());
        }
    }

    fn write_cbw(&mut self, data_transfer_len: u32, flags: u8, block: &[u8]) {
        self.write_data(&cbw(data_transfer_len, flags, block));
    }

    fn read_bytes(&mut self) -> Vec<u8> {
        let mut bytes = Vec::new();
        while let Some(mut packet) = self.to_host.pop_front() {
            bytes.append(&mut packet);
        }
        bytes
    }

    fn read_cs(&mut self) -> Option<Csw> {
        let bytes = self.read_bytes();
        if bytes.len() != 13 {
            return None;
        }
        Some(Csw {
            data_transfer_len: u32::from_le_bytes([bytes[8], bytes[9], bytes[10], bytes[11]]),
            status: bytes[12],
        })
    }

    fn perform(&mut self, effects: &[Effect]) {
        for effect in effects {
            match effect {
                Effect::StallIn => self.in_stalled = true,
                Effect::StallOut => self.out_stalled = true,
                Effect::UnstallIn => self.in_stalled = false,
                Effect::UnstallOut => self.out_stalled = false,
                Effect::ResetUas => panic!("there is no UAS engine"),
            }
        }
    }

    fn read_packet(&mut self) -> Result<Vec<u8>, UsbError> {
        if let Some(e) = self.read_error {
            return Err(e);
        }
        self.packets_read += 1;
        self.from_host.pop_front().ok_or(UsbError::WouldBlock)
    }

    fn write_packet(&mut self, packet: Vec<u8>) -> Result<usize, UsbError> {
        if let Some(e) = self.write_errors.pop_front() {
            return Err(e);
        }
        let len = packet.len();
        self.to_host.push_back(packet);
        Ok(len)
    }
}

fn cbw(data_transfer_len: u32, flags: u8, block: &[u8]) -> Vec<u8> {
    let mut bytes = vec![0x55, 0x53, 0x42, 0x43, 0, 0, 0, 0];
    bytes.extend_from_slice(&data_transfer_len.to_le_bytes());
    bytes.extend_from_slice(&[flags, 0, block.len() as u8]);
    bytes.extend_from_slice(block);
    bytes.resize(31, 0);
    bytes
}

fn write_10() -> Vec<u8> {
    vec![0x2A, 0, 0, 0, 0, 0, 0, 0, 1, 0]
}

fn read_10() -> Vec<u8> {
    vec![0x28, 0, 0, 0, 0, 0, 0, 0, 1, 0]
}

fn scsi(buf_size: usize) -> Scsi<BulkOnly> {
    Scsi::<BulkOnly>::new(InterfaceNumber(0), IN_EP, OUT_EP, 64, 0, vec![0u8; buf_size]).unwrap()
}

/// Performs the steps of a poll on the bus
fn run(
    scsi: &mut Scsi<BulkOnly>,
    bus: &mut Bus,
    first: PollStep,
    callback: &mut dyn FnMut(Command<ScsiCommand, Scsi<BulkOnly>>),
) -> Result<(), UsbError> {
    let mut step = first;
    loop {
        bus.perform(&step.effects);
        step = match step.next {
            PollNext::ReadPacket { max_len } => match bus.read_packet() {
                Ok(packet) => {
                    assert!(packet.len() <= max_len);
                    scsi.packet_read(Ok(&packet))
                }
                Err(e) => scsi.packet_read(Err(e)),
            },
            PollNext::WritePacket { packet } => {
                let outcome = bus.write_packet(packet);
                scsi.packet_written(outcome)
            }
            PollNext::Callback { lun, .. } => {
                let command = scsi.command();
                assert_eq!(command.lun, lun);
                callback(command);
                scsi.callback_done()
            }
            PollNext::Done { result } => return result,
        };
    }
}

fn poll(
    scsi: &mut Scsi<BulkOnly>,
    bus: &mut Bus,
    mut callback: impl FnMut(Command<ScsiCommand, Scsi<BulkOnly>>),
) -> Result<(), UsbError> {
    let first = scsi.poll();
    run(scsi, bus, first, &mut callback)
}

fn poll_transfer(
    scsi: &mut Scsi<BulkOnly>,
    bus: &mut Bus,
    mut callback: impl FnMut(Command<ScsiCommand, Scsi<BulkOnly>>),
) -> Result<(), UsbError> {
    let first = scsi.poll_transfer();
    run(scsi, bus, first, &mut callback)
}

/// The host clears the halt of the endpoint with this address
fn clear_halt(scsi: &mut Scsi<BulkOnly>, bus: &mut Bus, ep: EndpointAddress) {
    let req = Request {
        request_type: RequestType::Standard,
        recipient: Recipient::Endpoint,
        request: 1,
        value: 0,
        index: ep.0 as u16,
    };
    assert!(scsi.control_out(&req));
    let step = scsi.halt_cleared();
    bus.perform(&step.effects);
    match step.next {
        Next::WritePacket { packet } => {
            let outcome = bus.write_packet(packet);
            assert!(matches!(scsi.csw_written(outcome).next, Next::Done { result: Ok(()) }));
        }
        _ => panic!("the CSW should be offered"),
    }
}

#[test]
fn probe_b_invalid_first_cbw_panics_in_parse_cb() {
    let mut bus = Bus::new();
    let mut scsi = scsi(1024);

    // A 31-byte CBW with a corrupted dCBWSignature.
    let mut bad = cbw(0, 0, &[0x12]);
    bad[0] ^= 0xFF;
    bus.write_data(bad.as_slice());

    let mut asked = false;
    assert_eq!(poll(&mut scsi, &mut bus, |_cmd| asked = true), Ok(()));
    assert_eq!(poll(&mut scsi, &mut bus, |_cmd| asked = true), Ok(()));
    assert!(!asked, "an invalid CBW must be ignored");
}

/// The user reads all data of a 512-byte Write, then ends the command with `end`
fn read_from_host(end: fn(Command<ScsiCommand, Scsi<BulkOnly>>)) -> Bus {
    let mut bus = Bus::new();
    let mut scsi = scsi(1024);
    bus.write_cbw(512, 0x00, &write_10());
    bus.write_data([0u8; 512].as_slice()); // host has written a block

    let mut processed = 0;
    for _ in 0..20 {
        poll(&mut scsi, &mut bus, |mut cmd| {
            assert!(matches!(cmd.kind, ScsiCommand::Write { lba: 0, len: 1 }));
            processed += cmd.read_data(&mut [0u8; 512]).unwrap();
            if processed == 512 {
                end(cmd);
            }
        })
        .unwrap();
    }
    assert_eq!(processed, 512);
    bus
}

#[test]
fn should_fail_reading_data_from_host_with_bytes_processed() {
    let mut bus = read_from_host(|cmd| cmd.fail());
    let expected_csw = Csw {
        data_transfer_len: 0, // processed all data
        status: FAILED,
    };
    assert!(!bus.out_stalled);
    assert_eq!(expected_csw, bus.read_cs().unwrap());
}

#[test]
fn should_pass_reading_data_from_host_with_bytes_processed() {
    let mut bus = read_from_host(|cmd| cmd.pass());
    let expected_csw = Csw {
        data_transfer_len: 0, // processed all data
        status: PASSED,
    };
    assert!(!bus.out_stalled);
    assert_eq!(expected_csw, bus.read_cs().unwrap());
}

/// The device takes in all data of a 512-byte Write; the user reads none of it and
/// ends the command with a phase error
fn fail_phase_without_reading() -> Csw {
    let mut bus = Bus::new();
    let mut scsi = scsi(1024);
    bus.write_cbw(512, 0x00, &write_10());
    bus.write_data([0u8; 512].as_slice()); // host has written a block

    for _ in 0..20 {
        poll(&mut scsi, &mut bus, |_cmd| {}).unwrap();
    }
    assert!(bus.from_host.is_empty());
    poll(&mut scsi, &mut bus, |cmd| cmd.fail_phase()).unwrap();
    poll(&mut scsi, &mut bus, |_cmd| panic!("the command has its status")).unwrap();
    assert!(!bus.out_stalled);
    bus.read_cs().unwrap()
}

#[test]
fn ending_before_the_data_halts_out() {
    let mut bus = Bus::new();
    let mut scsi = scsi(1024);
    bus.write_cbw(512, 0x00, &write_10());
    bus.write_data([0u8; 512].as_slice());

    poll(&mut scsi, &mut bus, |cmd| cmd.fail_phase()).unwrap();
    assert!(bus.out_stalled);
    assert!(bus.to_host.is_empty());
    clear_halt(&mut scsi, &mut bus, OUT_EP);
    assert!(!bus.out_stalled);
    assert_eq!(
        bus.read_cs().unwrap(),
        Csw { data_transfer_len: 512, status: PHASE_ERROR }
    );
}

#[test]
fn should_fail_reading_data_from_host_without_bytes_processed() {
    let expected_csw = Csw {
        data_transfer_len: 512, // no data has been processed
        status: PHASE_ERROR,
    };
    assert_eq!(expected_csw, fail_phase_without_reading());
}

#[test]
fn should_phase_fail_reading_data_from_host_trying_to_pass_without_bytes_read() {
    let expected_csw = Csw {
        data_transfer_len: 512,
        status: PHASE_ERROR,
    };
    assert_eq!(expected_csw, fail_phase_without_reading());
}

#[test]
fn should_fail_in_the_middle_writing_data_to_host() {
    let mut bus = Bus::new();
    let mut scsi = scsi(1024);
    bus.write_cbw(512, 0x80, &read_10());

    poll(&mut scsi, &mut bus, |mut cmd| {
        assert_eq!(256, cmd.write_data([0xFFu8; 256].as_slice()).unwrap());
        cmd.fail(); // processed some data
    })
    .unwrap();
    for _ in 0..8 {
        poll(&mut scsi, &mut bus, |_cmd| panic!("the command has its status")).unwrap();
    }
    assert_eq!(bus.read_bytes(), [0xFF; 256]); // all data bytes
    assert!(bus.in_stalled);
    assert!(!bus.out_stalled);
    clear_halt(&mut scsi, &mut bus, IN_EP);
    let expected_csw = Csw {
        data_transfer_len: 256, // processed part
        status: FAILED,
    };
    assert_eq!(expected_csw, bus.read_cs().unwrap());
}

#[test]
fn command_without_data_takes_one_poll() {
    let mut bus = Bus::new();
    let mut scsi = scsi(1024);
    bus.write_cbw(0, 0x00, &[0x00, 0, 0, 0, 0, 0]);
    let mut asked = 0;
    poll(&mut scsi, &mut bus, |cmd| {
        asked += 1;
        assert!(matches!(cmd.kind(), ScsiCommand::TestUnitReady));
        assert_eq!(cmd.lun(), 0);
        cmd.pass();
    })
    .unwrap();
    assert_eq!(asked, 1);
    assert_eq!(
        bus.read_cs().unwrap(),
        Csw { data_transfer_len: 0, status: PASSED }
    );
}

#[test]
fn user_is_asked_again_for_a_full_packet() {
    let mut bus = Bus::new();
    let mut scsi = scsi(1024);
    bus.write_cbw(100, 0x80, &read_10());
    let mut asked = 0;
    poll(&mut scsi, &mut bus, |mut cmd| {
        asked += 1;
        cmd.try_write_data_all(&[asked as u8; 16]).unwrap();
    })
    .unwrap();
    // a packet of 64 bytes takes four pieces of 16
    assert_eq!(asked, 4);
    assert_eq!(bus.read_bytes().len(), 64);
}

#[test]
fn short_answer_of_a_passed_command() {
    // a 4-byte answer to an allocation of 192 bytes
    let mut bus = Bus::new();
    let mut scsi = scsi(1024);
    bus.write_cbw(192, 0x80, &[0x1A, 0, 0x3F, 0, 192, 0]);
    poll(&mut scsi, &mut bus, |mut cmd| {
        cmd.try_write_data_all(&[3, 0, 0, 0]).unwrap();
        cmd.pass();
    })
    .unwrap();
    assert!(!bus.in_stalled);
    assert_eq!(bus.to_host.pop_front().unwrap(), [3, 0, 0, 0]);
    assert_eq!(
        bus.read_cs().unwrap(),
        Csw { data_transfer_len: 188, status: PASSED }
    );
}

#[test]
fn genuine_errors_end_the_poll() {
    let mut bus = Bus::new();
    let mut class = scsi(1024);
    bus.read_error = Some(UsbError::InvalidEndpoint);
    assert_eq!(
        poll(&mut class, &mut bus, |_cmd| panic!("there is no command")),
        Err(UsbError::InvalidEndpoint)
    );
    bus.read_error = Some(UsbError::WouldBlock);
    assert_eq!(poll(&mut class, &mut bus, |_cmd| panic!("there is no command")), Ok(()));

    let mut bus = Bus::new();
    bus.write_cbw(0, 0, &[0x00]);
    bus.write_errors.push_back(UsbError::InvalidState);
    assert_eq!(poll(&mut class, &mut bus, |cmd| cmd.pass()), Err(UsbError::InvalidState));
    // the CSW is still there to be sent; a busy endpoint is no error
    bus.write_errors.push_back(UsbError::WouldBlock);
    assert_eq!(poll(&mut class, &mut bus, |_cmd| panic!("it has its status")), Ok(()));
    assert_eq!(poll(&mut class, &mut bus, |_cmd| panic!("it has its status")), Ok(()));
    assert_eq!(
        bus.read_cs().unwrap(),
        Csw { data_transfer_len: 0, status: PASSED }
    );
}

#[test]
fn ignored_results() {
    let ok: Result<usize, TransportError<BulkOnlyError>> = Ok(3);
    assert_eq!(map_ignore(ok), Ok(()));
    let blocked: Result<(), TransportError<BulkOnlyError>> =
        Err(TransportError::Usb(UsbError::WouldBlock));
    assert_eq!(map_ignore(blocked), Ok(()));
    let transport: Result<(), TransportError<BulkOnlyError>> =
        Err(TransportError::Error(BulkOnlyError::IoBufferOverflow));
    assert_eq!(map_ignore(transport), Ok(()));
    let usb: Result<(), TransportError<BulkOnlyError>> =
        Err(TransportError::Usb(UsbError::Unsupported));
    assert_eq!(map_ignore(usb), Err(UsbError::Unsupported));
}

/// A bus that completes each transfer at the poll after its submission
struct OnePollBus {
    submitted: RefCell<Vec<usize>>,
    refuse: bool,
}

impl OnePollBus {
    fn submit(&self, len: usize) -> Result<(), UsbError> {
        if self.refuse {
            return Err(UsbError::WouldBlock);
        }
        self.submitted.borrow_mut().push(len);
        Ok(())
    }
}

impl TransferBus for OnePollBus {
    fn submit_write(&self, ep: EndpointAddress, buf: &[u8]) -> Result<(), UsbError> {
        assert_eq!(ep, IN_EP);
        self.submit(buf.len())
    }
    fn submit_read(&self, ep: EndpointAddress, buf: &mut [u8]) -> Result<(), UsbError> {
        assert_eq!(ep, OUT_EP);
        self.submit(buf.len())
    }
    fn poll_transfer(&self, _ep: EndpointAddress) -> Option<Result<usize, UsbError>> {
        self.submitted.borrow_mut().pop().map(Ok)
    }
}

#[test]
fn no_packet_is_read_during_a_transfer() {
    let dma = OnePollBus { submitted: RefCell::new(Vec::new()), refuse: false };
    let mut bus = Bus::new();
    let mut scsi = scsi(1024);
    bus.write_cbw(512, 0x00, &write_10());
    let mut block = [0u8; 512];
    poll_transfer(&mut scsi, &mut bus, |mut cmd| {
        assert!(cmd.read_data_transfer(&dma, &mut block).is_err());
    })
    .unwrap();
    assert_eq!(*dma.submitted.borrow(), [512]);
    let packets_read = bus.packets_read;
    poll_transfer(&mut scsi, &mut bus, |mut cmd| {
        assert_eq!(cmd.read_data_transfer(&dma, &mut block), Ok(512));
        cmd.pass();
    })
    .unwrap();
    // the next CBW was not asked for before the CSW was there
    assert_eq!(bus.packets_read, packets_read);
    assert_eq!(
        bus.read_cs().unwrap(),
        Csw { data_transfer_len: 0, status: PASSED }
    );
}

#[test]
fn poll_waits_for_the_transfer_from_host() {
    let dma = OnePollBus { submitted: RefCell::new(Vec::new()), refuse: false };
    let mut bus = Bus::new();
    let mut scsi = scsi(1024);
    bus.write_cbw(512, 0x00, &write_10());
    let mut data = [0u8; 512];
    // the status comes too early: the transfer is in flight
    poll_transfer(&mut scsi, &mut bus, |mut cmd| {
        assert!(cmd.read_data_transfer(&dma, &mut data).is_err());
        cmd.pass();
    })
    .unwrap();
    poll_transfer(&mut scsi, &mut bus, |_cmd| panic!("the command has its status")).unwrap();
    assert!(bus.to_host.is_empty());
    assert!(!bus.in_stalled && !bus.out_stalled);
}

#[test]
fn status_ends_a_transfer_phase_to_the_host() {
    let dma = OnePollBus { submitted: RefCell::new(Vec::new()), refuse: false };
    let mut bus = Bus::new();
    let mut scsi = scsi(1024);
    bus.write_cbw(512, 0x80, &read_10());
    poll_transfer(&mut scsi, &mut bus, |mut cmd| {
        assert!(cmd.write_data_transfer(&dma, &[0; 512]).is_err());
        cmd.pass();
    })
    .unwrap();
    assert_eq!(
        bus.read_cs().unwrap(),
        Csw { data_transfer_len: 512, status: PASSED }
    );
}

#[test]
fn command_without_a_status_is_handed_out_again() {
    let mut bus = Bus::new();
    let mut scsi = scsi(1024);
    bus.write_cbw(0, 0x00, &[0x00, 0, 0, 0, 0, 0]);
    let mut asked = 0;
    for _ in 0..3 {
        poll(&mut scsi, &mut bus, |cmd| {
            asked += 1;
            match asked {
                1 => {}
                2 => cmd.leave(),
                _ => cmd.pass(),
            }
        })
        .unwrap();
    }
    assert_eq!(asked, 3);
    assert_eq!(
        bus.read_cs().unwrap(),
        Csw { data_transfer_len: 0, status: PASSED }
    );
}

#[test]
fn refused_transfer_ends_the_poll() {
    let dma = OnePollBus { submitted: RefCell::new(Vec::new()), refuse: true };
    let mut bus = Bus::new();
    let mut scsi = scsi(1024);
    bus.write_cbw(512, 0x80, &read_10());
    let mut asked = 0;
    poll_transfer(&mut scsi, &mut bus, |mut cmd| {
        asked += 1;
        assert!(cmd.write_data_transfer(&dma, &[0; 512]).is_err());
    })
    .unwrap();
    assert_eq!(asked, 1);
}

#[test]
fn transfer_to_host_in_two_polls() {
    let dma = OnePollBus { submitted: RefCell::new(Vec::new()), refuse: false };
    let mut bus = Bus::new();
    let mut scsi = scsi(1024);
    bus.write_cbw(512, 0x80, &read_10());
    for _ in 0..2 {
        poll_transfer(&mut scsi, &mut bus, |mut cmd| {
            if cmd.write_data_transfer(&dma, &[0; 512]) == Ok(512) {
                cmd.pass();
            }
        })
        .unwrap();
    }
    assert_eq!(
        bus.read_cs().unwrap(),
        Csw { data_transfer_len: 0, status: PASSED }
    );
}

#[test]
fn pipelined_transfers_through_the_command() {
    let dma = OnePollBus { submitted: RefCell::new(Vec::new()), refuse: false };
    let mut bus = Bus::new();
    let mut scsi = scsi(1024);
    bus.write_cbw(512, 0x80, &read_10());
    poll_transfer(&mut scsi, &mut bus, |mut cmd| {
        assert_eq!(cmd.write_data_transfer_pipelined(&dma, &[0; 256]), Ok(()));
        assert_eq!(cmd.poll_data_transfer(&dma), Ok(Some(256)));
        assert_eq!(cmd.poll_data_transfer(&dma), Ok(None));
        cmd.pass();
    })
    .unwrap();
    assert_eq!(
        bus.read_cs().unwrap(),
        Csw { data_transfer_len: 256, status: PASSED }
    );
}

#[test]
fn descriptors_of_the_function() {
    let class = Scsi::<BulkOnly>::new(InterfaceNumber(3), IN_EP, OUT_EP, 64, 0, vec![0u8; 64])
        .unwrap();
    assert_eq!(
        class.get_configuration_descriptors(),
        [
            Descriptor::Association {
                first: InterfaceNumber(3),
                count: 1,
                class: 0x08,
                subclass: 0x06,
                protocol: 0x50,
            },
            Descriptor::Interface {
                number: InterfaceNumber(3),
                alternate: 0,
                class: 0x08,
                subclass: 0x06,
                protocol: 0x50,
            },
            Descriptor::Endpoint { pipe: Pipe::DataIn },
            Descriptor::Endpoint { pipe: Pipe::DataOut },
        ]
    );
    assert_eq!(class.data_endpoints(), (IN_EP, OUT_EP));
    assert_eq!(class.interface(), InterfaceNumber(3));
}

#[test]
fn class_is_configured_like_its_transport() {
    let make = |max_lun: u8, len: usize| {
        Scsi::<BulkOnly>::new(InterfaceNumber(0), IN_EP, OUT_EP, 64, max_lun, vec![0u8; len]).err()
    };
    assert_eq!(make(15, 64), None);
    assert_eq!(make(16, 64), Some(BulkOnlyError::InvalidMaxLun));
    assert_eq!(make(15, 63), Some(BulkOnlyError::BufferTooSmall));
}

#[test]
fn reset_ends_the_command() {
    let mut bus = Bus::new();
    let mut scsi = scsi(1024);
    bus.write_cbw(512, 0x80, &read_10());
    poll_transfer(&mut scsi, &mut bus, |mut cmd| {
        cmd.try_write_data_all(&[1; 64]).unwrap();
    })
    .unwrap();
    assert_eq!(scsi.reset(), [Effect::UnstallIn, Effect::UnstallOut]);
    poll(&mut scsi, &mut bus, |_cmd| panic!("there is no command")).unwrap();
    let req = Request {
        request_type: RequestType::Class,
        recipient: Recipient::Interface,
        request: 0xFE,
        value: 0,
        index: 0,
    };
    assert_eq!(scsi.control_in(&req), Some(0));
}
