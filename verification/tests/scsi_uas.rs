use usbd_storage::subclass::scsi::{PollNext, Scsi, ScsiUas};
use usbd_storage::transport::bbb::{BulkOnly, BulkOnlyError};
use usbd_storage::usb::{
    pipe_usage_body, Descriptor, Effect, EndpointAddress, InterfaceNumber, Pipe, Recipient,
    Request, RequestType, UsbError, PIPE_USAGE,
};

const INTERFACE: InterfaceNumber = InterfaceNumber(2);
const IN_EP: EndpointAddress = EndpointAddress(0x81);
const OUT_EP: EndpointAddress = EndpointAddress(0x01);

fn class() -> ScsiUas<u32> {
    ScsiUas::new(INTERFACE, IN_EP, OUT_EP, 64, 0, vec![0u8; 64], 7).unwrap()
}

#[test]
fn bulk_only_is_active_at_first() {
    let mut class = class();
    assert_eq!(class.active_alt(), 0);
    assert_eq!(class.get_alt_setting(INTERFACE), Some(0));
    assert_eq!(class.get_alt_setting(InterfaceNumber(0)), None);
    assert_eq!(class.data_pipe_addresses(), (IN_EP, OUT_EP));
    assert!(matches!(class.poll_transfer().next, PollNext::ReadPacket { max_len: 64 }));
    assert!(matches!(
        class.inner().packet_read(Err(UsbError::WouldBlock)).next,
        PollNext::Done { result: Ok(()) }
    ));
}

#[test]
fn polling_does_nothing_under_uas() {
    let mut class = class();
    class.set_alt_setting(INTERFACE, 1).unwrap();
    let step = class.poll_transfer();
    assert!(step.effects.is_empty());
    assert!(matches!(step.next, PollNext::Done { result: Ok(()) }));
    assert_eq!(class.active_alt(), 1);
}

#[test]
fn switching_resets_both_settings() {
    let mut class = class();
    let effects = [Effect::UnstallIn, Effect::UnstallOut, Effect::ResetUas];
    assert_eq!(class.set_alt_setting(INTERFACE, 1), Some(effects.to_vec()));
    assert_eq!(class.get_alt_setting(INTERFACE), Some(1));
    assert_eq!(class.set_alt_setting(INTERFACE, 2), None);
    assert_eq!(class.set_alt_setting(InterfaceNumber(0), 0), None);
    assert_eq!(class.active_alt(), 1);
    assert_eq!(class.set_alt_setting(INTERFACE, 0), Some(effects.to_vec()));
    assert_eq!(class.active_alt(), 0);
    class.set_alt_setting(INTERFACE, 1).unwrap();
    assert_eq!(class.reset(), effects);
    assert_eq!(class.active_alt(), 0);
}

#[test]
fn engine_is_handed_out() {
    let mut class = class();
    assert_eq!(*class.uas(), 7);
    *class.uas() = 8;
    class.reset();
    assert_eq!(*class.uas(), 8);
}

#[test]
fn construction_errors_are_those_of_the_transport() {
    let make = |max_lun: u8, len: usize| {
        ScsiUas::new(INTERFACE, IN_EP, OUT_EP, 64, max_lun, vec![0u8; len], ()).err()
    };
    assert_eq!(make(0, 64), None);
    assert_eq!(make(16, 64), Some(BulkOnlyError::InvalidMaxLun));
    assert_eq!(make(0, 63), Some(BulkOnlyError::BufferTooSmall));
}

#[test]
fn descriptors_of_both_settings() {
    let bot = Scsi::<BulkOnly>::new(INTERFACE, IN_EP, OUT_EP, 64, 0, vec![0u8; 64]).unwrap();
    let descriptors = class().get_configuration_descriptors();
    assert_eq!(descriptors[..4], bot.get_configuration_descriptors()[..]);
    assert_eq!(
        descriptors[4..],
        [
            Descriptor::Interface {
                number: INTERFACE,
                alternate: 1,
                class: 0x08,
                subclass: 0x06,
                protocol: 0x62,
            },
            Descriptor::Endpoint { pipe: Pipe::DataIn },
            Descriptor::PipeUsage { id: 3 },
            Descriptor::Endpoint { pipe: Pipe::DataOut },
            Descriptor::PipeUsage { id: 4 },
            Descriptor::Endpoint { pipe: Pipe::Status },
            Descriptor::PipeUsage { id: 2 },
            Descriptor::Endpoint { pipe: Pipe::Command },
            Descriptor::PipeUsage { id: 1 },
        ]
    );
}

#[test]
fn pipe_usage_bytes() {
    assert_eq!(PIPE_USAGE, 0x24);
    assert_eq!(pipe_usage_body(3), [3, 0]);
}

#[test]
fn control_requests_are_forwarded() {
    let class: ScsiUas<()> =
        ScsiUas::new(INTERFACE, IN_EP, OUT_EP, 64, 3, vec![0u8; 64], ()).unwrap();
    let max_lun = Request {
        request_type: RequestType::Class,
        recipient: Recipient::Interface,
        request: 0xFE,
        value: 0,
        index: 2,
    };
    assert_eq!(class.control_in(&max_lun), Some(3));
    let clear_halt = Request {
        request_type: RequestType::Standard,
        recipient: Recipient::Endpoint,
        request: 1,
        value: 0,
        index: 0x81,
    };
    assert!(!class.control_out(&clear_halt));
}
