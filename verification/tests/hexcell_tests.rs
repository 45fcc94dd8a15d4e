use hexcell::display::{Display, Led, LedBuffer};
use hexcell::hexapi_errors::{GenError, NetworkError, NetworkFault, PhyError};
use hexcell::hexcell::{HexCell, PortLinks};
use hexcell::hexcore_errors::{CoreError, PatternError};
use hexcell::logging::LogLevel;
use hexcell::messaging::{Message, MessageBuffer, MessageHeader, MESSAGE_SIZE, QUEUE_LENGTH};
use hexcell::networking::GraphInfo;
use hexcell::ports::HardPort;
use hexcell::timer::Timer32;

struct Panel {
    shown: LedBuffer,
    updates: u32,
}

impl HexCell for &mut Panel {
    fn update_display(&mut self, buffer: &LedBuffer) {
        self.shown = *buffer;
        self.updates += 1;
    }

    fn send_signal(&mut self, _id: u8, _value: u8) -> Result<(), PhyError> {
        Err(PhyError::InvalidSignal)
    }

    fn signal_handler(&mut self, _id: u8, _value: u8) {}

    fn port_connect_handler(&mut self, _port: u8) {}

    fn port_disconnect_handler(&mut self, _port: u8) {}

    fn set_address(&mut self, _address: u32) -> i16 {
        0
    }

    fn get_address(&self) -> u32 {
        0
    }

    fn get_uid(&self) -> u32 {
        0
    }

    fn get_message(&mut self) -> Option<Message> {
        None
    }

    fn send_message(&mut self, _msg: &Message) -> Result<(), NetworkFault> {
        Err(NetworkFault::new(NetworkError::InvalidConfiguration))
    }

    fn update(&mut self, _now: u32) {}
}

struct Stopped(u32);

impl Timer32 for Stopped {
    fn now(&self) -> u32 {
        self.0
    }
}

#[test]
fn commit_hands_the_colours_to_the_device() {
    let mut panel = Panel { shown: [Led { r: 9, g: 9, b: 9 }; 9], updates: 0 };
    let mut display = Display::new();
    display.set_led(2, Led { r: 1, g: 2, b: 3 });
    display.commit(&mut panel);
    assert_eq!(panel.updates, 1);
    assert_eq!(panel.shown, display.leds);
    assert_eq!(panel.shown[2], Led { r: 1, g: 2, b: 3 });
}

#[test]
fn timer_is_read_through_the_trait() {
    let timer: &dyn Timer32 = &Stopped(77);
    assert_eq!(timer.now(), 77);
}

#[test]
fn new_links_are_all_down() {
    let links = PortLinks::new();
    assert_eq!(links.flags, 0);
    for port in 0..=255u8 {
        assert!(!links.is_connected(port));
    }
}

#[test]
fn connect_and_disconnect_set_and_clear_one_bit() {
    let mut links = PortLinks::new();
    links.port_connect_handler(0);
    links.port_connect_handler(4);
    assert_eq!(links.flags, 0b01_0001);
    assert!(links.is_connected(0) && links.is_connected(4));
    assert!(!links.is_connected(1) && !links.is_connected(5));
    links.port_connect_handler(4);
    assert_eq!(links.flags, 0b01_0001);
    links.port_disconnect_handler(0);
    assert_eq!(links.flags, 0b01_0000);
    links.port_disconnect_handler(3);
    assert_eq!(links.flags, 0b01_0000);
}

#[test]
fn handlers_pass_over_numbers_that_name_no_port() {
    let mut links = PortLinks { flags: 0b10_1010 };
    for port in [6, 7, 8, 64, 255] {
        links.port_connect_handler(port);
        links.port_disconnect_handler(port);
        assert_eq!(links.flags, 0b10_1010);
        assert!(!links.is_connected(port));
    }
}

#[test]
fn check_send_names_what_stands_in_the_way() {
    let mut links = PortLinks::new();
    links.port_connect_handler(2);
    assert_eq!(links.check_send(2), Ok(HardPort::PORT_C));
    assert_eq!(
        links.check_send(3),
        Err(NetworkFault {
            kind: NetworkError::DestinationUnreachable,
            cause: Some(PhyError::NotConnected),
        })
    );
    for port in [6, 7, 200] {
        assert_eq!(
            links.check_send(port),
            Err(NetworkFault {
                kind: NetworkError::DestinationUnreachable,
                cause: Some(PhyError::InvalidPort),
            })
        );
    }
}

#[test]
fn flag_of_a_number_beyond_the_ports_does_not_connect_it() {
    let links = PortLinks { flags: 0xFF };
    assert!(links.is_connected(5));
    assert!(!links.is_connected(6));
    assert!(!links.is_connected(7));
}

#[test]
fn faults_with_and_without_a_cause() {
    assert_eq!(
        NetworkFault::new(NetworkError::Timeout),
        NetworkFault { kind: NetworkError::Timeout, cause: None }
    );
    assert_eq!(
        NetworkFault::chain(PhyError::LocalResourceBusy, NetworkError::InvalidConfiguration),
        NetworkFault {
            kind: NetworkError::InvalidConfiguration,
            cause: Some(PhyError::LocalResourceBusy),
        }
    );
}

#[test]
fn error_kinds_are_told_apart() {
    assert_ne!(PhyError::UartError, PhyError::SPIError);
    assert_ne!(PhyError::DMAError, PhyError::RemoteResourceBusy);
    assert_ne!(NetworkError::InvalidAddress, NetworkError::ChecksumFailure);
    assert_ne!(GenError::ExistingConnectionError, GenError::EmptyQueueError);
    assert_ne!(CoreError::CommandError, CoreError::PatternError);
    assert_ne!(PatternError::PatternCountError, PatternError::PatternSizeError);
}

#[test]
fn message_copies_the_buffer_and_states_its_length() {
    let mut data = MessageBuffer::new();
    for byte in [10u8, 20, 30] {
        data.push(byte).unwrap();
    }
    let message = Message::new(4, 1, &data);
    data.push(40).unwrap();
    assert_eq!(message.header, MessageHeader { port: 4, status: 1, length: 3 });
    assert_eq!(message.body.as_slice(), &[10, 20, 30]);
    let copy = message.clone();
    assert_eq!(copy.header, message.header);
    assert_eq!(copy.body.as_slice(), &[10, 20, 30]);
}

#[test]
fn message_of_the_largest_size() {
    let mut data = MessageBuffer::new();
    for byte in 0..MESSAGE_SIZE {
        data.push(byte as u8).unwrap();
    }
    assert!(data.push(0).is_err());
    let message = Message::new(0, 0, &data);
    assert_eq!(message.header.length, 256);
    assert_eq!(message.body.len(), MESSAGE_SIZE);
    assert_eq!(message.body[255], 255);
    assert_eq!(QUEUE_LENGTH, 16);
}

#[test]
fn default_header_is_all_zero() {
    assert_eq!(MessageHeader::default(), MessageHeader { port: 0, status: 0, length: 0 });
}

#[test]
fn log_levels_are_ordered_by_their_numbers() {
    let levels = [
        LogLevel::OFF,
        LogLevel::TRACE,
        LogLevel::DEBUG,
        LogLevel::INFO,
        LogLevel::WARN,
        LogLevel::ERROR,
        LogLevel::FATAL,
        LogLevel::MAX,
    ];
    for (number, level) in levels.iter().enumerate() {
        assert_eq!(level.number() as usize, number);
    }
    assert_eq!(LogLevel::default(), LogLevel::INFO);
    assert!(LogLevel::ERROR.passes(LogLevel::WARN));
    assert!(LogLevel::WARN.passes(LogLevel::WARN));
    assert!(!LogLevel::DEBUG.passes(LogLevel::WARN));
    assert!(LogLevel::OFF < LogLevel::TRACE && LogLevel::FATAL < LogLevel::MAX);
}

#[test]
fn graph_info_holds_the_number_of_cells() {
    assert_eq!(GraphInfo { rank: 12 }.rank, 12);
}
