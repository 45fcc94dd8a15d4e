use hexcell::display::{Led, LED_COUNT};
use hexcell::hexapi_errors::NetworkError;
use hexcell::hexcore::HexCellCore;
use hexcell::messaging::{Message, MessageBuffer};
use hexcell::networking::{
    Frame, MessageStatus, NetworkAction, NetworkId, NetworkQuery, NetworkState, POLL_INTERVAL,
    MAX_QUEUED_MESSAGES,
};
use hexcell::patterns::{PatternBuilder, PatternElement, PatternId};
use hexcell::ports::HardPort;
use hexcell::scheduler::Scheduler;

const OWN: NetworkId = NetworkId { x: 0, y: 0, uid: 42 };

fn idle_core(scheduler: &mut Scheduler) -> HexCellCore {
    let mut core = HexCellCore::new(OWN);
    scheduler.init(0);
    core.init(scheduler, 0);
    core.tick(scheduler, POLL_INTERVAL);
    assert_eq!(core.network.state(), NetworkState::IDLE);
    core
}

#[test]
fn lone_cell_boots_as_the_root_without_any_message() {
    let mut scheduler = Scheduler::new();
    scheduler.init(1_000);
    let mut core = HexCellCore::new(NetworkId { x: 3, y: 3, uid: 42 });
    assert_eq!(core.network.state(), NetworkState::UNINITIALIZED);
    assert_eq!(core.init(&mut scheduler, 1_000), NetworkAction::Nothing);
    assert_eq!(core.network.state(), NetworkState::INITIALIZING);
    // Before the poll is due nothing happens.
    assert_eq!(core.tick(&mut scheduler, 1_000 + POLL_INTERVAL - 1), Vec::<NetworkAction>::new());
    assert_eq!(core.network.state(), NetworkState::INITIALIZING);
    assert_eq!(core.tick(&mut scheduler, 1_000 + POLL_INTERVAL), vec![NetworkAction::Nothing]);
    assert_eq!(core.network.state(), NetworkState::IDLE);
    assert_eq!(core.network.id(), NetworkId { x: 0, y: 0, uid: 42 });
    assert_eq!(core.inbox.len(), 0);
}

#[test]
fn tick_answers_one_waiting_message() {
    let mut scheduler = Scheduler::new();
    let mut core = idle_core(&mut scheduler);
    let getid = Frame {
        port: HardPort::PORT_A,
        status: MessageStatus::STATUS_QUERY,
        query: NetworkQuery::GETID,
        tag: 1,
        id: NetworkId { x: 0, y: 1, uid: 5 },
    };
    assert!(core.receive(getid.to_message()).is_ok());
    assert!(core.receive(Frame { tag: 2, ..getid }.to_message()).is_ok());
    let answer = Frame { status: MessageStatus::STATUS_OK, id: OWN, ..getid };
    assert_eq!(
        core.tick(&mut scheduler, POLL_INTERVAL + 1),
        vec![NetworkAction::Send(answer)]
    );
    assert_eq!(core.inbox.len(), 1);
    assert_eq!(
        core.tick(&mut scheduler, POLL_INTERVAL + 2),
        vec![NetworkAction::Send(Frame { tag: 2, ..answer })]
    );
    assert_eq!(core.inbox.len(), 0);
}

#[test]
fn tick_takes_fired_tasks_before_the_message() {
    let mut scheduler = Scheduler::new();
    let mut core = idle_core(&mut scheduler);
    let getid = Frame {
        port: HardPort::PORT_A,
        status: MessageStatus::STATUS_QUERY,
        query: NetworkQuery::GETID,
        tag: 1,
        id: NetworkId { x: 0, y: 1, uid: 5 },
    };
    assert!(core.receive(getid.to_message()).is_ok());
    assert_eq!(
        core.tick(&mut scheduler, 2 * POLL_INTERVAL),
        vec![
            NetworkAction::Nothing,
            NetworkAction::Send(Frame { status: MessageStatus::STATUS_OK, id: OWN, ..getid }),
        ]
    );
}

#[test]
fn message_that_holds_no_frame_sends_the_cell_to_error() {
    let mut scheduler = Scheduler::new();
    let mut core = idle_core(&mut scheduler);
    let mut body = MessageBuffer::new();
    body.push(1).unwrap();
    assert!(core.receive(Message::new(0, 3, &body)).is_ok());
    assert_eq!(core.tick(&mut scheduler, POLL_INTERVAL + 1), vec![NetworkAction::Nothing]);
    assert_eq!(core.network.state(), NetworkState::ERROR);
    assert_eq!(core.network.last_error(), Some(NetworkError::InvalidMessageContents));
}

#[test]
fn query_put_off_by_a_busy_cell_waits_in_the_queue() {
    let mut scheduler = Scheduler::new();
    let mut core = idle_core(&mut scheduler);
    let assign = core.port_connect_handler(&mut scheduler, 1);
    assert!(matches!(assign, NetworkAction::Send(_)));
    assert_eq!(core.network.state(), NetworkState::BUSY);
    let getid = Frame {
        port: HardPort::PORT_B,
        status: MessageStatus::STATUS_QUERY,
        query: NetworkQuery::GETID,
        tag: 0,
        id: NetworkId { x: 1, y: 1, uid: 5 },
    };
    assert!(core.receive(getid.to_message()).is_ok());
    assert_eq!(core.tick(&mut scheduler, POLL_INTERVAL + 1), vec![NetworkAction::Defer(getid)]);
    assert_eq!(core.inbox.len(), 1);
    // The acknowledgement arrives behind it and is taken a tick later.
    let ack = Frame {
        port: HardPort::PORT_B,
        status: MessageStatus::STATUS_ACK,
        query: NetworkQuery::SETID,
        tag: 0,
        id: NetworkId { x: 1, y: 1, uid: 5 },
    };
    assert!(core.receive(ack.to_message()).is_ok());
    assert_eq!(core.tick(&mut scheduler, POLL_INTERVAL + 2), vec![NetworkAction::Defer(getid)]);
    assert_eq!(core.tick(&mut scheduler, POLL_INTERVAL + 3), vec![NetworkAction::Nothing]);
    assert_eq!(core.network.state(), NetworkState::IDLE);
    assert_eq!(
        core.tick(&mut scheduler, POLL_INTERVAL + 4),
        vec![NetworkAction::Send(Frame { status: MessageStatus::STATUS_OK, id: OWN, ..getid })]
    );
    assert_eq!(core.inbox.len(), 0);
}

#[test]
fn port_handlers_pass_over_numbers_that_name_no_port() {
    let mut scheduler = Scheduler::new();
    let mut core = idle_core(&mut scheduler);
    assert_eq!(core.port_connect_handler(&mut scheduler, 6), NetworkAction::Nothing);
    assert_eq!(core.port_disconnect_handler(&mut scheduler, 200), NetworkAction::Nothing);
    assert_eq!(core.network.state(), NetworkState::IDLE);
}

#[test]
fn full_inbox_hands_the_message_back() {
    let mut core = HexCellCore::new(OWN);
    let body = MessageBuffer::new();
    for port in 0..MAX_QUEUED_MESSAGES as u8 {
        assert!(core.receive(Message::new(port, 0, &body)).is_ok());
    }
    let back = core.receive(Message::new(77, 0, &body)).err().unwrap();
    assert_eq!(back.header.port, 77);
    assert_eq!(core.inbox.len(), MAX_QUEUED_MESSAGES);
    assert_eq!(core.inbox.dropped_count(), 1);
}

#[test]
fn tick_runs_the_patterns_for_the_time_since_the_last_tick() {
    let mut scheduler = Scheduler::new();
    let mut core = HexCellCore::new(OWN);
    core.init(&mut scheduler, 500);
    let red = Led { r: 255, g: 0, b: 0 };
    let blink = PatternBuilder::new()
        .then(PatternElement { pattern: PatternId::Blink, color: red, duration: 1_000_000 })
        .finish();
    core.pattern_engine.start();
    for led in 0..LED_COUNT {
        assert_eq!(core.pattern_engine.set_pattern(led, blink.clone()), Ok(()));
        assert_eq!(core.pattern_engine.set_cursor_to_pattern(led, led, true), Ok(()));
    }
    core.tick(&mut scheduler, 500 + 499_999);
    assert_eq!(core.pattern_buffer(), [Led { r: 0, g: 0, b: 0 }; LED_COUNT]);
    core.tick(&mut scheduler, 500 + 500_000);
    assert_eq!(core.pattern_buffer(), [red; LED_COUNT]);
    assert_eq!(core.last_tick, 500_500);
}

#[test]
fn tick_measures_time_across_the_wrap_of_the_clock() {
    let mut scheduler = Scheduler::new();
    let mut core = HexCellCore::new(OWN);
    core.init(&mut scheduler, u32::MAX - 99);
    let green = Led { r: 0, g: 255, b: 0 };
    let blink = PatternBuilder::new()
        .then(PatternElement { pattern: PatternId::Blink, color: green, duration: 400 })
        .finish();
    core.pattern_engine.start();
    assert_eq!(core.pattern_engine.set_pattern(0, blink), Ok(()));
    assert_eq!(core.pattern_engine.set_cursor_to_pattern(0, 0, false), Ok(()));
    // From 2^32 - 100 to 99 is 199 microseconds.
    core.tick(&mut scheduler, 99);
    assert_eq!(core.pattern_buffer()[0], Led { r: 0, g: 0, b: 0 });
    core.tick(&mut scheduler, 100);
    assert_eq!(core.pattern_buffer()[0], green);
}
