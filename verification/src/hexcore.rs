//! The core of one cell: its network layer, its pattern engine and the queue
//! of messages that have arrived, ticked together.

use crate::display::{LedBuffer, LED_COUNT};
use crate::messaging::{Message, MessageView};
use crate::networking::{
    fresh_network, handle_after_step, handle_with_poll, indexed_port, init_step, message_frame,
    step_taken, tasks_after_step, tasks_with_poll, update_step, Frame, MessageQueueFSM,
    NetworkAction, NetworkEvent, NetworkFSM, NetworkId, NetworkModel, MAX_QUEUED_MESSAGES,
};
use crate::patterns::{step_color, step_cursor, PatternEngine};
use crate::ports::HardPort;
use crate::scheduler::{
    tasks_after, tasks_fired, wrapping_elapsed, FiredTask, Scheduler, TaskData, TaskKind,
};
use vstd::prelude::*;

verus! {

/// The event that a fired task brings the network layer.
pub open spec fn task_event(task: FiredTask) -> NetworkEvent {
    match task.kind {
        TaskKind::NetworkPoll => NetworkEvent::Poll,
        TaskKind::NetworkTimeout => NetworkEvent::Timeout(task.handle),
    }
}

/// The event that a message brings the network layer: the frame it holds, or
/// the reason it holds none.
pub open spec fn message_event(message: MessageView) -> NetworkEvent {
    match message_frame(message) {
        Ok(frame) => NetworkEvent::Received(frame),
        Err(error) => NetworkEvent::Malformed(error),
    }
}

/// The network layer and the scheduler in the course of a tick, with what
/// the host has been asked to do so far.
pub struct Dispatch {
    pub network: NetworkModel,
    pub tasks: Seq<TaskData>,
    pub next: u32,
    pub actions: Seq<NetworkAction>,
}

/// One event handed to the network layer.
pub open spec fn dispatch_event(before: Dispatch, event: NetworkEvent) -> Dispatch {
    let step = update_step(before.network, before.tasks, before.next, event);
    Dispatch {
        network: step.model,
        tasks: tasks_after_step(before.tasks, before.next, step),
        next: handle_after_step(before.next, step),
        actions: before.actions.push(step.action),
    }
}

/// The fired tasks handed to the network layer, in the order they fired.
pub open spec fn dispatch_fired(start: Dispatch, fired: Seq<FiredTask>) -> Dispatch
    decreases fired.len(),
{
    if fired.len() == 0 {
        start
    } else {
        dispatch_event(dispatch_fired(start, fired.drop_last()), task_event(fired.last()))
    }
}

/// The oldest waiting message, if there is one, handed to the network layer.
pub open spec fn dispatch_inbox(before: Dispatch, inbox: Seq<MessageView>) -> Dispatch {
    if inbox.len() > 0 {
        dispatch_event(before, message_event(inbox[0]))
    } else {
        before
    }
}

/// The waiting messages after a tick: the oldest has been taken, and waits
/// again behind the others where the network layer has put it off.
pub open spec fn inbox_after(before: Dispatch, inbox: Seq<MessageView>) -> Seq<MessageView> {
    if inbox.len() > 0 {
        if dispatch_inbox(before, inbox).actions.last() is Defer {
            inbox.drop_first().push(inbox[0])
        } else {
            inbox.drop_first()
        }
    } else {
        inbox
    }
}

/// The network layer and the scheduler after a tick at time `now`: the
/// scheduler makes its pass, the tasks that fired go to the network layer,
/// then the oldest waiting message.
pub open spec fn tick_dispatch(
    network: NetworkModel,
    tasks: Seq<TaskData>,
    next: u32,
    scheduler_tick: u32,
    inbox: Seq<MessageView>,
    now: u32,
) -> Dispatch {
    dispatch_inbox(
        dispatch_fired(
            Dispatch {
                network,
                tasks: tasks_after(tasks, wrapping_elapsed(scheduler_tick, now)),
                next,
                actions: Seq::empty(),
            },
            tasks_fired(tasks, wrapping_elapsed(scheduler_tick, now)),
        ),
        inbox,
    )
}

/// The core of one cell.
pub struct HexCellCore {
    pub network: NetworkFSM,
    pub pattern_engine: PatternEngine,
    pub inbox: MessageQueueFSM,
    pub last_tick: u32,
}

impl HexCellCore {
    /// The core of a cell with the given id: a network layer that has not
    /// started, a fresh pattern engine, no waiting message.
    pub fn new(id: NetworkId) -> (core: HexCellCore)
        ensures
            core.network@ == fresh_network(id),
            core.pattern_engine.is_fresh(),
            core.inbox.messages() == Seq::<MessageView>::empty(),
            core.last_tick == 0,
    {
        HexCellCore {
            network: NetworkFSM::new(id),
            pattern_engine: PatternEngine::new(),
            inbox: MessageQueueFSM::new(),
            last_tick: 0,
        }
    }

    /// Starts the cell at time `now`: the network layer queues its poll task
    /// and takes a first poll.
    pub fn init(&mut self, scheduler: &mut Scheduler, now: u32) -> (action: NetworkAction)
        ensures
            final(self).network@ == init_step(
                old(self).network@,
                old(scheduler).tasks(),
                old(scheduler).next_handle(),
            ).model,
            action == init_step(
                old(self).network@,
                old(scheduler).tasks(),
                old(scheduler).next_handle(),
            ).action,
            final(scheduler).tasks() == tasks_after_step(
                tasks_with_poll(old(scheduler).tasks(), old(scheduler).next_handle()),
                handle_with_poll(old(scheduler).tasks(), old(scheduler).next_handle()),
                init_step(
                    old(self).network@,
                    old(scheduler).tasks(),
                    old(scheduler).next_handle(),
                ),
            ),
            final(scheduler).next_handle() == handle_after_step(
                handle_with_poll(old(scheduler).tasks(), old(scheduler).next_handle()),
                init_step(
                    old(self).network@,
                    old(scheduler).tasks(),
                    old(scheduler).next_handle(),
                ),
            ),
            final(scheduler).last_tick() == old(scheduler).last_tick(),
            final(self).last_tick == now,
            final(self).pattern_engine == old(self).pattern_engine,
            final(self).inbox == old(self).inbox,
    {
        let action = self.network.init(scheduler);
        self.last_tick = now;
        action
    }

    /// Takes in a message that has arrived; it waits for a tick. A full queue
    /// hands the message back.
    pub fn receive(&mut self, message: Message) -> (queued: Result<(), Message>)
        ensures
            old(self).inbox.messages().len() < MAX_QUEUED_MESSAGES ==> queued is Ok
                && final(self).inbox.messages() == old(self).inbox.messages().push(message@),
            old(self).inbox.messages().len() >= MAX_QUEUED_MESSAGES ==> queued is Err
                && queued->Err_0@ == message@
                    && final(self).inbox.messages() == old(self).inbox.messages(),
            final(self).network == old(self).network,
            final(self).pattern_engine == old(self).pattern_engine,
            final(self).last_tick == old(self).last_tick,
    {
        self.inbox.enqueue(message)
    }

    /// One tick at time `now`. The scheduler makes its pass; the network
    /// layer takes the tasks that fired, then the oldest waiting message;
    /// the pattern engine runs for the time since the last tick. Returns
    /// what the network layer asks of the host, in order.
    pub fn tick(&mut self, scheduler: &mut Scheduler, now: u32) -> (actions: Vec<NetworkAction>)
        ensures
            final(self).network@ == tick_dispatch(
                old(self).network@,
                old(scheduler).tasks(),
                old(scheduler).next_handle(),
                old(scheduler).last_tick(),
                old(self).inbox.messages(),
                now,
            ).network,
            actions@ == tick_dispatch(
                old(self).network@,
                old(scheduler).tasks(),
                old(scheduler).next_handle(),
                old(scheduler).last_tick(),
                old(self).inbox.messages(),
                now,
            ).actions,
            final(scheduler).tasks() == tick_dispatch(
                old(self).network@,
                old(scheduler).tasks(),
                old(scheduler).next_handle(),
                old(scheduler).last_tick(),
                old(self).inbox.messages(),
                now,
            ).tasks,
            final(scheduler).next_handle() == tick_dispatch(
                old(self).network@,
                old(scheduler).tasks(),
                old(scheduler).next_handle(),
                old(scheduler).last_tick(),
                old(self).inbox.messages(),
                now,
            ).next,
            final(scheduler).last_tick() == now,
            final(self).inbox.messages() == inbox_after(
                dispatch_fired(
                    Dispatch {
                        network: old(self).network@,
                        tasks: tasks_after(
                            old(scheduler).tasks(),
                            wrapping_elapsed(old(scheduler).last_tick(), now),
                        ),
                        next: old(scheduler).next_handle(),
                        actions: Seq::empty(),
                    },
                    tasks_fired(
                        old(scheduler).tasks(),
                        wrapping_elapsed(old(scheduler).last_tick(), now),
                    ),
                ),
                old(self).inbox.messages(),
            ),
            final(self).pattern_engine.patterns() == old(self).pattern_engine.patterns(),
            forall|i: int|
                0 <= i < LED_COUNT ==> #[trigger] final(self).pattern_engine.cursors()[i]
                    == step_cursor(
                    old(self).pattern_engine.cursors()[i],
                    old(self).pattern_engine.patterns(),
                    wrapping_elapsed(old(self).last_tick, now),
                ),
            forall|i: int|
                0 <= i < LED_COUNT ==> #[trigger] final(self).pattern_engine.output()[i]
                    == step_color(
                    old(self).pattern_engine.cursors()[i],
                    old(self).pattern_engine.patterns(),
                    wrapping_elapsed(old(self).last_tick, now),
                    old(self).pattern_engine.output()[i],
                ),
            final(self).last_tick == now,
    {
        let delta: u32 = now.wrapping_sub(self.last_tick);
        let ghost start = Dispatch {
            network: self.network@,
            tasks: tasks_after(
                scheduler.tasks(),
                wrapping_elapsed(scheduler.last_tick(), now),
            ),
            next: scheduler.next_handle(),
            actions: Seq::empty(),
        };
        let fired = scheduler.run(now);
        let mut actions: Vec<NetworkAction> = Vec::new();
        let mut idx: usize = 0;
        while idx < fired.len()
            invariant
                idx <= fired.len(),
                scheduler.last_tick() == now,
                self.pattern_engine == old(self).pattern_engine,
                self.inbox == old(self).inbox,
                self.last_tick == old(self).last_tick,
                dispatch_fired(start, fired@.take(idx as int)) == (Dispatch {
                    network: self.network@,
                    tasks: scheduler.tasks(),
                    next: scheduler.next_handle(),
                    actions: actions@,
                }),
            decreases fired.len() - idx,
        {
            proof {
                assert(fired@.take(idx as int + 1).drop_last() == fired@.take(idx as int));
                assert(fired@.take(idx as int + 1).last() == fired@[idx as int]);
            }
            let task = fired[idx];
            let event = match task.kind {
                TaskKind::NetworkPoll => NetworkEvent::Poll,
                TaskKind::NetworkTimeout => NetworkEvent::Timeout(task.handle),
            };
            let action = self.network.update(scheduler, event);
            actions.push(action);
            idx = idx + 1;
        }
        assert(fired@.take(fired.len() as int) == fired@);
        if self.inbox.len() > 0 {
            match self.inbox.dequeue() {
                Ok(message) => {
                    let event = match Frame::from_message(&message) {
                        Ok(frame) => NetworkEvent::Received(frame),
                        Err(error) => NetworkEvent::Malformed(error),
                    };
                    assert(event == message_event(old(self).inbox.messages()[0]));
                    let ghost before = Dispatch {
                        network: self.network@,
                        tasks: scheduler.tasks(),
                        next: scheduler.next_handle(),
                        actions: actions@,
                    };
                    let action = self.network.update(scheduler, event);
                    actions.push(action);
                    assert(dispatch_inbox(before, old(self).inbox.messages()).actions.last()
                        == action);
                    match action {
                        NetworkAction::Defer(_) => {
                            let _ = self.inbox.enqueue(message);
                        },
                        _ => {},
                    }
                },
                Err(_) => {},
            }
        }
        let _ = self.pattern_engine.run(delta);
        self.last_tick = now;
        actions
    }

    /// Tells the network layer that a neighbour was connected to port number
    /// `port`; a number that names no port changes nothing.
    pub fn port_connect_handler(&mut self, scheduler: &mut Scheduler, port: u8) -> (action:
        NetworkAction)
        ensures
            port >= 6 ==> action == NetworkAction::Nothing
                && final(self).network@ == old(self).network@
                && final(scheduler).tasks() == old(scheduler).tasks(),
            port < 6 ==> step_taken(
                update_step(
                    old(self).network@,
                    old(scheduler).tasks(),
                    old(scheduler).next_handle(),
                    NetworkEvent::PortConnected(indexed_port(port)),
                ),
                final(self).network@,
                action,
                *old(scheduler),
                *final(scheduler),
            ),
    {
        match HardPort::from_index(port) {
            Some(hard_port) => self.network.update(
                scheduler,
                NetworkEvent::PortConnected(hard_port),
            ),
            None => NetworkAction::Nothing,
        }
    }

    /// Tells the network layer that the neighbour on port number `port` has
    /// gone; a number that names no port changes nothing.
    pub fn port_disconnect_handler(&mut self, scheduler: &mut Scheduler, port: u8) -> (action:
        NetworkAction)
        ensures
            port >= 6 ==> action == NetworkAction::Nothing
                && final(self).network@ == old(self).network@
                && final(scheduler).tasks() == old(scheduler).tasks(),
            port < 6 ==> step_taken(
                update_step(
                    old(self).network@,
                    old(scheduler).tasks(),
                    old(scheduler).next_handle(),
                    NetworkEvent::PortDisconnected(indexed_port(port)),
                ),
                final(self).network@,
                action,
                *old(scheduler),
                *final(scheduler),
            ),
    {
        match HardPort::from_index(port) {
            Some(hard_port) => self.network.update(
                scheduler,
                NetworkEvent::PortDisconnected(hard_port),
            ),
            None => NetworkAction::Nothing,
        }
    }

    /// The colours the pattern engine shows.
    pub fn pattern_buffer(&self) -> (frame: LedBuffer)
        ensures
            frame@ == self.pattern_engine.output(),
    {
        self.pattern_engine.get_output_buffer()
    }
}

} // verus!
