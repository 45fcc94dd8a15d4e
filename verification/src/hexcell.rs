//! What a cell's hardware, or a model of it, offers the core, and the
//! bookkeeping of its links.

use crate::display::LedBuffer;
use crate::hexapi_errors::{NetworkError, NetworkFault, PhyError};
use crate::messaging::Message;
use crate::ports::{port_index, HardPort, PORT_COUNT};
use vstd::prelude::*;

verus! {

/// A cell as the core drives it.
pub trait HexCell {
    /// Writes the colours to the LEDs.
    fn update_display(&mut self, buffer: &LedBuffer);

    /// Sends a signal.
    fn send_signal(&mut self, id: u8, value: u8) -> Result<(), PhyError>;

    /// Called when a signal has arrived.
    fn signal_handler(&mut self, id: u8, value: u8);

    /// Called when a neighbour has been connected to a port.
    fn port_connect_handler(&mut self, port: u8);

    /// Called when the neighbour on a port has gone.
    fn port_disconnect_handler(&mut self, port: u8);

    /// Sets the address of the cell.
    fn set_address(&mut self, address: u32) -> i16;

    /// The address of the cell.
    fn get_address(&self) -> u32;

    /// The unique id of the cell.
    fn get_uid(&self) -> u32;

    /// Takes the oldest message that has arrived, if there is one.
    fn get_message(&mut self) -> Option<Message>;

    /// Sends a message through the port its header names.
    fn send_message(&mut self, msg: &Message) -> Result<(), NetworkFault>;

    /// One tick of the whole cell at time `now`, in microseconds.
    fn update(&mut self, now: u32);
}

/// Whether bit `port` of `flags` is set.
pub open spec fn flag_set(flags: u8, port: u8) -> bool {
    port < 8 && (flags >> port) & 1 == 1
}

/// Which ports of a cell have a neighbour: one bit per port.
#[derive(Copy, Clone, Debug, PartialEq, Eq, Structural)]
pub struct PortLinks {
    pub flags: u8,
}

impl PortLinks {
    /// Whether `port` has a neighbour.
    pub open spec fn linked(self, port: u8) -> bool {
        port < PORT_COUNT && flag_set(self.flags, port)
    }

    /// No port has a neighbour.
    pub fn new() -> (links: PortLinks)
        ensures
            links.flags == 0,
            forall|port: u8| !links.linked(port),
    {
        assert(forall|port: u8| port < 8 ==> (0u8 >> port) & 1 != 1) by (bit_vector);
        PortLinks { flags: 0 }
    }

    /// Whether `port` has a neighbour.
    pub fn is_connected(&self, port: u8) -> (linked: bool)
        ensures
            linked == self.linked(port),
    {
        port < 6 && (self.flags >> port) & 1 == 1
    }

    /// Notes that `port` has a neighbour; a number that names no port changes
    /// nothing.
    pub fn port_connect_handler(&mut self, port: u8)
        ensures
            forall|other: u8|
                other < 8 ==> flag_set(final(self).flags, other) == (flag_set(
                    old(self).flags,
                    other,
                ) || (other == port && port < PORT_COUNT)),
            port >= PORT_COUNT ==> final(self).flags == old(self).flags,
    {
        if port < 6 {
            let flags: u8 = self.flags;
            let updated: u8 = flags | (1u8 << port);
            assert(forall|other: u8|
                other < 8 ==> ((updated >> other) & 1 == 1) == (((flags >> other) & 1 == 1)
                    || other == port)) by (bit_vector)
                requires
                    port < 6,
                    updated == flags | (1u8 << port),
            ;
            self.flags = updated;
        }
    }

    /// Notes that `port` has no neighbour; a number that names no port changes
    /// nothing.
    pub fn port_disconnect_handler(&mut self, port: u8)
        ensures
            forall|other: u8|
                other < 8 ==> flag_set(final(self).flags, other) == (flag_set(
                    old(self).flags,
                    other,
                ) && !(other == port && port < PORT_COUNT)),
            port >= PORT_COUNT ==> final(self).flags == old(self).flags,
    {
        if port < 6 {
            let flags: u8 = self.flags;
            let updated: u8 = flags & !(1u8 << port);
            assert(forall|other: u8|
                other < 8 ==> ((updated >> other) & 1 == 1) == (((flags >> other) & 1 == 1)
                    && other != port)) by (bit_vector)
                requires
                    port < 6,
                    updated == flags & !(1u8 << port),
            ;
            self.flags = updated;
        }
    }

    /// Decides whether a message can leave through port number `port`: the
    /// port it leaves through, or what stands in the way. A number that names
    /// no port is `InvalidPort`, a port without a neighbour `NotConnected`;
    /// either makes the destination unreachable.
    pub fn check_send(&self, port: u8) -> (route: Result<HardPort, NetworkFault>)
        ensures
            port >= PORT_COUNT ==> route is Err && route->Err_0 == (NetworkFault {
                kind: NetworkError::DestinationUnreachable,
                cause: Some(PhyError::InvalidPort),
            }),
            port < PORT_COUNT && !self.linked(port) ==> route is Err && route->Err_0
                == (NetworkFault {
                kind: NetworkError::DestinationUnreachable,
                cause: Some(PhyError::NotConnected),
            }),
            self.linked(port) ==> route is Ok && port_index(route->Ok_0) == port,
    {
        match HardPort::from_index(port) {
            None => Err(
                NetworkFault::chain(PhyError::InvalidPort, NetworkError::DestinationUnreachable),
            ),
            Some(hard_port) => {
                if self.is_connected(port) {
                    Ok(hard_port)
                } else {
                    Err(
                        NetworkFault::chain(
                            PhyError::NotConnected,
                            NetworkError::DestinationUnreachable,
                        ),
                    )
                }
            },
        }
    }
}

} // verus!
