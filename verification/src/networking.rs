//! Addresses, the frames cells exchange, routing, and the state machine by
//! which a cell finds its place in the mesh.

use crate::bounded::{
    buffer_bytes, bytes_get, bytes_len, bytes_new, bytes_push, messages_dequeue, messages_enqueue,
    messages_len, messages_new, queued_messages,
};
use crate::hexapi_errors::{GenError, NetworkError};
use crate::hexcore_errors::SchedulerError;
use crate::messaging::{Message, MessageBuffer, MessageQueue, MessageView};
use crate::scheduler::{next_handle_id, Scheduler, TaskData, TaskHandle, TaskKind, MAX_TASKS};
use crate::ports::{
    coordinate_delta, port_delta, port_index, port_of_rank, port_rank, ranked_port, HardPort,
    PORT_COUNT,
};
use vstd::prelude::*;

verus! {

/// The unique id of a cell that has none yet.
pub const UID_INVALID: u32 = 0;

/// The unique id a root cell takes when it was given none.
pub const ROOT_UID: u32 = 1;

/// Number of bytes in the body of a frame.
pub const FRAME_SIZE: usize = 11;

/// The status a message carries in its header.
#[allow(non_camel_case_types)]
#[derive(Copy, Clone, Debug, PartialEq, Eq, Structural)]
pub enum MessageStatus {
    /// A successful answer.
    STATUS_OK,
    /// An acknowledgement.
    STATUS_ACK,
    /// A refusal.
    STATUS_NAK,
    /// A query, to which an answer is expected.
    STATUS_QUERY,
    /// An exchange timed out.
    STATUS_TIMEOUT,
    /// An answer that reports an error.
    STATUS_ERROR,
}

/// The code of a status on the wire.
pub open spec fn status_code(status: MessageStatus) -> u8 {
    match status {
        MessageStatus::STATUS_OK => 0,
        MessageStatus::STATUS_ACK => 1,
        MessageStatus::STATUS_NAK => 2,
        MessageStatus::STATUS_QUERY => 3,
        MessageStatus::STATUS_TIMEOUT => 4,
        MessageStatus::STATUS_ERROR => 5,
    }
}

impl MessageStatus {
    /// The code of the status on the wire.
    pub fn code(self) -> (code: u8)
        ensures
            code == status_code(self),
            code < 6,
    {
        match self {
            MessageStatus::STATUS_OK => 0,
            MessageStatus::STATUS_ACK => 1,
            MessageStatus::STATUS_NAK => 2,
            MessageStatus::STATUS_QUERY => 3,
            MessageStatus::STATUS_TIMEOUT => 4,
            MessageStatus::STATUS_ERROR => 5,
        }
    }

    /// The status that a code on the wire stands for, if any.
    pub fn from_code(code: u8) -> (status: Option<MessageStatus>)
        ensures
            code < 6 <==> status is Some,
            status matches Some(s) ==> status_code(s) == code,
    {
        if code == 0 {
            Some(MessageStatus::STATUS_OK)
        } else if code == 1 {
            Some(MessageStatus::STATUS_ACK)
        } else if code == 2 {
            Some(MessageStatus::STATUS_NAK)
        } else if code == 3 {
            Some(MessageStatus::STATUS_QUERY)
        } else if code == 4 {
            Some(MessageStatus::STATUS_TIMEOUT)
        } else if code == 5 {
            Some(MessageStatus::STATUS_ERROR)
        } else {
            None
        }
    }
}

/// What a frame asks or answers.
#[derive(Copy, Clone, Debug, PartialEq, Eq, Structural)]
pub enum NetworkQuery {
    /// Asks the neighbour on a port where the asking cell lies.
    WHOAMI,
    /// Asks a cell for its id.
    GETID,
    /// Assigns coordinates to a cell.
    SETID,
    /// Relays a message towards a coordinate.
    FORWARD,
    /// Asks for the way to a coordinate.
    ROUTETO,
    /// Floods the mesh to list its cells.
    ENUMERATE,
    /// Floods the mesh with a message.
    BROADCAST,
    /// No query; never sent.
    INVALID,
}

/// The code of a query on the wire.
pub open spec fn query_code(query: NetworkQuery) -> u8 {
    match query {
        NetworkQuery::WHOAMI => 0,
        NetworkQuery::GETID => 1,
        NetworkQuery::SETID => 2,
        NetworkQuery::FORWARD => 3,
        NetworkQuery::ROUTETO => 4,
        NetworkQuery::ENUMERATE => 5,
        NetworkQuery::BROADCAST => 6,
        NetworkQuery::INVALID => 7,
    }
}

impl NetworkQuery {
    /// The code of the query on the wire.
    pub fn code(self) -> (code: u8)
        ensures
            code == query_code(self),
            code < 8,
    {
        match self {
            NetworkQuery::WHOAMI => 0,
            NetworkQuery::GETID => 1,
            NetworkQuery::SETID => 2,
            NetworkQuery::FORWARD => 3,
            NetworkQuery::ROUTETO => 4,
            NetworkQuery::ENUMERATE => 5,
            NetworkQuery::BROADCAST => 6,
            NetworkQuery::INVALID => 7,
        }
    }

    /// The query that a code on the wire stands for; `INVALID` and the codes
    /// beyond it stand for none.
    pub fn from_code(code: u8) -> (query: Option<NetworkQuery>)
        ensures
            code < 7 <==> query is Some,
            query matches Some(q) ==> query_code(q) == code,
    {
        if code == 0 {
            Some(NetworkQuery::WHOAMI)
        } else if code == 1 {
            Some(NetworkQuery::GETID)
        } else if code == 2 {
            Some(NetworkQuery::SETID)
        } else if code == 3 {
            Some(NetworkQuery::FORWARD)
        } else if code == 4 {
            Some(NetworkQuery::ROUTETO)
        } else if code == 5 {
            Some(NetworkQuery::ENUMERATE)
        } else if code == 6 {
            Some(NetworkQuery::BROADCAST)
        } else {
            None
        }
    }
}

/// What a cell knows of the mesh as a whole.
#[derive(Copy, Clone, Debug, PartialEq, Eq, Structural)]
pub struct GraphInfo {
    /// Number of cells in the mesh.
    pub rank: u16,
}

/// Where a cell lies on the grid, and which cell it is.
#[derive(Copy, Clone, Debug, PartialEq, Eq, Structural)]
pub struct NetworkId {
    pub x: i16,
    pub y: i16,
    /// The unique id of the cell; `UID_INVALID` while it has none.
    pub uid: u32,
}

impl Default for NetworkId {
    fn default() -> (id: NetworkId)
        ensures
            id == (NetworkId { x: 0, y: 0, uid: UID_INVALID }),
    {
        NetworkId { x: 0, y: 0, uid: UID_INVALID }
    }
}

impl NetworkId {
    /// Whether the cell behind `port` still lies on the grid of 16-bit
    /// coordinates.
    pub open spec fn reaches(self, port: HardPort) -> bool {
        &&& i16::MIN <= self.x + port_delta(port).0 <= i16::MAX
        &&& i16::MIN <= self.y + port_delta(port).1 <= i16::MAX
    }

    /// The id of the cell behind `port`: one step on, with no unique id.
    pub open spec fn neighbour(self, port: HardPort) -> NetworkId {
        NetworkId {
            x: (self.x + port_delta(port).0) as i16,
            y: (self.y + port_delta(port).1) as i16,
            uid: UID_INVALID,
        }
    }

    /// The id of the cell behind `connected_port`: the coordinates one step
    /// on, and no unique id, which only that cell can supply.
    pub fn compute_external_id(self, connected_port: HardPort) -> (id: NetworkId)
        requires
            self.reaches(connected_port),
        ensures
            id.x == self.x + port_delta(connected_port).0,
            id.y == self.y + port_delta(connected_port).1,
            id.uid == UID_INVALID,
            id == self.neighbour(connected_port),
    {
        let delta = coordinate_delta(connected_port);
        NetworkId { x: self.x + delta.0, y: self.y + delta.1, uid: UID_INVALID }
    }

    /// The id of the cell behind `connected_port`, or `None` where that cell
    /// would lie off the grid of 16-bit coordinates.
    pub fn checked_external_id(self, connected_port: HardPort) -> (id: Option<NetworkId>)
        ensures
            self.reaches(connected_port) ==> id == Some(self.neighbour(connected_port)),
            !self.reaches(connected_port) ==> id is None,
    {
        let delta = coordinate_delta(connected_port);
        let x: i32 = self.x as i32 + delta.0 as i32;
        let y: i32 = self.y as i32 + delta.1 as i32;
        if -32768 <= x && x <= 32767 && -32768 <= y && y <= 32767 {
            Some(self.compute_external_id(connected_port))
        } else {
            None
        }
    }
}

/// The state of the link on one port.
#[allow(non_camel_case_types)]
#[derive(Copy, Clone, Debug, PartialEq, Eq, Structural)]
pub enum PortState {
    PORT_DISCONNECTED,
    /// Ready to send and receive.
    PORT_IDLE,
    /// Receiving.
    PORT_LOCK,
    PORT_ERROR,
}

/// What a cell knows of one port: the neighbour behind it and the state of
/// the link.
#[derive(Copy, Clone, Debug, PartialEq, Eq, Structural)]
pub struct PortInfo {
    pub address: NetworkId,
    pub state: PortState,
}

/// The state of a cell in the mesh.
#[derive(Copy, Clone, Debug, PartialEq, Eq, Structural)]
pub enum NetworkState {
    UNINITIALIZED,
    INITIALIZING,
    IDLE,
    BUSY,
    ERROR,
    REROOT,
}

/// What travels between two cells: a message with its fields decoded.
#[derive(Copy, Clone, Debug, PartialEq, Eq, Structural)]
pub struct Frame {
    /// The port the frame leaves or has arrived through.
    pub port: HardPort,
    pub status: MessageStatus,
    pub query: NetworkQuery,
    /// Tells the floods of one origin apart.
    pub tag: u8,
    /// The id the query or answer is about.
    pub id: NetworkId,
}

/// A coordinate as the 16 bits that stand for it on the wire.
pub open spec fn coordinate_bits(coordinate: i16) -> int {
    if coordinate < 0 {
        coordinate + 0x1_0000
    } else {
        coordinate as int
    }
}

/// The coordinate that 16 bits on the wire stand for.
pub open spec fn bits_coordinate(bits: int) -> i16 {
    if bits >= 0x8000 {
        (bits - 0x1_0000) as i16
    } else {
        bits as i16
    }
}

/// An id on the wire: `x`, `y` and the unique id, each low byte first.
pub open spec fn id_bytes(id: NetworkId) -> Seq<u8> {
    seq![
        (coordinate_bits(id.x) % 256) as u8,
        (coordinate_bits(id.x) / 256) as u8,
        (coordinate_bits(id.y) % 256) as u8,
        (coordinate_bits(id.y) / 256) as u8,
        (id.uid % 256) as u8,
        (id.uid / 0x100 % 256) as u8,
        (id.uid / 0x1_0000 % 256) as u8,
        (id.uid / 0x100_0000) as u8,
    ]
}

/// The id that eight bytes on the wire stand for.
pub open spec fn bytes_id(bytes: Seq<u8>) -> NetworkId
    recommends
        bytes.len() == 8,
{
    NetworkId {
        x: bits_coordinate(bytes[0] + 256 * bytes[1]),
        y: bits_coordinate(bytes[2] + 256 * bytes[3]),
        uid: (bytes[4] + 0x100 * bytes[5] + 0x1_0000 * bytes[6] + 0x100_0000 * bytes[7]) as u32,
    }
}

/// The sum of the bytes, modulo 256.
pub open spec fn checksum(bytes: Seq<u8>) -> u8
    decreases bytes.len(),
{
    if bytes.len() == 0 {
        0
    } else {
        ((checksum(bytes.drop_last()) + bytes.last()) % 256) as u8
    }
}

/// What a frame says, before its checksum: the query's code, the tag, the id.
pub open spec fn frame_content(frame: Frame) -> Seq<u8> {
    seq![query_code(frame.query), frame.tag] + id_bytes(frame.id)
}

/// The body of the message that carries a frame: its content, then the
/// checksum of the content.
pub open spec fn frame_body(frame: Frame) -> Seq<u8> {
    frame_content(frame).push(checksum(frame_content(frame)))
}

/// The message that carries a frame.
pub open spec fn frame_message(frame: Frame) -> MessageView {
    MessageView {
        port: port_index(frame.port),
        status: status_code(frame.status),
        length: FRAME_SIZE as u16,
        body: frame_body(frame),
    }
}

/// The port that a number on the wire names.
pub open spec fn indexed_port(index: u8) -> HardPort
    recommends
        index < PORT_COUNT,
{
    if index == 0 {
        HardPort::PORT_A
    } else if index == 1 {
        HardPort::PORT_B
    } else if index == 2 {
        HardPort::PORT_C
    } else if index == 3 {
        HardPort::PORT_D
    } else if index == 4 {
        HardPort::PORT_E
    } else {
        HardPort::PORT_F
    }
}

/// The status that a code on the wire stands for.
pub open spec fn coded_status(code: u8) -> MessageStatus
    recommends
        code < 6,
{
    if code == 0 {
        MessageStatus::STATUS_OK
    } else if code == 1 {
        MessageStatus::STATUS_ACK
    } else if code == 2 {
        MessageStatus::STATUS_NAK
    } else if code == 3 {
        MessageStatus::STATUS_QUERY
    } else if code == 4 {
        MessageStatus::STATUS_TIMEOUT
    } else {
        MessageStatus::STATUS_ERROR
    }
}

/// The query that a code on the wire stands for.
pub open spec fn coded_query(code: u8) -> NetworkQuery
    recommends
        code < 7,
{
    if code == 0 {
        NetworkQuery::WHOAMI
    } else if code == 1 {
        NetworkQuery::GETID
    } else if code == 2 {
        NetworkQuery::SETID
    } else if code == 3 {
        NetworkQuery::FORWARD
    } else if code == 4 {
        NetworkQuery::ROUTETO
    } else if code == 5 {
        NetworkQuery::ENUMERATE
    } else {
        NetworkQuery::BROADCAST
    }
}

/// What a message says, or why it says nothing. A header that names no port
/// is an invalid address. A header with an unknown status, a length that is
/// not the body's, or a body that is not a frame's size, makes the contents
/// invalid; so does, behind a good checksum, a code that names no query. A
/// body whose last byte is not the checksum of the bytes before it fails the
/// checksum.
pub open spec fn message_frame(message: MessageView) -> Result<Frame, NetworkError> {
    if message.port >= PORT_COUNT {
        Err(NetworkError::InvalidAddress)
    } else if message.status >= 6 || message.length != message.body.len() || message.body.len()
        != FRAME_SIZE {
        Err(NetworkError::InvalidMessageContents)
    } else if checksum(message.body.take(10)) != message.body[10] {
        Err(NetworkError::ChecksumFailure)
    } else if message.body[0] >= 7 {
        Err(NetworkError::InvalidMessageContents)
    } else {
        Ok(
            Frame {
                port: indexed_port(message.port),
                status: coded_status(message.status),
                query: coded_query(message.body[0]),
                tag: message.body[1],
                id: bytes_id(message.body.subrange(2, 10)),
            },
        )
    }
}

/// The sum, modulo 256, of the first `count` bytes of `buffer`.
pub fn checksum_of(buffer: &MessageBuffer, count: usize) -> (sum: u8)
    requires
        count <= buffer_bytes(*buffer).len(),
    ensures
        sum == checksum(buffer_bytes(*buffer).take(count as int)),
{
    let ghost bytes = buffer_bytes(*buffer);
    let mut sum: u8 = 0;
    let mut idx: usize = 0;
    while idx < count
        invariant
            idx <= count,
            count <= bytes.len(),
            bytes == buffer_bytes(*buffer),
            sum == checksum(bytes.take(idx as int)),
        decreases count - idx,
    {
        proof {
            assert(bytes.take(idx as int + 1).drop_last() == bytes.take(idx as int));
            assert(bytes.take(idx as int + 1).last() == bytes[idx as int]);
        }
        let byte: u8 = bytes_get(buffer, idx);
        sum = ((sum as u16 + byte as u16) % 256) as u8;
        idx = idx + 1;
    }
    sum
}

fn coordinate_to_bits(coordinate: i16) -> (bits: u16)
    ensures
        bits == coordinate_bits(coordinate),
{
    if coordinate < 0 {
        (coordinate as i32 + 0x1_0000) as u16
    } else {
        coordinate as u16
    }
}

fn coordinate_from_bits(low: u8, high: u8) -> (coordinate: i16)
    ensures
        coordinate == bits_coordinate(low + 256 * high),
{
    let bits: i32 = low as i32 + 256 * (high as i32);
    if bits >= 0x8000 {
        (bits - 0x1_0000) as i16
    } else {
        bits as i16
    }
}

fn push_byte(buffer: &mut MessageBuffer, byte: u8)
    requires
        buffer_bytes(*old(buffer)).len() < 256,
    ensures
        buffer_bytes(*final(buffer)) == buffer_bytes(*old(buffer)).push(byte),
{
    let _ = bytes_push(buffer, byte);
}

impl Frame {
    /// The message that carries the frame.
    pub fn to_message(&self) -> (message: Message)
        ensures
            message@ == frame_message(*self),
            message.wf(),
    {
        let x: u16 = coordinate_to_bits(self.id.x);
        let y: u16 = coordinate_to_bits(self.id.y);
        let uid: u32 = self.id.uid;
        let mut builder = bytes_new();
        push_byte(&mut builder, self.query.code());
        push_byte(&mut builder, self.tag);
        push_byte(&mut builder, (x % 256) as u8);
        push_byte(&mut builder, (x / 256) as u8);
        push_byte(&mut builder, (y % 256) as u8);
        push_byte(&mut builder, (y / 256) as u8);
        push_byte(&mut builder, (uid % 256) as u8);
        push_byte(&mut builder, (uid / 0x100 % 256) as u8);
        push_byte(&mut builder, (uid / 0x1_0000 % 256) as u8);
        push_byte(&mut builder, (uid / 0x100_0000) as u8);
        assert(buffer_bytes(builder) =~= frame_content(*self));
        let sum: u8 = checksum_of(&builder, 10);
        assert(buffer_bytes(builder).take(10) =~= frame_content(*self));
        push_byte(&mut builder, sum);
        Message::new(self.port.index(), self.status.code(), &builder)
    }

    /// What `message` says, or why it says nothing.
    pub fn from_message(message: &Message) -> (frame: Result<Frame, NetworkError>)
        ensures
            frame == message_frame(message@),
    {
        let port = match HardPort::from_index(message.header.port) {
            Some(port) => port,
            None => { return Err(NetworkError::InvalidAddress); },
        };
        let status = match MessageStatus::from_code(message.header.status) {
            Some(status) => status,
            None => { return Err(NetworkError::InvalidMessageContents); },
        };
        let length: usize = bytes_len(&message.body);
        if message.header.length as usize != length || length != FRAME_SIZE {
            return Err(NetworkError::InvalidMessageContents);
        }
        let sum: u8 = checksum_of(&message.body, 10);
        if sum != bytes_get(&message.body, 10) {
            return Err(NetworkError::ChecksumFailure);
        }
        let query = match NetworkQuery::from_code(bytes_get(&message.body, 0)) {
            Some(query) => query,
            None => { return Err(NetworkError::InvalidMessageContents); },
        };
        let x: i16 = coordinate_from_bits(bytes_get(&message.body, 2), bytes_get(&message.body, 3));
        let y: i16 = coordinate_from_bits(bytes_get(&message.body, 4), bytes_get(&message.body, 5));
        let uid: u32 = bytes_get(&message.body, 6) as u32 + 0x100 * (bytes_get(
            &message.body,
            7,
        ) as u32) + 0x1_0000 * (bytes_get(&message.body, 8) as u32) + 0x100_0000 * (bytes_get(
            &message.body,
            9,
        ) as u32);
        Ok(
            Frame {
                port,
                status,
                query,
                tag: bytes_get(&message.body, 1),
                id: NetworkId { x, y, uid },
            },
        )
    }
}

/// Law of the wire: a frame that asks or answers a query comes back from its
/// message as it went in.
pub proof fn lemma_frame_round_trip(frame: Frame)
    requires
        frame.query != NetworkQuery::INVALID,
    ensures
        message_frame(frame_message(frame)) == Ok::<Frame, NetworkError>(frame),
{
    let message = frame_message(frame);
    let content = frame_content(frame);
    assert(message.body.take(10) =~= content);
    assert(message.body.subrange(2, 10) =~= id_bytes(frame.id));
    assert(bytes_id(id_bytes(frame.id)) == frame.id);
    assert(indexed_port(port_index(frame.port)) == frame.port);
    assert(coded_status(status_code(frame.status)) == frame.status);
    assert(coded_query(query_code(frame.query)) == frame.query);
}

/// The distance between two points of the grid, counted in steps along its
/// axes.
pub open spec fn grid_distance(x: int, y: int, to_x: int, to_y: int) -> int {
    (if to_x >= x {
        to_x - x
    } else {
        x - to_x
    }) + (if to_y >= y {
        to_y - y
    } else {
        y - to_y
    })
}

/// The distance that is left to `target` after one step from `local` through
/// `port`.
pub open spec fn hop_distance(local: NetworkId, target: NetworkId, port: HardPort) -> int {
    grid_distance(
        local.x + port_delta(port).0,
        local.y + port_delta(port).1,
        target.x as int,
        target.y as int,
    )
}

/// The best port among those of rank up to `rank`: the one that leaves the
/// least distance to `target`, and of several such the one of lowest rank.
pub open spec fn best_hop_upto(local: NetworkId, target: NetworkId, rank: nat) -> HardPort
    decreases rank,
{
    if rank == 0 {
        ranked_port(0)
    } else {
        let before = best_hop_upto(local, target, (rank - 1) as nat);
        let port = ranked_port(rank as u8);
        if hop_distance(local, target, port) < hop_distance(local, target, before) {
            port
        } else {
            before
        }
    }
}

/// The port through which a message for `target` leaves `local`: the one that
/// leaves the least distance, and of several such the one of lowest rank.
pub open spec fn best_hop(local: NetworkId, target: NetworkId) -> HardPort {
    best_hop_upto(local, target, 5)
}

fn distance_after(local: NetworkId, target: NetworkId, port: HardPort) -> (distance: i32)
    ensures
        distance == hop_distance(local, target, port),
{
    let delta = coordinate_delta(port);
    let x: i32 = local.x as i32 + delta.0 as i32;
    let y: i32 = local.y as i32 + delta.1 as i32;
    let to_x: i32 = target.x as i32;
    let to_y: i32 = target.y as i32;
    let along: i32 = if to_x >= x {
        to_x - x
    } else {
        x - to_x
    };
    let across: i32 = if to_y >= y {
        to_y - y
    } else {
        y - to_y
    };
    along + across
}

/// The port through which a message for `target` leaves `local`, or `None`
/// for a target at the coordinates of `local` itself.
pub fn next_hop(local: NetworkId, target: NetworkId) -> (hop: Option<HardPort>)
    ensures
        local.x == target.x && local.y == target.y ==> hop is None,
        !(local.x == target.x && local.y == target.y) ==> hop == Some(best_hop(local, target)),
{
    if local.x == target.x && local.y == target.y {
        return None;
    }
    let mut best: HardPort = port_of_rank(0);
    let mut least: i32 = distance_after(local, target, best);
    let mut rank: u8 = 1;
    while rank < 6
        invariant
            1 <= rank <= 6,
            best == best_hop_upto(local, target, (rank - 1) as nat),
            least == hop_distance(local, target, best),
        decreases 6 - rank,
    {
        let port = port_of_rank(rank);
        let distance: i32 = distance_after(local, target, port);
        if distance < least {
            best = port;
            least = distance;
        }
        rank = rank + 1;
    }
    Some(best)
}

/// The best hop leaves no more distance than any other port.
pub proof fn lemma_best_hop_is_least(local: NetworkId, target: NetworkId, port: HardPort)
    ensures
        hop_distance(local, target, best_hop(local, target)) <= hop_distance(local, target, port),
{
    reveal_with_fuel(best_hop_upto, 6);
}

/// Law of routing: from any cell but the target itself, the best hop leads to
/// a cell strictly nearer the target.
pub proof fn lemma_best_hop_comes_nearer(local: NetworkId, target: NetworkId)
    requires
        !(local.x == target.x && local.y == target.y),
    ensures
        hop_distance(local, target, best_hop(local, target)) < grid_distance(
            local.x as int,
            local.y as int,
            target.x as int,
            target.y as int,
        ),
{
    let towards = if target.x > local.x {
        HardPort::PORT_E
    } else if target.x < local.x {
        HardPort::PORT_C
    } else if target.y > local.y {
        HardPort::PORT_A
    } else {
        HardPort::PORT_F
    };
    lemma_best_hop_is_least(local, target, towards);
}

/// Microseconds between two polls of the network layer.
pub const POLL_INTERVAL: u32 = 10_000;

/// Microseconds after which an unanswered query is given up.
pub const QUERY_TIMEOUT: u32 = 1_000_000;

/// Names a flood: the cell it came from and that cell's count of floods.
#[derive(Copy, Clone, Debug, PartialEq, Eq, Structural)]
pub struct FloodTag {
    pub origin: u32,
    pub tag: u8,
}

/// What can happen to the network layer of a cell.
#[derive(Copy, Clone, Debug, PartialEq, Eq, Structural)]
pub enum NetworkEvent {
    /// The poll task fired.
    Poll,
    /// The timeout task with this handle fired.
    Timeout(TaskHandle),
    /// A frame arrived.
    Received(Frame),
    /// A message arrived that holds no frame.
    Malformed(NetworkError),
    /// A neighbour was connected to the port.
    PortConnected(HardPort),
    /// The neighbour on the port has gone.
    PortDisconnected(HardPort),
}

/// What the network layer asks of its host.
#[derive(Copy, Clone, Debug, PartialEq, Eq, Structural)]
pub enum NetworkAction {
    Nothing,
    /// Send the frame through the port it names.
    Send(Frame),
    /// Send the frame through every connected port but the one it names.
    Flood(Frame),
    /// Send the frame through every connected port.
    Broadcast(Frame),
    /// Keep the frame and hand it in again later.
    Defer(Frame),
}

/// The network layer of a cell as plain values.
pub struct NetworkModel {
    pub state: NetworkState,
    /// The port of the exchange under way.
    pub selected_port: HardPort,
    /// The port that leads towards the root; `None` on the root itself.
    pub root_port: Option<HardPort>,
    /// Number of floods this cell has started, modulo 256.
    pub broadcast_counter: u8,
    pub id: NetworkId,
    /// One entry per port, in the order A to F.
    pub ports: Seq<PortInfo>,
    /// The timeout task of the exchange under way.
    pub pending: Option<TaskHandle>,
    /// The error that last sent the cell into `ERROR`.
    pub last_error: Option<NetworkError>,
    /// The flood last passed on.
    pub last_flood: Option<FloodTag>,
}

/// The outcome of one event: the new state, what the host is to do, and
/// whether a timeout task is queued.
pub struct Step {
    pub model: NetworkModel,
    pub action: NetworkAction,
    pub arms_timeout: bool,
}

/// An entry for a port with no neighbour.
pub open spec fn port_unplugged() -> PortInfo {
    PortInfo {
        address: NetworkId { x: 0, y: 0, uid: UID_INVALID },
        state: PortState::PORT_DISCONNECTED,
    }
}

/// An entry for a port with a neighbour of whom nothing is known yet.
pub open spec fn port_plugged() -> PortInfo {
    PortInfo { address: NetworkId { x: 0, y: 0, uid: UID_INVALID }, state: PortState::PORT_IDLE }
}

/// Whether a port has a neighbour.
pub open spec fn port_connected(ports: Seq<PortInfo>, port: HardPort) -> bool {
    ports[port_index(port) as int].state != PortState::PORT_DISCONNECTED
}

/// The connected port of lowest rank among those of rank `rank` and above.
pub open spec fn first_connected_from(ports: Seq<PortInfo>, rank: nat) -> Option<HardPort>
    decreases 6 - rank,
{
    if rank >= 6 {
        None
    } else if port_connected(ports, ranked_port(rank as u8)) {
        Some(ranked_port(rank as u8))
    } else {
        first_connected_from(ports, rank + 1)
    }
}

/// The connected port of lowest rank: the one discovery probes.
pub open spec fn first_connected(ports: Seq<PortInfo>) -> Option<HardPort> {
    first_connected_from(ports, 0)
}

/// The id of a cell that finds itself the root: the origin of the grid, with
/// the cell's own unique id, or `ROOT_UID` where it has none.
pub open spec fn root_identity(id: NetworkId) -> NetworkId {
    NetworkId {
        x: 0,
        y: 0,
        uid: if id.uid == UID_INVALID {
            ROOT_UID
        } else {
            id.uid
        },
    }
}

/// The id of a cell that takes the coordinates it is given: it keeps its own
/// unique id, or takes the given one where it has none.
pub open spec fn adopted_identity(id: NetworkId, given: NetworkId) -> NetworkId {
    NetworkId {
        x: given.x,
        y: given.y,
        uid: if id.uid == UID_INVALID {
            given.uid
        } else {
            id.uid
        },
    }
}

/// The answer to `frame`, back through the port it came by.
pub open spec fn reply_to(frame: Frame, status: MessageStatus, id: NetworkId) -> Frame {
    Frame { port: frame.port, status, query: frame.query, tag: frame.tag, id }
}

/// The query a cell sends through `port`. `SETID` carries the id of the cell
/// behind the port, the others the sender's own.
pub open spec fn query_frame(model: NetworkModel, port: HardPort, query: NetworkQuery) -> Frame {
    Frame {
        port,
        status: MessageStatus::STATUS_QUERY,
        query,
        tag: model.broadcast_counter,
        id: if query == NetworkQuery::SETID && model.id.reaches(port) {
            model.id.neighbour(port)
        } else {
            model.id
        },
    }
}

/// Nothing changes and nothing is to be done.
pub open spec fn step_quiet(model: NetworkModel) -> Step {
    Step { model, action: NetworkAction::Nothing, arms_timeout: false }
}

/// The state changes and `frame` is to be sent.
pub open spec fn step_send(model: NetworkModel, frame: Frame) -> Step {
    Step { model, action: NetworkAction::Send(frame), arms_timeout: false }
}

/// Discovery: with no neighbour the cell takes the root's identity and goes
/// on to `INITIALIZING`. With one, it asks `WHOAMI` through the connected port
/// of lowest rank and waits in `UNINITIALIZED`; the first such query arms a
/// timeout. Where no timeout can be armed the cell goes to `ERROR`.
pub open spec fn step_discover(model: NetworkModel, room: bool, handle: TaskHandle) -> Step {
    match first_connected(model.ports) {
        None => step_quiet(
            NetworkModel {
                state: NetworkState::INITIALIZING,
                id: root_identity(model.id),
                root_port: None,
                pending: None,
                ..model
            },
        ),
        Some(port) => if model.state == NetworkState::UNINITIALIZED && model.pending is Some {
            step_send(
                NetworkModel { selected_port: port, ..model },
                query_frame(model, port, NetworkQuery::WHOAMI),
            )
        } else if room {
            Step {
                model: NetworkModel {
                    state: NetworkState::UNINITIALIZED,
                    selected_port: port,
                    pending: Some(handle),
                    ..model
                },
                action: NetworkAction::Send(query_frame(model, port, NetworkQuery::WHOAMI)),
                arms_timeout: true,
            }
        } else {
            step_quiet(
                NetworkModel {
                    state: NetworkState::ERROR,
                    pending: None,
                    last_error: Some(NetworkError::InvalidConfiguration),
                    ..model
                },
            )
        },
    }
}

/// A poll: discovery where the cell has no place yet, lost it or erred; the
/// step from `INITIALIZING` to `IDLE`; nothing otherwise.
pub open spec fn step_poll(model: NetworkModel, room: bool, handle: TaskHandle) -> Step {
    match model.state {
        NetworkState::UNINITIALIZED => step_discover(model, room, handle),
        NetworkState::ERROR => step_discover(model, room, handle),
        NetworkState::REROOT => step_discover(model, room, handle),
        NetworkState::INITIALIZING => step_quiet(
            NetworkModel { state: NetworkState::IDLE, pending: None, ..model },
        ),
        NetworkState::IDLE => step_quiet(model),
        NetworkState::BUSY => step_quiet(model),
    }
}

/// A timeout: the one the cell waits for sends it to `ERROR`; any other comes
/// too late and is passed over.
pub open spec fn step_timeout(model: NetworkModel, handle: TaskHandle) -> Step {
    if model.pending == Some(handle) {
        step_quiet(
            NetworkModel {
                state: NetworkState::ERROR,
                pending: None,
                last_error: Some(NetworkError::Timeout),
                ..model
            },
        )
    } else {
        step_quiet(model)
    }
}

/// A message that holds no frame sends the cell to `ERROR`.
pub open spec fn step_malformed(model: NetworkModel, error: NetworkError) -> Step {
    step_quiet(
        NetworkModel {
            state: NetworkState::ERROR,
            pending: None,
            last_error: Some(error),
            ..model
        },
    )
}

/// A new neighbour: the port is noted as connected. A cell in `IDLE` that
/// can arm a timeout assigns the neighbour its coordinates by `SETID` and
/// waits in `BUSY`.
pub open spec fn step_connected(
    model: NetworkModel,
    port: HardPort,
    room: bool,
    handle: TaskHandle,
) -> Step {
    let ports = model.ports.update(port_index(port) as int, port_plugged());
    if model.state == NetworkState::IDLE && model.id.reaches(port) && room {
        Step {
            model: NetworkModel {
                ports,
                state: NetworkState::BUSY,
                selected_port: port,
                pending: Some(handle),
                ..model
            },
            action: NetworkAction::Send(query_frame(model, port, NetworkQuery::SETID)),
            arms_timeout: true,
        }
    } else {
        step_quiet(NetworkModel { ports, ..model })
    }
}

/// A neighbour has gone: the port is noted as disconnected. Where it led to
/// the root the cell goes to `REROOT`; an exchange with it is over.
pub open spec fn step_disconnected(model: NetworkModel, port: HardPort) -> Step {
    let ports = model.ports.update(port_index(port) as int, port_unplugged());
    if model.root_port == Some(port) && (model.state == NetworkState::INITIALIZING || model.state
        == NetworkState::IDLE || model.state == NetworkState::BUSY) {
        step_quiet(
            NetworkModel {
                ports,
                state: NetworkState::REROOT,
                root_port: None,
                pending: None,
                ..model
            },
        )
    } else if model.state == NetworkState::BUSY && model.selected_port == port {
        step_quiet(NetworkModel { ports, state: NetworkState::IDLE, pending: None, ..model })
    } else if model.state == NetworkState::UNINITIALIZED && model.selected_port == port {
        step_quiet(NetworkModel { ports, pending: None, ..model })
    } else {
        step_quiet(NetworkModel { ports, ..model })
    }
}

/// The cell takes the coordinates that `frame` brings from the neighbour
/// towards the root, and goes on to `INITIALIZING`.
pub open spec fn model_adopting(model: NetworkModel, frame: Frame) -> NetworkModel {
    NetworkModel {
        state: NetworkState::INITIALIZING,
        id: adopted_identity(model.id, frame.id),
        root_port: Some(frame.port),
        pending: None,
        ..model
    }
}

/// A query refused.
pub open spec fn step_refuse(model: NetworkModel, frame: Frame) -> Step {
    step_send(model, reply_to(frame, MessageStatus::STATUS_NAK, model.id))
}

/// A query that reaches a cell in `IDLE`.
pub open spec fn step_answer(model: NetworkModel, frame: Frame) -> Step {
    match frame.query {
        NetworkQuery::WHOAMI => if model.id.reaches(frame.port) {
            step_send(
                NetworkModel {
                    ports: model.ports.update(
                        port_index(frame.port) as int,
                        PortInfo {
                            address: NetworkId {
                                uid: frame.id.uid,
                                ..model.id.neighbour(frame.port)
                            },
                            state: model.ports[port_index(frame.port) as int].state,
                        },
                    ),
                    ..model
                },
                reply_to(frame, MessageStatus::STATUS_OK, model.id.neighbour(frame.port)),
            )
        } else {
            step_refuse(model, frame)
        },
        NetworkQuery::GETID => step_send(
            model,
            reply_to(frame, MessageStatus::STATUS_OK, model.id),
        ),
        NetworkQuery::SETID => if model.root_port == Some(frame.port) {
            step_send(
                NetworkModel { id: adopted_identity(model.id, frame.id), ..model },
                reply_to(
                    frame,
                    MessageStatus::STATUS_ACK,
                    adopted_identity(model.id, frame.id),
                ),
            )
        } else {
            step_refuse(model, frame)
        },
        NetworkQuery::FORWARD => step_relay(model, frame),
        NetworkQuery::ROUTETO => step_relay(model, frame),
        NetworkQuery::ENUMERATE => step_flood(model, frame),
        NetworkQuery::BROADCAST => step_flood(model, frame),
        NetworkQuery::INVALID => step_refuse(model, frame),
    }
}

/// A frame on its way to a coordinate: acknowledged where it has arrived,
/// sent on through the best hop where that port is connected, refused
/// otherwise.
pub open spec fn step_relay(model: NetworkModel, frame: Frame) -> Step {
    if frame.id.x == model.id.x && frame.id.y == model.id.y {
        step_send(model, reply_to(frame, MessageStatus::STATUS_ACK, model.id))
    } else if port_connected(model.ports, best_hop(model.id, frame.id)) {
        step_send(model, Frame { port: best_hop(model.id, frame.id), ..frame })
    } else {
        step_refuse(model, frame)
    }
}

/// A flood: passed on once, and dropped when it comes round again.
pub open spec fn step_flood(model: NetworkModel, frame: Frame) -> Step {
    if model.last_flood == Some(FloodTag { origin: frame.id.uid, tag: frame.tag }) {
        step_quiet(model)
    } else {
        Step {
            model: NetworkModel {
                last_flood: Some(FloodTag { origin: frame.id.uid, tag: frame.tag }),
                ..model
            },
            action: NetworkAction::Flood(frame),
            arms_timeout: false,
        }
    }
}

/// A frame that reaches a cell in `BUSY`: a query is put off; the answer to
/// the cell's own `SETID` ends the exchange, and an acknowledgement brings
/// the neighbour's id.
pub open spec fn step_busy(model: NetworkModel, frame: Frame) -> Step {
    if frame.status == MessageStatus::STATUS_QUERY {
        Step { model, action: NetworkAction::Defer(frame), arms_timeout: false }
    } else if frame.query == NetworkQuery::SETID && frame.port == model.selected_port {
        if frame.status == MessageStatus::STATUS_ACK || frame.status == MessageStatus::STATUS_OK {
            step_quiet(
                NetworkModel {
                    ports: model.ports.update(
                        port_index(frame.port) as int,
                        PortInfo {
                            address: frame.id,
                            state: model.ports[port_index(frame.port) as int].state,
                        },
                    ),
                    state: NetworkState::IDLE,
                    pending: None,
                    ..model
                },
            )
        } else {
            step_quiet(NetworkModel { state: NetworkState::IDLE, pending: None, ..model })
        }
    } else {
        step_quiet(model)
    }
}

/// A frame that reaches a cell in `UNINITIALIZED`: the answer to its
/// `WHOAMI`, or a `SETID` from a neighbour, gives it its coordinates; other
/// queries are refused.
pub open spec fn step_joining(model: NetworkModel, frame: Frame) -> Step {
    if frame.status == MessageStatus::STATUS_OK && frame.query == NetworkQuery::WHOAMI
        && frame.port == model.selected_port && model.pending is Some {
        step_quiet(model_adopting(model, frame))
    } else if frame.status == MessageStatus::STATUS_QUERY && frame.query == NetworkQuery::SETID {
        step_send(
            model_adopting(model, frame),
            reply_to(frame, MessageStatus::STATUS_ACK, adopted_identity(model.id, frame.id)),
        )
    } else if frame.status == MessageStatus::STATUS_QUERY {
        step_refuse(model, frame)
    } else {
        step_quiet(model)
    }
}

/// A frame arrives.
pub open spec fn step_received(model: NetworkModel, frame: Frame) -> Step {
    match model.state {
        NetworkState::UNINITIALIZED => step_joining(model, frame),
        NetworkState::IDLE => if frame.status == MessageStatus::STATUS_QUERY {
            step_answer(model, frame)
        } else {
            step_quiet(model)
        },
        NetworkState::BUSY => step_busy(model, frame),
        _ => if frame.status == MessageStatus::STATUS_QUERY {
            step_refuse(model, frame)
        } else {
            step_quiet(model)
        },
    }
}

/// What one event does to the network layer. `room` says whether the
/// scheduler can take one more task, `handle` which handle that task would
/// get.
pub open spec fn network_step(
    model: NetworkModel,
    event: NetworkEvent,
    room: bool,
    handle: TaskHandle,
) -> Step {
    match event {
        NetworkEvent::Poll => step_poll(model, room, handle),
        NetworkEvent::Timeout(fired) => step_timeout(model, fired),
        NetworkEvent::Received(frame) => step_received(model, frame),
        NetworkEvent::Malformed(error) => step_malformed(model, error),
        NetworkEvent::PortConnected(port) => step_connected(model, port, room, handle),
        NetworkEvent::PortDisconnected(port) => step_disconnected(model, port),
    }
}

/// The timeout task that an exchange arms.
pub open spec fn timeout_task(handle: TaskHandle) -> TaskData {
    TaskData {
        handle,
        kind: TaskKind::NetworkTimeout,
        elapsed: 0,
        period: QUERY_TIMEOUT,
        auto_reload: false,
    }
}

/// The poll task that `init` queues.
pub open spec fn poll_task(handle: TaskHandle) -> TaskData {
    TaskData {
        handle,
        kind: TaskKind::NetworkPoll,
        elapsed: 0,
        period: POLL_INTERVAL,
        auto_reload: true,
    }
}

/// The queue of a scheduler after an event: one timeout task more where the
/// event arms one.
pub open spec fn tasks_after_step(tasks: Seq<TaskData>, next: u32, step: Step) -> Seq<TaskData> {
    if step.arms_timeout {
        tasks.push(timeout_task(TaskHandle { id: next }))
    } else {
        tasks
    }
}

/// The next handle of a scheduler after an event.
pub open spec fn handle_after_step(next: u32, step: Step) -> u32 {
    if step.arms_timeout {
        next_handle_id(next)
    } else {
        next
    }
}

/// The queue of a scheduler after `init` has queued the poll task: one task
/// more, where there was room.
pub open spec fn tasks_with_poll(tasks: Seq<TaskData>, next: u32) -> Seq<TaskData> {
    if tasks.len() < MAX_TASKS {
        tasks.push(poll_task(TaskHandle { id: next }))
    } else {
        tasks
    }
}

/// The next handle of a scheduler after `init` has queued the poll task.
pub open spec fn handle_with_poll(tasks: Seq<TaskData>, next: u32) -> u32 {
    if tasks.len() < MAX_TASKS {
        next_handle_id(next)
    } else {
        next
    }
}

/// What `init` does to the network layer: a first poll, taken once the poll
/// task is queued.
pub open spec fn init_step(model: NetworkModel, tasks: Seq<TaskData>, next: u32) -> Step {
    update_step(
        model,
        tasks_with_poll(tasks, next),
        handle_with_poll(tasks, next),
        NetworkEvent::Poll,
    )
}

/// What one event does to the network layer of a cell whose scheduler holds
/// `tasks` and hands out `next` as its next handle.
pub open spec fn update_step(
    model: NetworkModel,
    tasks: Seq<TaskData>,
    next: u32,
    event: NetworkEvent,
) -> Step {
    network_step(model, event, tasks.len() < MAX_TASKS, TaskHandle { id: next })
}

/// A cell that starts a flood of its own: only in `IDLE`; the flood carries
/// the cell's count of floods, which then goes up by one, modulo 256.
pub open spec fn step_broadcast(model: NetworkModel) -> Step {
    if model.state == NetworkState::IDLE {
        Step {
            model: NetworkModel {
                broadcast_counter: if model.broadcast_counter == 255 {
                    0u8
                } else {
                    (model.broadcast_counter + 1) as u8
                },
                last_flood: Some(FloodTag { origin: model.id.uid, tag: model.broadcast_counter }),
                ..model
            },
            action: NetworkAction::Broadcast(
                query_frame(model, model.selected_port, NetworkQuery::BROADCAST),
            ),
            arms_timeout: false,
        }
    } else {
        step_quiet(model)
    }
}

/// The network layer as `new` makes it: in `UNINITIALIZED`, with no
/// neighbour on any port.
pub open spec fn fresh_network(id: NetworkId) -> NetworkModel {
    NetworkModel {
        state: NetworkState::UNINITIALIZED,
        selected_port: HardPort::PORT_A,
        root_port: None,
        broadcast_counter: 0,
        id,
        ports: Seq::new(PORT_COUNT as nat, |i: int| port_unplugged()),
        pending: None,
        last_error: None,
        last_flood: None,
    }
}

/// Whether the network layer and the scheduler stand, after an event, where
/// `step` says.
pub open spec fn step_taken(
    step: Step,
    network: NetworkModel,
    action: NetworkAction,
    before: Scheduler,
    after: Scheduler,
) -> bool {
    &&& network == step.model
    &&& action == step.action
    &&& after.tasks() == tasks_after_step(before.tasks(), before.next_handle(), step)
    &&& after.next_handle() == handle_after_step(before.next_handle(), step)
    &&& after.last_tick() == before.last_tick()
}

/// The network layer of one cell: the state machine by which it finds its
/// place in the mesh and answers its neighbours.
#[derive(Copy, Clone, Debug)]
pub struct NetworkFSM {
    state: NetworkState,
    selected_port: HardPort,
    root_port: Option<HardPort>,
    broadcast_counter: u8,
    id: NetworkId,
    ports: [PortInfo; PORT_COUNT],
    pending: Option<TaskHandle>,
    last_error: Option<NetworkError>,
    last_flood: Option<FloodTag>,
}

impl View for NetworkFSM {
    type V = NetworkModel;

    closed spec fn view(&self) -> NetworkModel {
        NetworkModel {
            state: self.state,
            selected_port: self.selected_port,
            root_port: self.root_port,
            broadcast_counter: self.broadcast_counter,
            id: self.id,
            ports: self.ports@,
            pending: self.pending,
            last_error: self.last_error,
            last_flood: self.last_flood,
        }
    }
}

impl NetworkFSM {
    /// There is one entry per port.
    pub proof fn lemma_one_entry_per_port(&self)
        ensures
            self@.ports.len() == PORT_COUNT,
    {
    }

    /// The network layer of a cell with the given id: in `UNINITIALIZED`,
    /// with no neighbour on any port.
    pub fn new(id: NetworkId) -> (network: NetworkFSM)
        ensures
            network@ == fresh_network(id),
    {
        let unplugged = PortInfo {
            address: NetworkId { x: 0, y: 0, uid: UID_INVALID },
            state: PortState::PORT_DISCONNECTED,
        };
        let network = NetworkFSM {
            state: NetworkState::UNINITIALIZED,
            selected_port: HardPort::PORT_A,
            root_port: None,
            broadcast_counter: 0,
            id,
            ports: [unplugged;PORT_COUNT],
            pending: None,
            last_error: None,
            last_flood: None,
        };
        assert(network@.ports =~= fresh_network(id).ports);
        network
    }

    /// The state of the cell in the mesh.
    pub fn state(&self) -> (state: NetworkState)
        ensures
            state == self@.state,
    {
        self.state
    }

    /// The id of the cell.
    pub fn id(&self) -> (id: NetworkId)
        ensures
            id == self@.id,
    {
        self.id
    }

    /// What the cell knows of `port`.
    pub fn port_info(&self, port: HardPort) -> (info: PortInfo)
        ensures
            info == self@.ports[port_index(port) as int],
    {
        self.ports[port.index() as usize]
    }

    /// The port that leads towards the root; `None` on the root itself.
    pub fn root_port(&self) -> (port: Option<HardPort>)
        ensures
            port == self@.root_port,
    {
        self.root_port
    }

    /// The error that last sent the cell into `ERROR`.
    pub fn last_error(&self) -> (error: Option<NetworkError>)
        ensures
            error == self@.last_error,
    {
        self.last_error
    }

    /// The timeout task of the exchange under way.
    pub fn pending(&self) -> (handle: Option<TaskHandle>)
        ensures
            handle == self@.pending,
    {
        self.pending
    }

    /// The query the cell sends through `port`. `SETID` carries the id of
    /// the cell behind the port, the others the sender's own.
    pub fn network_query(&self, port: HardPort, query: NetworkQuery) -> (frame: Frame)
        ensures
            frame == query_frame(self@, port, query),
    {
        let id = match query {
            NetworkQuery::SETID => match self.id.checked_external_id(port) {
                Some(external) => external,
                None => self.id,
            },
            _ => self.id,
        };
        Frame { port, status: MessageStatus::STATUS_QUERY, query, tag: self.broadcast_counter, id }
    }

    /// Arms the timeout of the exchange under way and notes its handle. A
    /// full scheduler arms nothing, and the cell stays as it is.
    pub fn schedule(&mut self, scheduler: &mut Scheduler) -> (armed: Result<
        TaskHandle,
        SchedulerError,
    >)
        ensures
            armed is Ok <==> old(scheduler).tasks().len() < MAX_TASKS,
            armed matches Ok(handle) ==> handle == (TaskHandle {
                id: old(scheduler).next_handle(),
            }) && final(self)@ == (NetworkModel { pending: Some(handle), ..old(self)@ })
                && final(scheduler).tasks() == old(scheduler).tasks().push(timeout_task(handle))
                && final(scheduler).next_handle() == next_handle_id(
                old(scheduler).next_handle(),
            ),
            armed matches Err(error) ==> error == SchedulerError::CapacityExceeded
                && final(self)@ == old(self)@ && final(scheduler).tasks() == old(scheduler).tasks() && final(scheduler).next_handle() == old(scheduler).next_handle(),
            final(scheduler).last_tick() == old(scheduler).last_tick(),
    {
        match scheduler.queue_task(TaskKind::NetworkTimeout, QUERY_TIMEOUT, true) {
            Ok(handle) => {
                self.pending = Some(handle);
                Ok(handle)
            },
            Err(error) => Err(error),
        }
    }

    fn first_connected_port(&self) -> (port: Option<HardPort>)
        ensures
            port == first_connected(self@.ports),
    {
        let mut rank: u8 = 0;
        while rank < 6
            invariant
                rank <= 6,
                first_connected(self@.ports) == first_connected_from(self@.ports, rank as nat),
            decreases 6 - rank,
        {
            let port = port_of_rank(rank);
            if self.ports[port.index() as usize].state != PortState::PORT_DISCONNECTED {
                return Some(port);
            }
            rank = rank + 1;
        }
        None
    }

    fn discover(&mut self, scheduler: &mut Scheduler) -> (action: NetworkAction)
        ensures
            step_taken(
                step_discover(
                    old(self)@,
                    old(scheduler).tasks().len() < MAX_TASKS,
                    TaskHandle { id: old(scheduler).next_handle() },
                ),
                final(self)@,
                action,
                *old(scheduler),
                *final(scheduler),
            ),
    {
        match self.first_connected_port() {
            None => {
                self.state = NetworkState::INITIALIZING;
                self.id = NetworkId {
                    x: 0,
                    y: 0,
                    uid: if self.id.uid == UID_INVALID {
                        ROOT_UID
                    } else {
                        self.id.uid
                    },
                };
                self.root_port = None;
                self.pending = None;
                NetworkAction::Nothing
            },
            Some(port) => {
                let query = self.network_query(port, NetworkQuery::WHOAMI);
                let waiting = match self.state {
                    NetworkState::UNINITIALIZED => self.pending.is_some(),
                    _ => false,
                };
                if waiting {
                    self.selected_port = port;
                    NetworkAction::Send(query)
                } else {
                    match self.schedule(scheduler) {
                        Ok(_) => {
                            self.state = NetworkState::UNINITIALIZED;
                            self.selected_port = port;
                            NetworkAction::Send(query)
                        },
                        Err(_) => {
                            self.state = NetworkState::ERROR;
                            self.pending = None;
                            self.last_error = Some(NetworkError::InvalidConfiguration);
                            NetworkAction::Nothing
                        },
                    }
                }
            },
        }
    }

    /// The poll task has fired.
    pub fn task_callback(&mut self, scheduler: &mut Scheduler) -> (action: NetworkAction)
        ensures
            step_taken(
                step_poll(
                    old(self)@,
                    old(scheduler).tasks().len() < MAX_TASKS,
                    TaskHandle { id: old(scheduler).next_handle() },
                ),
                final(self)@,
                action,
                *old(scheduler),
                *final(scheduler),
            ),
    {
        match self.state {
            NetworkState::UNINITIALIZED => self.discover(scheduler),
            NetworkState::ERROR => self.discover(scheduler),
            NetworkState::REROOT => self.discover(scheduler),
            NetworkState::INITIALIZING => {
                self.state = NetworkState::IDLE;
                self.pending = None;
                NetworkAction::Nothing
            },
            NetworkState::IDLE => NetworkAction::Nothing,
            NetworkState::BUSY => NetworkAction::Nothing,
        }
    }

    /// The timeout task with the given handle has fired.
    pub fn task_timeout(&mut self, handle: TaskHandle)
        ensures
            final(self)@ == step_timeout(old(self)@, handle).model,
    {
        let awaited = match self.pending {
            Some(pending) => pending.id == handle.id,
            None => false,
        };
        if awaited {
            self.state = NetworkState::ERROR;
            self.pending = None;
            self.last_error = Some(NetworkError::Timeout);
        }
    }

    fn malformed(&mut self, error: NetworkError)
        ensures
            final(self)@ == step_malformed(old(self)@, error).model,
    {
        self.state = NetworkState::ERROR;
        self.pending = None;
        self.last_error = Some(error);
    }

    fn connected(&mut self, scheduler: &mut Scheduler, port: HardPort) -> (action: NetworkAction)
        ensures
            step_taken(
                step_connected(
                    old(self)@,
                    port,
                    old(scheduler).tasks().len() < MAX_TASKS,
                    TaskHandle { id: old(scheduler).next_handle() },
                ),
                final(self)@,
                action,
                *old(scheduler),
                *final(scheduler),
            ),
    {
        let query = self.network_query(port, NetworkQuery::SETID);
        let reaches = self.id.checked_external_id(port).is_some();
        self.ports[port.index() as usize] = PortInfo {
            address: NetworkId { x: 0, y: 0, uid: UID_INVALID },
            state: PortState::PORT_IDLE,
        };
        let idle = match self.state {
            NetworkState::IDLE => true,
            _ => false,
        };
        if idle && reaches && scheduler.len() < MAX_TASKS {
            match self.schedule(scheduler) {
                Ok(_) => {
                    self.state = NetworkState::BUSY;
                    self.selected_port = port;
                    NetworkAction::Send(query)
                },
                Err(_) => NetworkAction::Nothing,
            }
        } else {
            NetworkAction::Nothing
        }
    }

    fn disconnected(&mut self, port: HardPort)
        ensures
            final(self)@ == step_disconnected(old(self)@, port).model,
    {
        self.ports[port.index() as usize] = PortInfo {
            address: NetworkId { x: 0, y: 0, uid: UID_INVALID },
            state: PortState::PORT_DISCONNECTED,
        };
        let towards_root = match self.root_port {
            Some(root) => root.index() == port.index(),
            None => false,
        };
        let selected = self.selected_port.index() == port.index();
        match self.state {
            NetworkState::INITIALIZING | NetworkState::IDLE => {
                if towards_root {
                    self.state = NetworkState::REROOT;
                    self.root_port = None;
                    self.pending = None;
                }
            },
            NetworkState::BUSY => {
                if towards_root {
                    self.state = NetworkState::REROOT;
                    self.root_port = None;
                    self.pending = None;
                } else if selected {
                    self.state = NetworkState::IDLE;
                    self.pending = None;
                }
            },
            NetworkState::UNINITIALIZED => {
                if selected {
                    self.pending = None;
                }
            },
            _ => {},
        }
    }

    fn adopt(&mut self, frame: Frame) -> (id: NetworkId)
        ensures
            final(self)@ == model_adopting(old(self)@, frame),
            id == adopted_identity(old(self)@.id, frame.id),
    {
        let id = NetworkId {
            x: frame.id.x,
            y: frame.id.y,
            uid: if self.id.uid == UID_INVALID {
                frame.id.uid
            } else {
                self.id.uid
            },
        };
        self.state = NetworkState::INITIALIZING;
        self.id = id;
        self.root_port = Some(frame.port);
        self.pending = None;
        id
    }

    fn refuse(&self, frame: Frame) -> (action: NetworkAction)
        ensures
            action == step_refuse(self@, frame).action,
    {
        NetworkAction::Send(
            Frame {
                port: frame.port,
                status: MessageStatus::STATUS_NAK,
                query: frame.query,
                tag: frame.tag,
                id: self.id,
            },
        )
    }

    fn relay(&self, frame: Frame) -> (action: NetworkAction)
        ensures
            action == step_relay(self@, frame).action,
    {
        match next_hop(self.id, frame.id) {
            None => NetworkAction::Send(
                Frame {
                    port: frame.port,
                    status: MessageStatus::STATUS_ACK,
                    query: frame.query,
                    tag: frame.tag,
                    id: self.id,
                },
            ),
            Some(hop) => {
                if self.ports[hop.index() as usize].state != PortState::PORT_DISCONNECTED {
                    NetworkAction::Send(
                        Frame {
                            port: hop,
                            status: frame.status,
                            query: frame.query,
                            tag: frame.tag,
                            id: frame.id,
                        },
                    )
                } else {
                    self.refuse(frame)
                }
            },
        }
    }

    fn flood(&mut self, frame: Frame) -> (action: NetworkAction)
        ensures
            final(self)@ == step_flood(old(self)@, frame).model,
            action == step_flood(old(self)@, frame).action,
    {
        let seen = match self.last_flood {
            Some(last) => last.origin == frame.id.uid && last.tag == frame.tag,
            None => false,
        };
        if seen {
            NetworkAction::Nothing
        } else {
            self.last_flood = Some(FloodTag { origin: frame.id.uid, tag: frame.tag });
            NetworkAction::Flood(frame)
        }
    }

    fn answer(&mut self, frame: Frame) -> (action: NetworkAction)
        ensures
            final(self)@ == step_answer(old(self)@, frame).model,
            action == step_answer(old(self)@, frame).action,
    {
        match frame.query {
            NetworkQuery::WHOAMI => match self.id.checked_external_id(frame.port) {
                Some(external) => {
                    let slot: usize = frame.port.index() as usize;
                    let link = self.ports[slot].state;
                    self.ports[slot] = PortInfo {
                        address: NetworkId { x: external.x, y: external.y, uid: frame.id.uid },
                        state: link,
                    };
                    NetworkAction::Send(
                        Frame {
                            port: frame.port,
                            status: MessageStatus::STATUS_OK,
                            query: frame.query,
                            tag: frame.tag,
                            id: external,
                        },
                    )
                },
                None => self.refuse(frame),
            },
            NetworkQuery::GETID => NetworkAction::Send(
                Frame {
                    port: frame.port,
                    status: MessageStatus::STATUS_OK,
                    query: frame.query,
                    tag: frame.tag,
                    id: self.id,
                },
            ),
            NetworkQuery::SETID => {
                let from_root = match self.root_port {
                    Some(root) => root.index() == frame.port.index(),
                    None => false,
                };
                if from_root {
                    let id = NetworkId {
                        x: frame.id.x,
                        y: frame.id.y,
                        uid: if self.id.uid == UID_INVALID {
                            frame.id.uid
                        } else {
                            self.id.uid
                        },
                    };
                    self.id = id;
                    NetworkAction::Send(
                        Frame {
                            port: frame.port,
                            status: MessageStatus::STATUS_ACK,
                            query: frame.query,
                            tag: frame.tag,
                            id,
                        },
                    )
                } else {
                    self.refuse(frame)
                }
            },
            NetworkQuery::FORWARD => self.relay(frame),
            NetworkQuery::ROUTETO => self.relay(frame),
            NetworkQuery::ENUMERATE => self.flood(frame),
            NetworkQuery::BROADCAST => self.flood(frame),
            NetworkQuery::INVALID => self.refuse(frame),
        }
    }

    fn busy(&mut self, frame: Frame) -> (action: NetworkAction)
        ensures
            final(self)@ == step_busy(old(self)@, frame).model,
            action == step_busy(old(self)@, frame).action,
    {
        let own_exchange = match frame.query {
            NetworkQuery::SETID => frame.port.index() == self.selected_port.index(),
            _ => false,
        };
        match frame.status {
            MessageStatus::STATUS_QUERY => NetworkAction::Defer(frame),
            MessageStatus::STATUS_ACK | MessageStatus::STATUS_OK => {
                if own_exchange {
                    let slot: usize = frame.port.index() as usize;
                    let link = self.ports[slot].state;
                    self.ports[slot] = PortInfo { address: frame.id, state: link };
                    self.state = NetworkState::IDLE;
                    self.pending = None;
                }
                NetworkAction::Nothing
            },
            _ => {
                if own_exchange {
                    self.state = NetworkState::IDLE;
                    self.pending = None;
                }
                NetworkAction::Nothing
            },
        }
    }

    fn joining(&mut self, frame: Frame) -> (action: NetworkAction)
        ensures
            final(self)@ == step_joining(old(self)@, frame).model,
            action == step_joining(old(self)@, frame).action,
    {
        let awaited = match (frame.status, frame.query) {
            (MessageStatus::STATUS_OK, NetworkQuery::WHOAMI) => frame.port.index()
                == self.selected_port.index() && self.pending.is_some(),
            _ => false,
        };
        if awaited {
            let _ = self.adopt(frame);
            NetworkAction::Nothing
        } else {
            match (frame.status, frame.query) {
                (MessageStatus::STATUS_QUERY, NetworkQuery::SETID) => {
                    let id = self.adopt(frame);
                    NetworkAction::Send(
                        Frame {
                            port: frame.port,
                            status: MessageStatus::STATUS_ACK,
                            query: frame.query,
                            tag: frame.tag,
                            id,
                        },
                    )
                },
                (MessageStatus::STATUS_QUERY, _) => self.refuse(frame),
                _ => NetworkAction::Nothing,
            }
        }
    }

    fn received(&mut self, frame: Frame) -> (action: NetworkAction)
        ensures
            final(self)@ == step_received(old(self)@, frame).model,
            action == step_received(old(self)@, frame).action,
    {
        let query = match frame.status {
            MessageStatus::STATUS_QUERY => true,
            _ => false,
        };
        match self.state {
            NetworkState::UNINITIALIZED => self.joining(frame),
            NetworkState::IDLE => {
                if query {
                    self.answer(frame)
                } else {
                    NetworkAction::Nothing
                }
            },
            NetworkState::BUSY => self.busy(frame),
            _ => {
                if query {
                    self.refuse(frame)
                } else {
                    NetworkAction::Nothing
                }
            },
        }
    }

    /// Takes one event: the cell changes state as `network_step` says, the
    /// scheduler gains a timeout task where the step arms one, and the host
    /// is told what to do.
    pub fn update(&mut self, scheduler: &mut Scheduler, event: NetworkEvent) -> (action:
        NetworkAction)
        ensures
            step_taken(
                update_step(
                    old(self)@,
                    old(scheduler).tasks(),
                    old(scheduler).next_handle(),
                    event,
                ),
                final(self)@,
                action,
                *old(scheduler),
                *final(scheduler),
            ),
    {
        match event {
            NetworkEvent::Poll => self.task_callback(scheduler),
            NetworkEvent::Timeout(handle) => {
                self.task_timeout(handle);
                NetworkAction::Nothing
            },
            NetworkEvent::Received(frame) => self.received(frame),
            NetworkEvent::Malformed(error) => {
                self.malformed(error);
                NetworkAction::Nothing
            },
            NetworkEvent::PortConnected(port) => self.connected(scheduler, port),
            NetworkEvent::PortDisconnected(port) => {
                self.disconnected(port);
                NetworkAction::Nothing
            },
        }
    }

    /// Starts the cell: queues the poll task, where the scheduler has room
    /// for it, and takes a first poll.
    pub fn init(&mut self, scheduler: &mut Scheduler) -> (action: NetworkAction)
        ensures
            final(self)@ == init_step(
                old(self)@,
                old(scheduler).tasks(),
                old(scheduler).next_handle(),
            ).model,
            action == init_step(
                old(self)@,
                old(scheduler).tasks(),
                old(scheduler).next_handle(),
            ).action,
            final(scheduler).tasks() == tasks_after_step(
                tasks_with_poll(old(scheduler).tasks(), old(scheduler).next_handle()),
                handle_with_poll(old(scheduler).tasks(), old(scheduler).next_handle()),
                init_step(old(self)@, old(scheduler).tasks(), old(scheduler).next_handle()),
            ),
            final(scheduler).next_handle() == handle_after_step(
                handle_with_poll(old(scheduler).tasks(), old(scheduler).next_handle()),
                init_step(old(self)@, old(scheduler).tasks(), old(scheduler).next_handle()),
            ),
            final(scheduler).last_tick() == old(scheduler).last_tick(),
    {
        let _ = scheduler.queue_task(TaskKind::NetworkPoll, POLL_INTERVAL, false);
        self.task_callback(scheduler)
    }

    /// Starts a flood of the cell's own; only a cell in `IDLE` does.
    pub fn broadcast(&mut self) -> (action: NetworkAction)
        ensures
            final(self)@ == step_broadcast(old(self)@).model,
            action == step_broadcast(old(self)@).action,
    {
        match self.state {
            NetworkState::IDLE => {
                let frame = self.network_query(self.selected_port, NetworkQuery::BROADCAST);
                self.last_flood = Some(
                    FloodTag { origin: self.id.uid, tag: self.broadcast_counter },
                );
                self.broadcast_counter = self.broadcast_counter.wrapping_add(1);
                NetworkAction::Broadcast(frame)
            },
            _ => NetworkAction::Nothing,
        }
    }
}

/// Largest number of messages that wait in a message queue.
pub const MAX_QUEUED_MESSAGES: usize = 15;

/// The queue in which the messages that have arrived wait for the cell. A
/// message that finds the queue full is not taken, and is counted.
pub struct MessageQueueFSM {
    queue: MessageQueue,
    dropped: u32,
}

impl MessageQueueFSM {
    /// The waiting messages, oldest first.
    pub closed spec fn messages(&self) -> Seq<MessageView> {
        queued_messages(self.queue).map_values(|message: Message| message@)
    }

    /// Number of messages that found the queue full, held at `u32::MAX`.
    pub closed spec fn dropped(&self) -> u32 {
        self.dropped
    }

    /// An empty queue that has dropped nothing.
    pub fn new() -> (queue: MessageQueueFSM)
        ensures
            queue.messages() == Seq::<MessageView>::empty(),
            queue.dropped() == 0,
    {
        let queue = MessageQueueFSM { queue: messages_new(), dropped: 0 };
        assert(queue.messages() =~= Seq::<MessageView>::empty());
        queue
    }

    /// Number of waiting messages.
    pub fn len(&self) -> (len: usize)
        ensures
            len == self.messages().len(),
            len <= MAX_QUEUED_MESSAGES,
    {
        messages_len(&self.queue)
    }

    /// Number of messages that found the queue full, held at `u32::MAX`.
    pub fn dropped_count(&self) -> (count: u32)
        ensures
            count == self.dropped(),
    {
        self.dropped
    }

    /// Puts `message` behind the waiting ones. A full queue stays as it is,
    /// counts the message as dropped and hands it back.
    pub fn enqueue(&mut self, message: Message) -> (queued: Result<(), Message>)
        ensures
            old(self).messages().len() < MAX_QUEUED_MESSAGES ==> queued is Ok
                && final(self).messages() == old(self).messages().push(message@)
                && final(self).dropped() == old(self).dropped(),
            old(self).messages().len() >= MAX_QUEUED_MESSAGES ==> queued is Err
                && queued->Err_0@ == message@ && final(self).messages() == old(self).messages()
                && final(self).dropped() == if old(self).dropped() == u32::MAX {
                u32::MAX
            } else {
                (old(self).dropped() + 1) as u32
            },
    {
        match messages_enqueue(&mut self.queue, message) {
            Ok(()) => {
                assert(self.messages() =~= old(self).messages().push(message@));
                Ok(())
            },
            Err(back) => {
                self.dropped = self.dropped.saturating_add(1);
                Err(back)
            },
        }
    }

    /// Takes the oldest waiting message, or reports `EmptyQueueError`.
    pub fn dequeue(&mut self) -> (front: Result<Message, GenError>)
        ensures
            old(self).messages().len() > 0 ==> front is Ok
                && front->Ok_0@ == old(self).messages()[0]
                && final(self).messages() == old(self).messages().drop_first(),
            old(self).messages().len() == 0 ==> front is Err && front->Err_0
                == GenError::EmptyQueueError && final(self).messages() == old(self).messages(),
            final(self).dropped() == old(self).dropped(),
    {
        match messages_dequeue(&mut self.queue) {
            Some(message) => {
                assert(self.messages() =~= old(self).messages().drop_first());
                Ok(message)
            },
            None => Err(GenError::EmptyQueueError),
        }
    }
}

/// Law of the root: a cell with no neighbour needs no message to find its
/// place. Its first poll, taken by `init`, gives it the root's identity and
/// takes it to `INITIALIZING`; the next poll takes it on to `IDLE`. Neither
/// sends anything nor arms a timeout.
pub proof fn lemma_root_bootstrap(
    model: NetworkModel,
    tasks: Seq<TaskData>,
    next: u32,
    later_tasks: Seq<TaskData>,
    later_next: u32,
)
    requires
        model.state == NetworkState::UNINITIALIZED,
        first_connected(model.ports) is None,
    ensures
        init_step(model, tasks, next).model.state == NetworkState::INITIALIZING,
        init_step(model, tasks, next).model.id == root_identity(model.id),
        init_step(model, tasks, next).model.root_port is None,
        init_step(model, tasks, next).action == NetworkAction::Nothing,
        !init_step(model, tasks, next).arms_timeout,
        update_step(
            init_step(model, tasks, next).model,
            later_tasks,
            later_next,
            NetworkEvent::Poll,
        ).model.state == NetworkState::IDLE,
        update_step(
            init_step(model, tasks, next).model,
            later_tasks,
            later_next,
            NetworkEvent::Poll,
        ).model.id == root_identity(model.id),
        update_step(
            init_step(model, tasks, next).model,
            later_tasks,
            later_next,
            NetworkEvent::Poll,
        ).action == NetworkAction::Nothing,
{
}

/// A cell as `new` makes it has no neighbour.
pub proof fn lemma_fresh_network_is_alone(id: NetworkId)
    ensures
        fresh_network(id).state == NetworkState::UNINITIALIZED,
        first_connected(fresh_network(id).ports) is None,
{
    reveal_with_fuel(first_connected_from, 7);
}

/// Law of addresses: the coordinates a cell assigns to a neighbour, by
/// `SETID` to a new neighbour or in answer to `WHOAMI`, lie one step through
/// the neighbour's port from its own, and carry no unique id.
pub proof fn lemma_assigned_id_is_one_step_away(
    model: NetworkModel,
    port: HardPort,
    frame: Frame,
    room: bool,
    handle: TaskHandle,
)
    requires
        model.state == NetworkState::IDLE,
        frame.query == NetworkQuery::WHOAMI,
    ensures
        step_connected(model, port, room, handle).action matches NetworkAction::Send(sent)
            ==> sent.id.uid == UID_INVALID && sent.id.x == model.id.x + port_delta(port).0
            && sent.id.y == model.id.y + port_delta(port).1,
        step_answer(model, frame).action matches NetworkAction::Send(sent) ==> (sent.status
            == MessageStatus::STATUS_OK ==> sent.id.uid == UID_INVALID && sent.id.x == model.id.x
            + port_delta(frame.port).0 && sent.id.y == model.id.y + port_delta(frame.port).1),
{
}

} // verus!
