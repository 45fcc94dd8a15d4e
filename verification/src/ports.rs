//! The six ports of a cell: their discovery rank and the step each one takes
//! on the grid.

use vstd::prelude::*;

verus! {

/// Number of ports on one cell.
pub const PORT_COUNT: usize = 6;

/// A physical port of a cell.
#[allow(non_camel_case_types)]
#[derive(Clone, Copy, Debug, PartialEq, Eq, Structural)]
pub enum HardPort {
    PORT_A,
    PORT_B,
    PORT_C,
    PORT_D,
    PORT_E,
    PORT_F,
}

/// The position of a port in the order A to F.
pub open spec fn port_index(port: HardPort) -> u8 {
    match port {
        HardPort::PORT_A => 0,
        HardPort::PORT_B => 1,
        HardPort::PORT_C => 2,
        HardPort::PORT_D => 3,
        HardPort::PORT_E => 4,
        HardPort::PORT_F => 5,
    }
}

/// The discovery rank of a port; a lower rank is probed first.
pub open spec fn port_rank(port: HardPort) -> u8 {
    match port {
        HardPort::PORT_A => 0,
        HardPort::PORT_B => 4,
        HardPort::PORT_C => 2,
        HardPort::PORT_D => 3,
        HardPort::PORT_E => 1,
        HardPort::PORT_F => 5,
    }
}

/// The port that holds a rank.
pub open spec fn ranked_port(rank: u8) -> HardPort
    recommends
        rank < PORT_COUNT,
{
    if rank == 0 {
        HardPort::PORT_A
    } else if rank == 1 {
        HardPort::PORT_E
    } else if rank == 2 {
        HardPort::PORT_C
    } else if rank == 3 {
        HardPort::PORT_D
    } else if rank == 4 {
        HardPort::PORT_B
    } else {
        HardPort::PORT_F
    }
}

/// The step on the grid that leads through a port: `(dx, dy)`.
pub open spec fn port_delta(port: HardPort) -> (int, int) {
    match port {
        HardPort::PORT_A => (0, 1),
        HardPort::PORT_B => (1, 1),
        HardPort::PORT_C => (-1, 0),
        HardPort::PORT_D => (-1, 1),
        HardPort::PORT_E => (1, 0),
        HardPort::PORT_F => (0, -1),
    }
}

impl HardPort {
    /// The position of the port in the order A to F.
    pub fn index(self) -> (idx: u8)
        ensures
            idx == port_index(self),
            idx < PORT_COUNT,
    {
        match self {
            HardPort::PORT_A => 0,
            HardPort::PORT_B => 1,
            HardPort::PORT_C => 2,
            HardPort::PORT_D => 3,
            HardPort::PORT_E => 4,
            HardPort::PORT_F => 5,
        }
    }

    /// The port at a position in the order A to F, if there is one.
    pub fn from_index(idx: u8) -> (port: Option<HardPort>)
        ensures
            idx < PORT_COUNT <==> port is Some,
            port matches Some(p) ==> port_index(p) == idx,
    {
        if idx == 0 {
            Some(HardPort::PORT_A)
        } else if idx == 1 {
            Some(HardPort::PORT_B)
        } else if idx == 2 {
            Some(HardPort::PORT_C)
        } else if idx == 3 {
            Some(HardPort::PORT_D)
        } else if idx == 4 {
            Some(HardPort::PORT_E)
        } else if idx == 5 {
            Some(HardPort::PORT_F)
        } else {
            None
        }
    }
}

/// The discovery rank of `port`.
pub fn rank_of(port: HardPort) -> (rank: u8)
    ensures
        rank == port_rank(port),
        rank < PORT_COUNT,
{
    match port {
        HardPort::PORT_A => 0,
        HardPort::PORT_B => 4,
        HardPort::PORT_C => 2,
        HardPort::PORT_D => 3,
        HardPort::PORT_E => 1,
        HardPort::PORT_F => 5,
    }
}

/// The port that holds `rank`.
pub fn port_of_rank(rank: u8) -> (port: HardPort)
    requires
        rank < PORT_COUNT,
    ensures
        port == ranked_port(rank),
        port_rank(port) == rank,
{
    if rank == 0 {
        HardPort::PORT_A
    } else if rank == 1 {
        HardPort::PORT_E
    } else if rank == 2 {
        HardPort::PORT_C
    } else if rank == 3 {
        HardPort::PORT_D
    } else if rank == 4 {
        HardPort::PORT_B
    } else {
        HardPort::PORT_F
    }
}

/// The step on the grid that leads through `port`.
pub fn coordinate_delta(port: HardPort) -> (delta: (i16, i16))
    ensures
        delta.0 == port_delta(port).0,
        delta.1 == port_delta(port).1,
{
    match port {
        HardPort::PORT_A => (0, 1),
        HardPort::PORT_B => (1, 1),
        HardPort::PORT_C => (-1, 0),
        HardPort::PORT_D => (-1, 1),
        HardPort::PORT_E => (1, 0),
        HardPort::PORT_F => (0, -1),
    }
}

/// Ranks and ports correspond one to one.
pub proof fn lemma_rank_bijection(port: HardPort, rank: u8)
    requires
        rank < PORT_COUNT,
    ensures
        port_rank(port) < PORT_COUNT,
        ranked_port(port_rank(port)) == port,
        port_rank(ranked_port(rank)) == rank,
{
}

/// No two ports take the same step on the grid.
pub proof fn lemma_deltas_distinct(first: HardPort, second: HardPort)
    requires
        first != second,
    ensures
        port_delta(first) != port_delta(second),
{
}

} // verus!
