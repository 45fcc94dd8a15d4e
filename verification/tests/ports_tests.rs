use hexcell::ports::{coordinate_delta, port_of_rank, rank_of, HardPort, PORT_COUNT};

const PORTS: [HardPort; 6] = [
    HardPort::PORT_A,
    HardPort::PORT_B,
    HardPort::PORT_C,
    HardPort::PORT_D,
    HardPort::PORT_E,
    HardPort::PORT_F,
];

#[test]
fn ranks_of_the_six_ports() {
    assert_eq!(rank_of(HardPort::PORT_A), 0);
    assert_eq!(rank_of(HardPort::PORT_B), 4);
    assert_eq!(rank_of(HardPort::PORT_C), 2);
    assert_eq!(rank_of(HardPort::PORT_D), 3);
    assert_eq!(rank_of(HardPort::PORT_E), 1);
    assert_eq!(rank_of(HardPort::PORT_F), 5);
}

#[test]
fn ports_of_the_six_ranks() {
    assert_eq!(port_of_rank(0), HardPort::PORT_A);
    assert_eq!(port_of_rank(1), HardPort::PORT_E);
    assert_eq!(port_of_rank(2), HardPort::PORT_C);
    assert_eq!(port_of_rank(3), HardPort::PORT_D);
    assert_eq!(port_of_rank(4), HardPort::PORT_B);
    assert_eq!(port_of_rank(5), HardPort::PORT_F);
}

#[test]
fn rank_and_port_are_inverse() {
    for port in PORTS {
        assert_eq!(port_of_rank(rank_of(port)), port);
    }
    for rank in 0..PORT_COUNT as u8 {
        assert_eq!(rank_of(port_of_rank(rank)), rank);
    }
}

#[test]
fn deltas_of_the_six_ports() {
    assert_eq!(coordinate_delta(HardPort::PORT_A), (0, 1));
    assert_eq!(coordinate_delta(HardPort::PORT_B), (1, 1));
    assert_eq!(coordinate_delta(HardPort::PORT_C), (-1, 0));
    assert_eq!(coordinate_delta(HardPort::PORT_D), (-1, 1));
    assert_eq!(coordinate_delta(HardPort::PORT_E), (1, 0));
    assert_eq!(coordinate_delta(HardPort::PORT_F), (0, -1));
}

#[test]
fn deltas_are_pairwise_distinct() {
    for first in PORTS {
        for second in PORTS {
            if first != second {
                assert_ne!(coordinate_delta(first), coordinate_delta(second));
            }
        }
    }
}

#[test]
fn index_and_from_index() {
    for (position, port) in PORTS.iter().enumerate() {
        assert_eq!(port.index() as usize, position);
        assert_eq!(HardPort::from_index(position as u8), Some(*port));
    }
    assert_eq!(HardPort::from_index(6), None);
    assert_eq!(HardPort::from_index(255), None);
}
