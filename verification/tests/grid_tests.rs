use hexcell::grid::{coordinates_to_ports, Coordinate, Placement, SimError};
use hexcell::ports::HardPort;

fn at(x: i32, y: i32) -> Coordinate {
    Coordinate { x, y }
}

fn sorted(mut places: Vec<Coordinate>) -> Vec<(i32, i32)> {
    places.sort_by_key(|place| (place.x, place.y));
    places.iter().map(|place| (place.x, place.y)).collect()
}

#[test]
fn six_places_round_a_place() {
    assert_eq!(
        at(2, 3).adjacent_coordinates(),
        [at(2, 2), at(3, 2), at(3, 3), at(2, 4), at(1, 3), at(1, 2)]
    );
}

#[test]
fn places_next_to_each_other() {
    let origin = at(0, 0);
    assert!(origin.is_adjacent(&origin));
    assert!(origin.is_adjacent(&at(0, 1)));
    assert!(origin.is_adjacent(&at(0, -1)));
    assert!(origin.is_adjacent(&at(1, 0)));
    assert!(origin.is_adjacent(&at(-1, 0)));
    assert!(origin.is_adjacent(&at(1, -1)));
    assert!(origin.is_adjacent(&at(-1, -1)));
    // Another column, in the row below: not next to it.
    assert!(!origin.is_adjacent(&at(1, 1)));
    assert!(!origin.is_adjacent(&at(-1, 1)));
    assert!(!origin.is_adjacent(&at(2, 0)));
    assert!(!origin.is_adjacent(&at(0, 2)));
    assert!(!origin.is_adjacent(&at(0, -2)));
}

#[test]
fn places_at_the_ends_of_the_table_are_told_apart() {
    let low = at(i32::MIN, i32::MIN);
    let high = at(i32::MAX, i32::MAX);
    assert!(!low.is_adjacent(&high));
    assert!(!high.is_adjacent(&low));
    assert!(high.is_adjacent(&at(i32::MAX, i32::MAX - 1)));
    assert_eq!(coordinates_to_ports(low, high), None);
    assert_eq!(
        coordinates_to_ports(at(i32::MAX, i32::MAX), at(i32::MAX - 1, i32::MAX - 1)),
        Some((HardPort::PORT_D, HardPort::PORT_E))
    );
}

#[test]
fn ports_of_a_connection() {
    let from = at(4, 4);
    assert_eq!(
        coordinates_to_ports(from, at(3, 3)),
        Some((HardPort::PORT_D, HardPort::PORT_E))
    );
    assert_eq!(
        coordinates_to_ports(from, at(4, 3)),
        Some((HardPort::PORT_A, HardPort::PORT_F))
    );
    assert_eq!(
        coordinates_to_ports(from, at(5, 3)),
        Some((HardPort::PORT_B, HardPort::PORT_C))
    );
    assert_eq!(
        coordinates_to_ports(from, at(3, 5)),
        Some((HardPort::PORT_C, HardPort::PORT_B))
    );
    assert_eq!(
        coordinates_to_ports(from, at(4, 5)),
        Some((HardPort::PORT_F, HardPort::PORT_A))
    );
    assert_eq!(
        coordinates_to_ports(from, at(5, 5)),
        Some((HardPort::PORT_E, HardPort::PORT_D))
    );
}

#[test]
fn places_that_no_connection_joins() {
    let from = at(4, 4);
    for to in [at(4, 4), at(5, 4), at(3, 4), at(4, 6), at(6, 5), at(2, 3), at(4, 2)] {
        assert_eq!(coordinates_to_ports(from, to), None);
    }
}

#[test]
fn connection_seen_from_the_other_end_swaps_the_ports() {
    let from = at(0, 0);
    for to in [at(-1, -1), at(0, -1), at(1, -1), at(-1, 1), at(0, 1), at(1, 1)] {
        let (near, far) = coordinates_to_ports(from, to).unwrap();
        assert_eq!(coordinates_to_ports(to, from), Some((far, near)));
    }
}

#[test]
fn new_table_is_empty() {
    let table = Placement::new();
    assert_eq!(table.device_count(), 0);
    assert!(!table.has_device(at(0, 0)));
    assert!(!table.is_connected(at(0, 0), at(0, 1)));
    assert_eq!(table.connections(at(0, 0)), Vec::<Coordinate>::new());
    assert_eq!(table.unique_connections(), Vec::<(Coordinate, Coordinate)>::new());
}

#[test]
fn place_holds_one_cell() {
    let mut table = Placement::new();
    assert_eq!(table.new_device(at(0, 0)), Ok(()));
    assert_eq!(table.new_device(at(0, 1)), Ok(()));
    assert_eq!(table.new_device(at(0, 0)), Err(SimError::ExistingDeviceAtCoordinate));
    assert_eq!(table.device_count(), 2);
    assert!(table.has_device(at(0, 0)) && table.has_device(at(0, 1)));
    assert!(!table.has_device(at(1, 1)));
}

#[test]
fn connection_needs_a_cell_at_both_ends() {
    let mut table = Placement::new();
    table.new_device(at(0, 0)).unwrap();
    assert_eq!(table.enable_connection(at(0, 0), at(0, 1)), Err(SimError::InvalidConnection));
    assert_eq!(table.enable_connection(at(0, 1), at(0, 0)), Err(SimError::InvalidConnection));
    assert_eq!(table.enable_connection(at(5, 5), at(6, 6)), Err(SimError::InvalidConnection));
    assert_eq!(table.unique_connections(), Vec::<(Coordinate, Coordinate)>::new());
}

#[test]
fn connection_leads_both_ways_and_is_made_once() {
    let mut table = Placement::new();
    table.new_device(at(0, 0)).unwrap();
    table.new_device(at(0, 1)).unwrap();
    assert_eq!(table.enable_connection(at(0, 0), at(0, 1)), Ok(()));
    assert!(table.is_connected(at(0, 0), at(0, 1)));
    assert!(table.is_connected(at(0, 1), at(0, 0)));
    assert_eq!(table.enable_connection(at(0, 0), at(0, 1)), Err(SimError::ConnectionExists));
    assert_eq!(table.enable_connection(at(0, 1), at(0, 0)), Err(SimError::ConnectionExists));
    assert_eq!(table.connections(at(0, 0)), vec![at(0, 1)]);
    assert_eq!(table.connections(at(0, 1)), vec![at(0, 0)]);
    assert_eq!(table.unique_connections().len(), 1);
}

#[test]
fn disabled_connection_is_gone_both_ways() {
    let mut table = Placement::new();
    for place in [at(0, 0), at(0, 1), at(1, 1)] {
        table.new_device(place).unwrap();
    }
    table.enable_connection(at(0, 0), at(0, 1)).unwrap();
    table.enable_connection(at(0, 1), at(1, 1)).unwrap();
    table.disable_connection(at(0, 1), at(0, 0));
    assert!(!table.is_connected(at(0, 0), at(0, 1)));
    assert!(!table.is_connected(at(0, 1), at(0, 0)));
    assert!(table.is_connected(at(0, 1), at(1, 1)));
    // Disabling what is not there changes nothing.
    table.disable_connection(at(7, 7), at(8, 8));
    assert_eq!(table.connections(at(0, 1)), vec![at(1, 1)]);
    assert_eq!(table.enable_connection(at(0, 0), at(0, 1)), Ok(()));
}

#[test]
fn each_connection_is_listed_once() {
    let mut table = Placement::new();
    let places = [at(0, 0), at(0, 1), at(1, 1), at(2, 2)];
    for place in places {
        table.new_device(place).unwrap();
    }
    table.enable_connection(places[0], places[1]).unwrap();
    table.enable_connection(places[2], places[1]).unwrap();
    table.enable_connection(places[0], places[3]).unwrap();
    let pairs = table.unique_connections();
    assert_eq!(pairs.len(), 3);
    for (first, second) in [(0, 1), (2, 1), (0, 3)] {
        let forward = pairs.contains(&(places[first], places[second]));
        let backward = pairs.contains(&(places[second], places[first]));
        assert!(forward != backward);
    }
    assert_eq!(sorted(table.connections(places[0])), vec![(0, 1), (2, 2)]);
    assert_eq!(sorted(table.connections(places[1])), vec![(0, 0), (1, 1)]);
}

#[test]
fn removing_a_cell_cuts_its_connections_and_leaves_it_standing() {
    let mut table = Placement::new();
    for place in [at(0, 0), at(0, 1), at(1, 1)] {
        table.new_device(place).unwrap();
    }
    table.enable_connection(at(0, 0), at(0, 1)).unwrap();
    table.enable_connection(at(0, 0), at(1, 1)).unwrap();
    table.enable_connection(at(0, 1), at(1, 1)).unwrap();
    table.remove_device(&at(0, 0));
    assert_eq!(table.connections(at(0, 0)), Vec::<Coordinate>::new());
    assert!(!table.is_connected(at(0, 1), at(0, 0)));
    assert!(!table.is_connected(at(1, 1), at(0, 0)));
    assert!(table.is_connected(at(0, 1), at(1, 1)));
    assert!(table.has_device(at(0, 0)));
    assert_eq!(table.device_count(), 3);
}

#[test]
fn moving_a_cell() {
    let mut table = Placement::new();
    for place in [at(0, 0), at(0, 1), at(5, 5)] {
        table.new_device(place).unwrap();
    }
    table.enable_connection(at(0, 0), at(0, 1)).unwrap();
    table.enable_connection(at(0, 0), at(5, 5)).unwrap();

    assert_eq!(table.move_device(at(0, 0), at(0, 1)), Err(SimError::ExistingDeviceAtCoordinate));
    assert!(table.is_connected(at(0, 0), at(0, 1)));

    assert_eq!(table.move_device(at(0, 0), at(3, 3)), Ok(()));
    assert!(!table.has_device(at(0, 0)));
    assert!(table.has_device(at(3, 3)));
    assert_eq!(table.device_count(), 3);
    // The connection to the place next to it is gone; the one to a place
    // further off is not touched.
    assert!(!table.is_connected(at(0, 0), at(0, 1)));
    assert!(!table.is_connected(at(0, 1), at(0, 0)));
    assert!(table.is_connected(at(0, 0), at(5, 5)));

    assert_eq!(table.move_device(at(9, 9), at(8, 8)), Err(SimError::UnknownDevice));
    assert_eq!(table.device_count(), 3);
}
