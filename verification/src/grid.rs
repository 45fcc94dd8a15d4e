//! A table of cells for trying a mesh out: where the cells stand on a grid of
//! columns and rows, and which of them are connected.
//!
//! Every other column of the grid is shifted by half a row, so a cell has six
//! neighbours. Connections are kept in both directions.

use crate::ports::HardPort;
use vstd::prelude::*;

verus! {

/// What the table refuses.
#[derive(Clone, Copy, Debug, PartialEq, Eq, Structural)]
pub enum SimError {
    /// A cell already stands there.
    ExistingDeviceAtCoordinate,
    /// One end of the connection holds no cell.
    InvalidConnection,
    /// The two cells are connected already.
    ConnectionExists,
    /// No cell stands there.
    UnknownDevice,
}

/// A place on the table: column and row.
#[derive(Copy, Clone, Debug, Hash, PartialEq, Eq, Structural)]
pub struct Coordinate {
    pub x: i32,
    pub y: i32,
}

/// Whether the places round `coordinate` are all on the table.
pub open spec fn inside(coordinate: Coordinate) -> bool {
    &&& i32::MIN < coordinate.x < i32::MAX
    &&& i32::MIN < coordinate.y < i32::MAX
}

/// The six places round a place, clockwise from the one above.
pub open spec fn adjacent_to(coordinate: Coordinate) -> Seq<Coordinate>
    recommends
        inside(coordinate),
{
    seq![
        Coordinate { x: coordinate.x, y: (coordinate.y - 1) as i32 },
        Coordinate { x: (coordinate.x + 1) as i32, y: (coordinate.y - 1) as i32 },
        Coordinate { x: (coordinate.x + 1) as i32, y: coordinate.y },
        Coordinate { x: coordinate.x, y: (coordinate.y + 1) as i32 },
        Coordinate { x: (coordinate.x - 1) as i32, y: coordinate.y },
        Coordinate { x: (coordinate.x - 1) as i32, y: (coordinate.y - 1) as i32 },
    ]
}

/// Whether `other` lies next to `place`: no more than one column and one row
/// away, and, where the column differs, not in a row below.
pub open spec fn lies_next_to(place: Coordinate, other: Coordinate) -> bool {
    &&& -1 <= place.x - other.x <= 1
    &&& -1 <= place.y - other.y <= 1
    &&& (place.x == other.x || place.y >= other.y)
}

/// The ports that a connection between two places joins: the port on the
/// cell at `from`, then the port on the cell at `to`. Only places one row
/// apart, and no more than one column, are joined.
pub open spec fn ports_between(from: Coordinate, to: Coordinate) -> Option<(HardPort, HardPort)> {
    let across = to.x - from.x;
    let down = to.y - from.y;
    if down == -1 && across == -1 {
        Some((HardPort::PORT_D, HardPort::PORT_E))
    } else if down == -1 && across == 0 {
        Some((HardPort::PORT_A, HardPort::PORT_F))
    } else if down == -1 && across == 1 {
        Some((HardPort::PORT_B, HardPort::PORT_C))
    } else if down == 1 && across == -1 {
        Some((HardPort::PORT_C, HardPort::PORT_B))
    } else if down == 1 && across == 0 {
        Some((HardPort::PORT_F, HardPort::PORT_A))
    } else if down == 1 && across == 1 {
        Some((HardPort::PORT_E, HardPort::PORT_D))
    } else {
        None
    }
}

impl Coordinate {
    /// The six places round this one, clockwise from the one above.
    pub fn adjacent_coordinates(&self) -> (around: [Coordinate; 6])
        requires
            inside(*self),
        ensures
            around@ == adjacent_to(*self),
    {
        let around = [
            Coordinate { x: self.x, y: self.y - 1 },
            Coordinate { x: self.x + 1, y: self.y - 1 },
            Coordinate { x: self.x + 1, y: self.y },
            Coordinate { x: self.x, y: self.y + 1 },
            Coordinate { x: self.x - 1, y: self.y },
            Coordinate { x: self.x - 1, y: self.y - 1 },
        ];
        assert(around@ =~= adjacent_to(*self));
        around
    }

    /// Whether `other` lies next to this place.
    pub fn is_adjacent(&self, other: &Coordinate) -> (next: bool)
        ensures
            next == lies_next_to(*self, *other),
    {
        let across: i64 = self.x as i64 - other.x as i64;
        let down: i64 = self.y as i64 - other.y as i64;
        if across > 1 || across < -1 || down > 1 || down < -1 {
            false
        } else {
            self.x == other.x || self.y >= other.y
        }
    }
}

/// The ports that a connection from the cell at `from` to the cell at `to`
/// joins, or `None` where the two places are not one row apart and at most
/// one column.
pub fn coordinates_to_ports(from: Coordinate, to: Coordinate) -> (ports: Option<
    (HardPort, HardPort),
>)
    ensures
        ports == ports_between(from, to),
{
    let across: i64 = to.x as i64 - from.x as i64;
    let down: i64 = to.y as i64 - from.y as i64;
    if (down == 1 || down == -1) && -1 <= across && across <= 1 {
        if down == -1 {
            if across == -1 {
                Some((HardPort::PORT_D, HardPort::PORT_E))
            } else if across == 0 {
                Some((HardPort::PORT_A, HardPort::PORT_F))
            } else {
                Some((HardPort::PORT_B, HardPort::PORT_C))
            }
        } else {
            if across == -1 {
                Some((HardPort::PORT_C, HardPort::PORT_B))
            } else if across == 0 {
                Some((HardPort::PORT_F, HardPort::PORT_A))
            } else {
                Some((HardPort::PORT_E, HardPort::PORT_D))
            }
        }
    } else {
        None
    }
}

/// A list with one more item holds what it held, and the item.
proof fn lemma_push_members<T>(list: Seq<T>, item: T)
    ensures
        list.push(item).to_set() =~= list.to_set().insert(item),
        list.no_duplicates() && !list.contains(item) ==> list.push(item).no_duplicates(),
{
    let longer = list.push(item);
    assert forall|other: T| longer.contains(other) <==> list.contains(other) || other
        == item by {
        if list.contains(other) {
            let i = choose|i: int| 0 <= i < list.len() && list[i] == other;
            assert(longer[i] == other);
        }
        if other == item {
            assert(longer[list.len() as int] == other);
        }
    }
}

/// A list with one more item holds `other` if it held it, or if `other` is
/// the item.
proof fn lemma_push_holds<T>(list: Seq<T>, item: T, other: T)
    ensures
        list.push(item).contains(other) <==> list.contains(other) || other == item,
{
    lemma_push_members(list, item);
    assert(list.push(item).to_set().contains(other) == list.push(item).contains(other));
    assert(list.to_set().contains(other) == list.contains(other));
}

/// A list without duplicates, with one item taken out, holds what it held
/// but that item.
proof fn lemma_remove_members<T>(list: Seq<T>, at: int)
    requires
        0 <= at < list.len(),
        list.no_duplicates(),
    ensures
        list.remove(at).to_set() =~= list.to_set().remove(list[at]),
        list.remove(at).no_duplicates(),
{
    let shorter = list.remove(at);
    assert forall|other: T| shorter.contains(other) <==> list.contains(other) && other
        != list[at] by {
        if shorter.contains(other) {
            let i = choose|i: int| 0 <= i < shorter.len() && shorter[i] == other;
            if i < at {
                assert(list[i] == other);
            } else {
                assert(list[i + 1] == other);
            }
        }
        if list.contains(other) && other != list[at] {
            let i = choose|i: int| 0 <= i < list.len() && list[i] == other;
            if i < at {
                assert(shorter[i] == other);
            } else {
                assert(shorter[i - 1] == other);
            }
        }
    }
}

/// The connections that stay when `place` is cut off from the places in
/// `others`.
pub open spec fn links_cut(
    links: Set<(Coordinate, Coordinate)>,
    place: Coordinate,
    others: Set<Coordinate>,
) -> Set<(Coordinate, Coordinate)> {
    Set::new(
        |link: (Coordinate, Coordinate)|
            links.contains(link) && !(link.0 == place && others.contains(link.1)) && !(link.1
                == place && others.contains(link.0)),
    )
}

/// The places that `place` is connected to.
pub open spec fn linked_from(links: Set<(Coordinate, Coordinate)>, place: Coordinate) -> Set<
    Coordinate,
> {
    Set::new(|other: Coordinate| links.contains((place, other)))
}

/// The table as plain values: the places that hold a cell, and the
/// connections, each as the pair of its two places.
pub struct PlacementView {
    pub devices: Set<Coordinate>,
    pub links: Set<(Coordinate, Coordinate)>,
}

/// The table: where cells stand and which are connected.
pub struct Placement {
    devices: Vec<Coordinate>,
    links: Vec<(Coordinate, Coordinate)>,
}

impl View for Placement {
    type V = PlacementView;

    closed spec fn view(&self) -> PlacementView {
        PlacementView { devices: self.devices@.to_set(), links: self.links@.to_set() }
    }
}

fn find_place(places: &Vec<Coordinate>, place: Coordinate) -> (found: Option<usize>)
    ensures
        found matches Some(at) ==> at < places.len() && places@[at as int] == place,
        found is None ==> !places@.contains(place),
{
    let mut at: usize = 0;
    while at < places.len()
        invariant
            at <= places.len(),
            forall|i: int| 0 <= i < at ==> places@[i] != place,
        decreases places.len() - at,
    {
        if places[at] == place {
            return Some(at);
        }
        at = at + 1;
    }
    None
}

fn find_link(links: &Vec<(Coordinate, Coordinate)>, from: Coordinate, to: Coordinate) -> (found:
    Option<usize>)
    ensures
        found matches Some(at) ==> at < links.len() && links@[at as int] == (from, to),
        found is None ==> !links@.contains((from, to)),
{
    let mut at: usize = 0;
    while at < links.len()
        invariant
            at <= links.len(),
            forall|i: int| 0 <= i < at ==> links@[i] != (from, to),
        decreases links.len() - at,
    {
        if links[at].0 == from && links[at].1 == to {
            return Some(at);
        }
        at = at + 1;
    }
    None
}

impl Placement {
    /// The table is in order: it lists no cell twice, and no connection.
    pub closed spec fn wf(&self) -> bool {
        self.devices@.no_duplicates() && self.links@.no_duplicates()
    }

    /// An empty table.
    pub fn new() -> (table: Placement)
        ensures
            table.wf(),
            table@.devices == Set::<Coordinate>::empty(),
            table@.links == Set::<(Coordinate, Coordinate)>::empty(),
    {
        let table = Placement { devices: Vec::new(), links: Vec::new() };
        assert(table@.devices =~= Set::<Coordinate>::empty());
        assert(table@.links =~= Set::<(Coordinate, Coordinate)>::empty());
        table
    }

    /// Whether a cell stands at `place`.
    pub fn has_device(&self, place: Coordinate) -> (held: bool)
        ensures
            held == self@.devices.contains(place),
    {
        find_place(&self.devices, place).is_some()
    }

    /// Whether a connection leads from `from` to `to`.
    pub fn is_connected(&self, from: Coordinate, to: Coordinate) -> (linked: bool)
        ensures
            linked == self@.links.contains((from, to)),
    {
        find_link(&self.links, from, to).is_some()
    }

    /// Number of cells on the table.
    pub fn device_count(&self) -> (count: usize)
        requires
            self.wf(),
        ensures
            count == self@.devices.len(),
    {
        proof {
            self.devices@.unique_seq_to_set();
        }
        self.devices.len()
    }

    /// Puts a cell at `place`, unless one stands there.
    pub fn new_device(&mut self, place: Coordinate) -> (placed: Result<(), SimError>)
        requires
            old(self).wf(),
        ensures
            final(self).wf(),
            old(self)@.devices.contains(place) ==> placed is Err && placed->Err_0
                == SimError::ExistingDeviceAtCoordinate && final(self)@ == old(self)@,
            !old(self)@.devices.contains(place) ==> placed is Ok
                && final(self)@.devices == old(self)@.devices.insert(place)
                && final(self)@.links == old(self)@.links,
    {
        match find_place(&self.devices, place) {
            Some(_) => Err(SimError::ExistingDeviceAtCoordinate),
            None => {
                proof {
                    lemma_push_members(self.devices@, place);
                }
                self.devices.push(place);
                Ok(())
            },
        }
    }

    fn drop_link(&mut self, from: Coordinate, to: Coordinate)
        requires
            old(self).wf(),
        ensures
            final(self).wf(),
            final(self)@.links == old(self)@.links.remove((from, to)),
            final(self)@.devices == old(self)@.devices,
    {
        match find_link(&self.links, from, to) {
            Some(at) => {
                proof {
                    lemma_remove_members(self.links@, at as int);
                }
                let _ = self.links.remove(at);
            },
            None => {
                assert(self@.links =~= self@.links.remove((from, to)));
            },
        }
    }

    fn add_link(&mut self, from: Coordinate, to: Coordinate)
        requires
            old(self).wf(),
        ensures
            final(self).wf(),
            final(self)@.links == old(self)@.links.insert((from, to)),
            final(self)@.devices == old(self)@.devices,
    {
        match find_link(&self.links, from, to) {
            Some(_) => {
                assert(self@.links =~= self@.links.insert((from, to)));
            },
            None => {
                proof {
                    lemma_push_members(self.links@, (from, to));
                }
                self.links.push((from, to));
            },
        }
    }

    /// Connects the cells at `from` and `to`, in both directions. Refused
    /// with `InvalidConnection` where either place holds no cell, else with
    /// `ConnectionExists` where a connection leads either way already; the
    /// table then stays as it is.
    pub fn enable_connection(&mut self, from: Coordinate, to: Coordinate) -> (enabled: Result<
        (),
        SimError,
    >)
        requires
            old(self).wf(),
        ensures
            final(self).wf(),
            !(old(self)@.devices.contains(from) && old(self)@.devices.contains(to)) ==> enabled
                is Err && enabled->Err_0 == SimError::InvalidConnection
                    && final(self)@ == old(self)@,
            old(self)@.devices.contains(from) && old(self)@.devices.contains(to)
                && (old(self)@.links.contains((from, to)) || old(self)@.links.contains((to, from)))
                ==> enabled
                is Err && enabled->Err_0 == SimError::ConnectionExists
                    && final(self)@ == old(self)@,
            old(self)@.devices.contains(from) && old(self)@.devices.contains(to)
                && !old(self)@.links.contains((from, to))
                && !old(self)@.links.contains((to, from)) ==> enabled
                is Ok && final(self)@.links == old(self)@.links.insert((from, to)).insert(
                (to, from),
            ) && final(self)@.devices == old(self)@.devices,
    {
        if !self.has_device(from) || !self.has_device(to) {
            return Err(SimError::InvalidConnection);
        }
        if self.is_connected(from, to) || self.is_connected(to, from) {
            return Err(SimError::ConnectionExists);
        }
        self.add_link(from, to);
        self.add_link(to, from);
        Ok(())
    }

    /// Takes away the connection between `from` and `to`, in both
    /// directions.
    pub fn disable_connection(&mut self, from: Coordinate, to: Coordinate)
        requires
            old(self).wf(),
        ensures
            final(self).wf(),
            final(self)@.links == old(self)@.links.remove((from, to)).remove((to, from)),
            final(self)@.devices == old(self)@.devices,
    {
        self.drop_link(from, to);
        self.drop_link(to, from);
    }

    /// The places that `at` is connected to, each once.
    pub fn connections(&self, at: Coordinate) -> (others: Vec<Coordinate>)
        requires
            self.wf(),
        ensures
            others@.to_set() == linked_from(self@.links, at),
            others@.no_duplicates(),
    {
        let mut others: Vec<Coordinate> = Vec::new();
        let mut idx: usize = 0;
        while idx < self.links.len()
            invariant
                idx <= self.links.len(),
                self.links@.no_duplicates(),
                others@.no_duplicates(),
                forall|other: Coordinate|
                    others@.contains(other) <==> exists|i: int|
                        0 <= i < idx && #[trigger] self.links@[i] == (at, other),
            decreases self.links.len() - idx,
        {
            let link = self.links[idx];
            if link.0 == at {
                proof {
                    lemma_push_members(others@, link.1);
                    if others@.contains(link.1) {
                        let i = choose|i: int| 0 <= i < idx && self.links@[i] == (at, link.1);
                        assert(self.links@[i] == self.links@[idx as int]);
                    }
                    assert forall|other: Coordinate|
                        others@.push(link.1).contains(other) <==> exists|i: int|
                            0 <= i < idx + 1 && #[trigger] self.links@[i] == (at, other) by {
                        lemma_push_holds(others@, link.1, other);
                        if other == link.1 {
                            assert(self.links@[idx as int] == (at, other));
                        }
                    }
                }
                others.push(link.1);
            }
            idx = idx + 1;
        }
        assert(others@.to_set() =~= linked_from(self@.links, at)) by {
            assert forall|other: Coordinate|
                others@.to_set().contains(other) <==> self.links@.to_set().contains(
                    (at, other),
                ) by {
                if self.links@.contains((at, other)) {
                    let i = choose|i: int|
                        0 <= i < self.links@.len() && self.links@[i] == (at, other);
                    assert(self.links@[i] == (at, other));
                }
            }
        }
        others
    }

    /// Cuts the cell at `place` off from every place it is connected to, in
    /// both directions. The cell stays where it stands.
    pub fn remove_device(&mut self, place: &Coordinate)
        requires
            old(self).wf(),
        ensures
            final(self).wf(),
            final(self)@.links == links_cut(
                old(self)@.links,
                *place,
                linked_from(old(self)@.links, *place),
            ),
            final(self)@.devices == old(self)@.devices,
    {
        let others = self.connections(*place);
        self.cut_off(*place, &others);
        assert(final(self)@.links =~= links_cut(
            old(self)@.links,
            *place,
            linked_from(old(self)@.links, *place),
        ));
    }

    fn cut_off(&mut self, place: Coordinate, others: &Vec<Coordinate>)
        requires
            old(self).wf(),
        ensures
            final(self).wf(),
            final(self)@.links == links_cut(old(self)@.links, place, others@.to_set()),
            final(self)@.devices == old(self)@.devices,
    {
        let mut idx: usize = 0;
        assert(self@.links =~= links_cut(old(self)@.links, place, others@.take(0).to_set()));
        while idx < others.len()
            invariant
                idx <= others.len(),
                self.wf(),
                self@.devices == old(self)@.devices,
                self@.links == links_cut(
                    old(self)@.links,
                    place,
                    others@.take(idx as int).to_set(),
                ),
            decreases others.len() - idx,
        {
            let other = others[idx];
            proof {
                assert(others@.take(idx as int + 1) =~= others@.take(idx as int).push(other));
                lemma_push_members(others@.take(idx as int), other);
            }
            self.disable_connection(place, other);
            assert(self@.links =~= links_cut(
                old(self)@.links,
                place,
                others@.take(idx as int + 1).to_set(),
            ));
            idx = idx + 1;
        }
        assert(others@.take(others.len() as int) =~= others@);
    }

    /// Moves the cell at `from` to `to`. Refused with
    /// `ExistingDeviceAtCoordinate` where a cell stands at `to`; the table
    /// then stays as it is. Otherwise the connections between `from` and
    /// the six places round it are taken away, and the cell is moved, or
    /// `UnknownDevice` is reported where no cell stands at `from`.
    pub fn move_device(&mut self, from: Coordinate, to: Coordinate) -> (moved: Result<
        (),
        SimError,
    >)
        requires
            old(self).wf(),
            inside(from),
        ensures
            final(self).wf(),
            old(self)@.devices.contains(to) ==> moved is Err && moved->Err_0
                == SimError::ExistingDeviceAtCoordinate && final(self)@ == old(self)@,
            !old(self)@.devices.contains(to) ==> final(self)@.links == links_cut(
                old(self)@.links,
                from,
                adjacent_to(from).to_set(),
            ),
            !old(self)@.devices.contains(to) && old(self)@.devices.contains(from) ==> moved is Ok
                && final(self)@.devices == old(self)@.devices.remove(from).insert(to),
            !old(self)@.devices.contains(to) && !old(self)@.devices.contains(from) ==> moved
                is Err && moved->Err_0 == SimError::UnknownDevice
                    && final(self)@.devices == old(self)@.devices,
    {
        if self.has_device(to) {
            return Err(SimError::ExistingDeviceAtCoordinate);
        }
        let around = from.adjacent_coordinates();
        let mut others: Vec<Coordinate> = Vec::new();
        let mut idx: usize = 0;
        while idx < 6
            invariant
                idx <= 6,
                around@.len() == 6,
                others@ == around@.take(idx as int),
            decreases 6 - idx,
        {
            others.push(around[idx]);
            assert(around@.take(idx as int + 1) =~= around@.take(idx as int).push(
                around@[idx as int],
            ));
            idx = idx + 1;
        }
        assert(around@.take(6) =~= around@);
        self.cut_off(from, &others);
        match find_place(&self.devices, from) {
            Some(at) => {
                proof {
                    lemma_remove_members(self.devices@, at as int);
                    lemma_push_members(self.devices@.remove(at as int), to);
                    assert(!self.devices@.remove(at as int).contains(to)) by {
                        assert(self.devices@.remove(at as int).to_set().contains(to)
                            == self.devices@.remove(at as int).contains(to));
                    }
                }
                let _ = self.devices.remove(at);
                self.devices.push(to);
                Ok(())
            },
            None => Err(SimError::UnknownDevice),
        }
    }

    /// The connections, each pair of connected places once, in one of its
    /// two directions.
    pub fn unique_connections(&self) -> (pairs: Vec<(Coordinate, Coordinate)>)
        requires
            self.wf(),
        ensures
            pairs@.no_duplicates(),
            forall|pair: (Coordinate, Coordinate)|
                pairs@.contains(pair) ==> self@.links.contains(pair),
            forall|link: (Coordinate, Coordinate)|
                self@.links.contains(link) ==> pairs@.contains(link) || pairs@.contains(
                    (link.1, link.0),
                ),
            forall|pair: (Coordinate, Coordinate)|
                pairs@.contains(pair) && pair.0 != pair.1 ==> !pairs@.contains((pair.1, pair.0)),
    {
        let mut pairs: Vec<(Coordinate, Coordinate)> = Vec::new();
        let mut idx: usize = 0;
        while idx < self.links.len()
            invariant
                idx <= self.links.len(),
                pairs@.no_duplicates(),
                forall|pair: (Coordinate, Coordinate)|
                    pairs@.contains(pair) ==> self.links@.contains(pair),
                forall|i: int|
                    0 <= i < idx ==> pairs@.contains(#[trigger] self.links@[i]) || pairs@.contains(
                        (self.links@[i].1, self.links@[i].0),
                    ),
                forall|pair: (Coordinate, Coordinate)|
                    pairs@.contains(pair) && pair.0 != pair.1 ==> !pairs@.contains(
                        (pair.1, pair.0),
                    ),
            decreases self.links.len() - idx,
        {
            let link = self.links[idx];
            let ghost before = pairs@;
            if find_link(&pairs, link.0, link.1).is_none() && find_link(
                &pairs,
                link.1,
                link.0,
            ).is_none() {
                proof {
                    lemma_push_members(pairs@, link);
                }
                pairs.push(link);
                proof {
                    assert(self.links@[idx as int] == link);
                    assert(self.links@.contains(link));
                    assert forall|pair: (Coordinate, Coordinate)|
                        pairs@.contains(pair) implies self.links@.contains(pair) by {
                        lemma_push_holds(before, link, pair);
                    }
                    assert forall|pair: (Coordinate, Coordinate)|
                        pairs@.contains(pair) && pair.0 != pair.1 implies !pairs@.contains(
                        (pair.1, pair.0),
                    ) by {
                        lemma_push_holds(before, link, pair);
                        lemma_push_holds(before, link, (pair.1, pair.0));
                    }
                    assert forall|i: int| 0 <= i < idx + 1 implies pairs@.contains(
                        #[trigger] self.links@[i],
                    ) || pairs@.contains((self.links@[i].1, self.links@[i].0)) by {
                        lemma_push_holds(before, link, self.links@[i]);
                        lemma_push_holds(before, link, (self.links@[i].1, self.links@[i].0));
                    }
                }
            }
            idx = idx + 1;
        }
        assert forall|link: (Coordinate, Coordinate)| self@.links.contains(link) implies (
        pairs@.contains(link) || pairs@.contains((link.1, link.0))) by {
            let i = choose|i: int| 0 <= i < self.links@.len() && self.links@[i] == link;
            assert(self.links@[i] == link);
        }
        pairs
    }
}

} // verus!
