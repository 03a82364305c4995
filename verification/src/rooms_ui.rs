//! The rooms of the lobby: where each one is on screen, whether the server
//! has opened it, and which one a point of the screen falls into.

use crate::geometry::{Aabb, Point};
use crate::graphics::{DrawCommand, Gfx};
use vstd::prelude::*;

verus! {

/// Distance of the first slot from the left edge, and of every slot from the
/// bottom edge.
pub const MARGIN: u32 = 10;

/// Width of a slot.
pub const SLOT_WIDTH: u32 = 100;

/// Height of a slot.
pub const SLOT_HEIGHT: u32 = 100;

/// Free space between two neighbouring slots.
pub const GUTTER: u32 = 10;

/// A room of the lobby as contracts see it.
pub struct RoomSlot {
    /// The number by which the server names the room.
    pub number: u8,
    /// Whether the server has opened the room.
    pub is_active: bool,
    /// The part of the screen that the room covers.
    pub aabb: Aabb,
    /// The room's buffers on the graphics device, once they exist.
    pub gfx: Option<Gfx>,
}

/// A room of the lobby.
#[derive(Debug)]
pub struct RoomUI {
    number: u8,
    is_active: bool,
    aabb: Aabb,
    gfx: Option<Gfx>,
}

impl View for RoomUI {
    type V = RoomSlot;

    closed spec fn view(&self) -> RoomSlot {
        RoomSlot { number: self.number, is_active: self.is_active, aabb: self.aabb, gfx: self.gfx }
    }
}

/// The coordinates of a list of points, one after the other, each point
/// followed by a 1 that makes it homogeneous: `x0, y0, 1, x1, y1, 1, ...`.
pub open spec fn homogeneous(points: Seq<Point>) -> Seq<u32> {
    Seq::new(
        3 * points.len(),
        |k: int|
            if k % 3 == 0 {
                points[k / 3].x
            } else if k % 3 == 1 {
                points[k / 3].y
            } else {
                1u32
            },
    )
}

impl RoomUI {
    /// Whether the point `(x, y)` falls into the room's box.
    pub fn contains(&self, x: u32, y: u32) -> (hit: bool)
        ensures
            hit == self@.aabb.holds(x as int, y as int),
    {
        let p = Point { x, y };
        self.aabb.contains(p)
    }

    /// The vertices of the room's rectangle, ready to be drawn as a strip of
    /// two triangles: the four corners of the box, three numbers each.
    pub fn calc_vertices(&self) -> (vertices: Vec<u32>)
        ensures
            vertices@ == homogeneous(self@.aabb.corners()),
    {
        let corners = self.aabb.to_corners();
        let mut vertices: Vec<u32> = Vec::new();
        let mut i: usize = 0;
        while i < corners.len()
            invariant
                i <= corners.len(),
                corners@ == self@.aabb.corners(),
                vertices@ == homogeneous(corners@.take(i as int)),
            decreases corners.len() - i,
        {
            let point = corners[i];
            vertices.push(point.x);
            vertices.push(point.y);
            vertices.push(1);
            i += 1;
            assert(vertices@ =~= homogeneous(corners@.take(i as int)));
        }
        assert(corners@.take(i as int) =~= corners@);
        vertices
    }

    /// The command that draws the room, if its buffers exist.
    pub fn draw(&self) -> (command: Option<DrawCommand>)
        ensures
            command == match self@.gfx {
                Some(gfx) => Some(DrawCommand::Room { vao: gfx.vao }),
                None => None,
            },
    {
        match self.gfx {
            Some(gfx) => Some(DrawCommand::Room { vao: gfx.vao }),
            None => None,
        }
    }

    /// Whether the server has opened the room.
    pub fn is_active(&self) -> (active: bool)
        ensures
            active == self@.is_active,
    {
        self.is_active
    }

    /// The number by which the server names the room.
    pub fn number(&self) -> (number: &u8)
        ensures
            *number == self@.number,
    {
        &self.number
    }

    /// The part of the screen that the room covers.
    pub fn aabb(&self) -> (aabb: Aabb)
        ensures
            aabb == self@.aabb,
    {
        self.aabb
    }

    /// The room's buffers on the graphics device, once they exist.
    pub fn gfx(&self) -> (gfx: Option<Gfx>)
        ensures
            gfx == self@.gfx,
    {
        self.gfx
    }

    /// Opens the room.
    pub fn activate(&mut self)
        ensures
            final(self)@ == (RoomSlot { is_active: true, ..old(self)@ }),
    {
        self.is_active = true;
    }

    /// Closes the room.
    pub fn deactivate(&mut self)
        ensures
            final(self)@ == (RoomSlot { is_active: false, ..old(self)@ }),
    {
        self.is_active = false;
    }

    /// Binds the room to its buffers on the graphics device.
    pub fn set_gfx(&mut self, gfx: Gfx)
        ensures
            final(self)@ == (RoomSlot { gfx: Some(gfx), ..old(self)@ }),
    {
        self.gfx = Some(gfx);
    }
}

/// Makes the room `number`, closed and without buffers, whose box has its low
/// corner at `(x, y)` and is `w` wide and `h` high.
pub fn new_room_ui(number: u8, x: u32, y: u32, w: u32, h: u32) -> (room: RoomUI)
    requires
        x + w <= u32::MAX,
        y + h <= u32::MAX,
    ensures
        room@ == (RoomSlot {
            number,
            is_active: false,
            aabb: Aabb {
                min: Point { x, y },
                max: Point { x: (x + w) as u32, y: (y + h) as u32 },
            },
            gfx: None,
        }),
{
    let min = Point { x, y };
    let max = Point { x: x + w, y: y + h };
    let aabb = Aabb::new(min, max);
    RoomUI { number, is_active: false, aabb, gfx: None }
}

/// The box of the slot at position `i` of the row, counted from 0 at the
/// left.
pub open spec fn slot_aabb(i: int) -> Aabb {
    Aabb {
        min: Point { x: (MARGIN + i * (SLOT_WIDTH + GUTTER)) as u32, y: MARGIN },
        max: Point {
            x: (MARGIN + i * (SLOT_WIDTH + GUTTER) + SLOT_WIDTH) as u32,
            y: (MARGIN + SLOT_HEIGHT) as u32,
        },
    }
}

/// The room that a new lobby has at position `i`: numbered from 1, closed,
/// without buffers.
pub open spec fn fresh_slot(i: int) -> RoomSlot {
    RoomSlot { number: (i + 1) as u8, is_active: false, aabb: slot_aabb(i), gfx: None }
}

/// The rooms of a new lobby with `count` slots, from left to right.
pub open spec fn fresh_row(count: nat) -> Seq<RoomSlot> {
    Seq::new(count, |i: int| fresh_slot(i))
}

/// The position of the first room at or after position `from` whose box
/// holds the point `(x, y)`.
pub open spec fn first_hit_from(rooms: Seq<RoomSlot>, x: int, y: int, from: int) -> Option<int>
    decreases rooms.len() - from,
{
    if from < 0 || from >= rooms.len() {
        None
    } else if rooms[from].aabb.holds(x, y) {
        Some(from)
    } else {
        first_hit_from(rooms, x, y, from + 1)
    }
}

/// The position of the first room whose box holds the point `(x, y)`.
pub open spec fn first_hit(rooms: Seq<RoomSlot>, x: int, y: int) -> Option<int> {
    first_hit_from(rooms, x, y, 0)
}

/// The rooms after the server has said that room `number` is open or closed:
/// every room of that number takes the new status, the others stay.
pub open spec fn with_status(rooms: Seq<RoomSlot>, number: u8, is_active: bool) -> Seq<RoomSlot> {
    Seq::new(
        rooms.len(),
        |i: int|
            if rooms[i].number == number {
                RoomSlot { is_active, ..rooms[i] }
            } else {
                rooms[i]
            },
    )
}

/// The rooms after the room at position `index` has been bound to buffers
/// on the graphics device. A position that no room has changes nothing.
pub open spec fn with_gfx(rooms: Seq<RoomSlot>, index: int, gfx: Gfx) -> Seq<RoomSlot> {
    if 0 <= index < rooms.len() {
        rooms.update(index, RoomSlot { gfx: Some(gfx), ..rooms[index] })
    } else {
        rooms
    }
}

/// The rooms after the server has opened the lobby: every room is open.
pub open spec fn all_active(rooms: Seq<RoomSlot>) -> Seq<RoomSlot> {
    Seq::new(rooms.len(), |i: int| RoomSlot { is_active: true, ..rooms[i] })
}

/// The rooms of the lobby in the order in which they were made, which is the
/// order in which they stand on screen from left to right.
pub struct RoomUICollection {
    rooms: Vec<RoomUI>,
}

impl View for RoomUICollection {
    type V = Seq<RoomSlot>;

    closed spec fn view(&self) -> Seq<RoomSlot> {
        Seq::new(self.rooms@.len(), |i: int| self.rooms@[i]@)
    }
}

impl RoomUICollection {
    /// Lays out `count` rooms in a row. The rooms are numbered from 1, all
    /// closed, and none has buffers yet.
    pub fn new(count: u8) -> (collection: Box<RoomUICollection>)
        ensures
            collection@ == fresh_row(count as nat),
    {
        let mut rooms: Vec<RoomUI> = Vec::with_capacity(4);
        let mut i: u8 = 0;
        while i < count
            invariant
                i <= count,
                rooms@.len() == i,
                forall|k: int| 0 <= k < i ==> (#[trigger] rooms@[k])@ == fresh_slot(k),
            decreases count - i,
        {
            let x: u32 = MARGIN + SLOT_WIDTH * i as u32 + GUTTER * i as u32;
            let y: u32 = MARGIN;
            let room = new_room_ui(i + 1, x, y, SLOT_WIDTH, SLOT_HEIGHT);
            rooms.push(room);
            i += 1;
        }
        let collection = Box::new(RoomUICollection { rooms });
        assert(collection@ =~= fresh_row(count as nat));
        collection
    }

    /// How many rooms the lobby has.
    pub fn len(&self) -> (len: usize)
        ensures
            len == self@.len(),
    {
        self.rooms.len()
    }

    /// The rooms in order.
    pub fn each(&self) -> (rooms: &[RoomUI])
        ensures
            rooms@.len() == self@.len(),
            forall|i: int| 0 <= i < rooms@.len() ==> (#[trigger] rooms@[i])@ == self@[i],
    {
        self.rooms.as_slice()
    }

    /// The rooms in order, each open to change. The collection ends up with
    /// the rooms as the caller leaves them; how many there are cannot change.
    pub fn each_mut(&mut self) -> (rooms: &mut [RoomUI])
        ensures
            rooms@.len() == old(self)@.len(),
            forall|i: int| 0 <= i < rooms@.len() ==> (#[trigger] rooms@[i])@ == old(self)@[i],
            final(self)@.len() == final(rooms)@.len(),
            forall|i: int|
                0 <= i < final(rooms)@.len() ==> final(rooms)@[i]@ == #[trigger] final(self)@[i],
    {
        self.rooms.as_mut_slice()
    }

    /// The first room, in order, whose box holds the point `(x, y)`.
    pub fn find_by_coords(&self, x: u32, y: u32) -> (found: Option<&RoomUI>)
        ensures
            match first_hit(self@, x as int, y as int) {
                Some(i) => found.is_some() && found.unwrap()@ == self@[i],
                None => found.is_none(),
            },
    {
        let mut i: usize = 0;
        while i < self.rooms.len()
            invariant
                i <= self.rooms@.len(),
                first_hit(self@, x as int, y as int) == first_hit_from(
                    self@,
                    x as int,
                    y as int,
                    i as int,
                ),
            decreases self.rooms@.len() - i,
        {
            if self.rooms[i].contains(x, y) {
                return Some(&self.rooms[i]);
            }
            i += 1;
        }
        None
    }

    /// Applies the server's word on one room: every room numbered `number`
    /// becomes open or closed as `is_active` says. A number that no room has
    /// changes nothing.
    pub fn set_status(&mut self, number: u8, is_active: bool)
        ensures
            final(self)@ == with_status(old(self)@, number, is_active),
    {
        let mut i: usize = 0;
        while i < self.rooms.len()
            invariant
                i <= self.rooms@.len(),
                self.rooms@.len() == old(self).rooms@.len(),
                forall|k: int|
                    0 <= k < i ==> (#[trigger] self.rooms@[k])@ == with_status(
                        old(self)@,
                        number,
                        is_active,
                    )[k],
                forall|k: int|
                    i <= k < self.rooms@.len() ==> (#[trigger] self.rooms@[k]) == old(self).rooms@[k],
            decreases self.rooms@.len() - i,
        {
            if *self.rooms[i].number() == number {
                if is_active {
                    self.rooms[i].activate();
                } else {
                    self.rooms[i].deactivate();
                }
            }
            i += 1;
        }
        assert(self@ =~= with_status(old(self)@, number, is_active));
    }

    /// Binds the room at position `index` to its buffers on the graphics
    /// device. A position past the last room changes nothing.
    pub fn set_gfx(&mut self, index: usize, gfx: Gfx)
        ensures
            final(self)@ == with_gfx(old(self)@, index as int, gfx),
    {
        if index < self.rooms.len() {
            self.rooms[index].set_gfx(gfx);
        }
        assert(self@ =~= with_gfx(old(self)@, index as int, gfx));
    }

    /// Opens every room.
    pub fn activate_all(&mut self)
        ensures
            final(self)@ == all_active(old(self)@),
    {
        let mut i: usize = 0;
        while i < self.rooms.len()
            invariant
                i <= self.rooms@.len(),
                self.rooms@.len() == old(self).rooms@.len(),
                forall|k: int|
                    0 <= k < i ==> (#[trigger] self.rooms@[k])@ == all_active(old(self)@)[k],
                forall|k: int|
                    i <= k < self.rooms@.len() ==> (#[trigger] self.rooms@[k]) == old(self).rooms@[k],
            decreases self.rooms@.len() - i,
        {
            self.rooms[i].activate();
            i += 1;
        }
        assert(self@ =~= all_active(old(self)@));
    }
}

/// Whether the rooms stand as a new lobby lays them out: numbered from 1,
/// each in the box of its slot. Status and buffers are free.
pub open spec fn laid_out(rooms: Seq<RoomSlot>) -> bool {
    &&& rooms.len() <= u8::MAX
    &&& forall|i: int|
        0 <= i < rooms.len() ==> (#[trigger] rooms[i]).number == i + 1 && rooms[i].aabb == slot_aabb(i)
}

/// What `first_hit_from` finds is a room at or after `from` that holds the
/// point while no room between `from` and it does; it finds none only if no
/// room at or after `from` holds the point.
pub proof fn lemma_first_hit_from(rooms: Seq<RoomSlot>, x: int, y: int, from: int)
    requires
        0 <= from,
    ensures
        match first_hit_from(rooms, x, y, from) {
            Some(i) => {
                &&& from <= i < rooms.len()
                &&& rooms[i].aabb.holds(x, y)
                &&& forall|j: int| from <= j < i ==> !(#[trigger] rooms[j]).aabb.holds(x, y)
            },
            None => forall|j: int| from <= j < rooms.len() ==> !(#[trigger] rooms[j]).aabb.holds(x, y),
        },
    decreases rooms.len() - from,
{
    if from < rooms.len() && !rooms[from].aabb.holds(x, y) {
        lemma_first_hit_from(rooms, x, y, from + 1);
    }
}

/// Hit-testing goes by the order of the rooms: the room found holds the
/// point and no room before it does, and none is found only if no room holds
/// the point.
pub proof fn lemma_first_hit(rooms: Seq<RoomSlot>, x: int, y: int)
    ensures
        match first_hit(rooms, x, y) {
            Some(i) => {
                &&& 0 <= i < rooms.len()
                &&& rooms[i].aabb.holds(x, y)
                &&& forall|j: int| 0 <= j < i ==> !(#[trigger] rooms[j]).aabb.holds(x, y)
            },
            None => forall|j: int| 0 <= j < rooms.len() ==> !(#[trigger] rooms[j]).aabb.holds(x, y),
        },
{
    lemma_first_hit_from(rooms, x, y, 0);
}

/// The slots stand in a row from left to right with a gap between
/// neighbours: of two slots the one with the lower position ends left of
/// where the other begins, all slots span the same height, and no two of
/// them share a point.
pub proof fn lemma_slots_apart(i: int, j: int)
    requires
        0 <= i < j < u8::MAX,
    ensures
        slot_aabb(i).min.x < slot_aabb(i).max.x < slot_aabb(j).min.x < slot_aabb(j).max.x,
        slot_aabb(i).min.y == slot_aabb(j).min.y < slot_aabb(i).max.y == slot_aabb(j).max.y,
        slot_aabb(i).disjoint(slot_aabb(j)),
        slot_aabb(j).disjoint(slot_aabb(i)),
{
}

/// A new lobby with `count` slots has `count` rooms, laid out in the row of
/// slots and all closed.
pub proof fn lemma_fresh_row(count: nat)
    requires
        count <= u8::MAX,
    ensures
        fresh_row(count).len() == count,
        laid_out(fresh_row(count)),
        forall|i: int| 0 <= i < count ==> !(#[trigger] fresh_row(count)[i]).is_active,
{
}

/// A point in the box of a slot, be it strictly inside or on a low edge,
/// hits the room of that slot and no other room.
pub proof fn lemma_hit_in_slot(rooms: Seq<RoomSlot>, k: int, x: int, y: int)
    requires
        laid_out(rooms),
        0 <= k < rooms.len(),
        rooms[k].aabb.holds(x, y),
    ensures
        first_hit(rooms, x, y) == Some(k),
        forall|j: int| 0 <= j < rooms.len() && j != k ==> !(#[trigger] rooms[j]).aabb.holds(x, y),
{
    assert forall|j: int| 0 <= j < rooms.len() && j != k implies !(#[trigger] rooms[j]).aabb.holds(
        x,
        y,
    ) by {
        if j < k {
            lemma_slots_apart(j, k);
        } else {
            lemma_slots_apart(k, j);
        }
    }
    lemma_first_hit(rooms, x, y);
}

/// Neither the server's word on the status of rooms nor the binding of a
/// room to its buffers moves a room: a row that is laid out stays laid out.
pub proof fn lemma_changes_keep_layout(
    rooms: Seq<RoomSlot>,
    number: u8,
    is_active: bool,
    index: int,
    gfx: Gfx,
)
    requires
        laid_out(rooms),
    ensures
        laid_out(with_status(rooms, number, is_active)),
        laid_out(all_active(rooms)),
        laid_out(with_gfx(rooms, index, gfx)),
{
}

} // verus!
