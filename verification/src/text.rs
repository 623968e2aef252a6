//! The words that greet the player in a room.

use vstd::prelude::*;

use crate::cycles::{starting_room, CycleCounter};
use crate::room::{CardinalDirection, CurrentRoom};
use crate::util::{decimal, to_decimal};

verus! {

/// The sign over an exit: where the exit leads.
#[derive(Debug)]
pub struct NextRoomText {
    pub side: CardinalDirection,
    pub text: String,
}

/// The line that names the cycle: cycles are counted from one.
pub open spec fn cycle_line(count: u64) -> Seq<char> {
    "Cycle "@ + decimal((count + 1) as nat)
}

/// The lines that are shown when the player enters a room: the name of the
/// room and, in the room in which cycles start, the number of the cycle.
pub fn room_text(current_room: &CurrentRoom, cycle_counter: &CycleCounter) -> (lines: Vec<String>)
    ensures
        lines.len() == if current_room.info.name@ == starting_room() {
            2nat
        } else {
            1nat
        },
        lines[0]@ == current_room.info.name@,
        current_room.info.name@ == starting_room() ==> lines[1]@ == cycle_line(cycle_counter.count),
{
    let mut lines: Vec<String> = Vec::new();
    lines.push(current_room.info.name.clone());
    let cottage: String = "Lovely Cottage".to_owned();
    if current_room.info.name == cottage {
        let mut line: String = "Cycle ".to_owned();
        line.append(to_decimal(cycle_counter.count as u128 + 1).as_str());
        lines.push(line);
    }
    lines
}

/// The sign over the exit on `side`: to which room the exit leads.
pub open spec fn exit_sign(next_room_name: Seq<char>) -> Seq<char> {
    "To "@ + next_room_name
}

/// The sides of the room that lead somewhere, in the order north, south,
/// east, west.
pub open spec fn linked_sides(current_room: CurrentRoom) -> Seq<CardinalDirection> {
    linked_side(current_room, CardinalDirection::North) + linked_side(
        current_room,
        CardinalDirection::South,
    ) + linked_side(current_room, CardinalDirection::East) + linked_side(
        current_room,
        CardinalDirection::West,
    )
}

/// `side`, if the wall on that side leads somewhere.
pub open spec fn linked_side(current_room: CurrentRoom, side: CardinalDirection) -> Seq<CardinalDirection> {
    if current_room.info.spec_link(side) is Some {
        seq![side]
    } else {
        Seq::empty()
    }
}

/// Adds the sign for `side` to `signs`, if the wall on that side leads
/// somewhere.
fn push_sign(
    signs: &mut Vec<NextRoomText>,
    current_room: &CurrentRoom,
    side: CardinalDirection,
    Ghost(before): Ghost<Seq<CardinalDirection>>,
)
    requires
        old(signs).len() == before.len(),
        forall|k: int|
            0 <= k < before.len() ==> {
                &&& (#[trigger] old(signs)[k]).side == before[k]
                &&& current_room.info.spec_link(before[k]) is Some
                &&& old(signs)[k].text@ == exit_sign(current_room.info.spec_link(before[k])->0@)
            },
    ensures
        final(signs).len() == (before + linked_side(*current_room, side)).len(),
        forall|k: int|
            0 <= k < final(signs).len() ==> {
                &&& (#[trigger] final(signs)[k]).side == (before + linked_side(*current_room, side))[k]
                &&& current_room.info.spec_link(final(signs)[k].side) is Some
                &&& final(signs)[k].text@ == exit_sign(
                    current_room.info.spec_link(final(signs)[k].side)->0@,
                )
            },
{
    match current_room.info.link(side) {
        Some(next_room_name) => {
            let mut text: String = "To ".to_owned();
            text.append(next_room_name.as_str());
            signs.push(NextRoomText { side, text });
        },
        None => {},
    }
}

/// The signs over the exits of the room: one for each wall that leads
/// somewhere, in the order north, south, east, west.
pub fn spawn_next_room_text(current_room: &CurrentRoom) -> (signs: Vec<NextRoomText>)
    ensures
        signs.len() == linked_sides(*current_room).len(),
        forall|k: int|
            0 <= k < signs.len() ==> {
                &&& (#[trigger] signs[k]).side == linked_sides(*current_room)[k]
                &&& current_room.info.spec_link(signs[k].side) is Some
                &&& signs[k].text@ == exit_sign(current_room.info.spec_link(signs[k].side)->0@)
            },
{
    let mut signs: Vec<NextRoomText> = Vec::new();
    let ghost none = Seq::<CardinalDirection>::empty();
    push_sign(&mut signs, current_room, CardinalDirection::North, Ghost(none));
    let ghost north = none + linked_side(*current_room, CardinalDirection::North);
    push_sign(&mut signs, current_room, CardinalDirection::South, Ghost(north));
    let ghost south = north + linked_side(*current_room, CardinalDirection::South);
    push_sign(&mut signs, current_room, CardinalDirection::East, Ghost(south));
    let ghost east = south + linked_side(*current_room, CardinalDirection::East);
    push_sign(&mut signs, current_room, CardinalDirection::West, Ghost(east));
    assert(east + linked_side(*current_room, CardinalDirection::West) =~= linked_sides(*current_room));
    signs
}

} // verus!
