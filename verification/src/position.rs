//! The records the service hands out.

use vstd::prelude::*;

verus! {

/// The envelope in which the service reports which position is current.
#[derive(Clone, Copy, Debug, PartialEq, Eq, Structural)]
pub struct PositionId {
    pub id: u32,
}

impl PositionId {
    pub fn new(id: u32) -> (r: PositionId)
        ensures
            r.id == id,
    {
        PositionId { id }
    }
}

/// A named physical location.
///
/// The two coordinates are carried as IEEE 754 binary64 bit patterns: the
/// library stores and returns them and never computes with them, so every
/// coordinate a caller puts in comes back bit for bit.
#[derive(Debug, PartialEq, Eq)]
pub struct Position {
    /// Bit pattern of the horizontal coordinate.
    pub x_bits: u64,
    /// Bit pattern of the vertical coordinate.
    pub y_bits: u64,
    pub floor: u32,
    pub name: String,
    pub building: String,
    pub brief: String,
    pub detail: String,
}

/// What a [`Position`] holds, with each text as its sequence of characters.
pub struct PositionView {
    pub x_bits: u64,
    pub y_bits: u64,
    pub floor: u32,
    pub name: Seq<char>,
    pub building: Seq<char>,
    pub brief: Seq<char>,
    pub detail: Seq<char>,
}

impl View for Position {
    type V = PositionView;

    open spec fn view(&self) -> PositionView {
        PositionView {
            x_bits: self.x_bits,
            y_bits: self.y_bits,
            floor: self.floor,
            name: self.name@,
            building: self.building@,
            brief: self.brief@,
            detail: self.detail@,
        }
    }
}

impl Position {
    /// Builds a record from its seven fields, copying each text.
    pub fn new(
        x_bits: u64,
        y_bits: u64,
        floor: u32,
        name: &str,
        building: &str,
        brief: &str,
        detail: &str,
    ) -> (r: Position)
        ensures
            r@ == (PositionView {
                x_bits,
                y_bits,
                floor,
                name: name@,
                building: building@,
                brief: brief@,
                detail: detail@,
            }),
    {
        Position {
            x_bits,
            y_bits,
            floor,
            name: name.to_owned(),
            building: building.to_owned(),
            brief: brief.to_owned(),
            detail: detail.to_owned(),
        }
    }
}

impl Clone for Position {
    /// A copy that agrees with the original in every field.
    fn clone(&self) -> (r: Position)
        ensures
            r == *self,
    {
        Position {
            x_bits: self.x_bits,
            y_bits: self.y_bits,
            floor: self.floor,
            name: self.name.clone(),
            building: self.building.clone(),
            brief: self.brief.clone(),
            detail: self.detail.clone(),
        }
    }
}

/// The views of a sequence of records, in the same order.
pub open spec fn views(places: Seq<Position>) -> Seq<PositionView> {
    places.map_values(|p: Position| p@)
}

} // verus!
