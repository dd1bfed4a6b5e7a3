//! The position store: a fixed, non-empty sequence of records that is looked
//! up by an identifier which wraps around the size of the store.
//!
//! Identifiers `1..=n` name the `n` records in order. Every other identifier
//! names the record that it is congruent to modulo `n`, so `n + 1` names the
//! first record again and `0` names the last one.

use vstd::prelude::*;
use vstd::arithmetic::div_mod::lemma_fundamental_div_mod_converse;
use vstd::arithmetic::div_mod::lemma_mod_add_multiples_vanish;
use crate::position::Position;
use crate::position::PositionView;
use crate::position::views;

verus! {

/// The index, counted from zero, of the record that `id` names in a store of
/// `size` records: the remainder of `id - 1` on division by `size`, which is
/// never negative.
pub open spec fn slot_of(id: int, size: int) -> int {
    (id - 1) % size
}

/// The record that `id` names among `places`.
pub open spec fn lookup(places: Seq<PositionView>, id: int) -> PositionView {
    places[slot_of(id, places.len() as int)]
}

/// The two records the service is seeded with: the library, then the
/// gymnasium.
pub open spec fn seed_places() -> Seq<PositionView> {
    seq![
        PositionView {
            x_bits: 0x4034_0000_0000_0000,
            y_bits: 0x4034_0000_0000_0000,
            floor: 1,
            name: "图书馆"@,
            building: "教学楼"@,
            brief: "学校图书中心"@,
            detail: "这里有丰富的图书资源，供学生和教职工借阅。"@,
        },
        PositionView {
            x_bits: 0x4051_8000_0000_0000,
            y_bits: 0x4049_0000_0000_0000,
            floor: 2,
            name: "体育馆"@,
            building: "艺体楼"@,
            brief: "学校体育活动场所"@,
            detail: "这里有各种体育设施，供学生锻炼和比赛使用。"@,
        },
    ]
}

/// Why a store could not be built.
#[derive(Clone, Copy, Debug, PartialEq, Eq, Structural)]
pub enum StoreError {
    /// No record was given; a lookup would have nothing to return.
    Empty,
}

/// An ordered collection of position records, fixed when it is built and
/// never empty.
pub struct PositionStore {
    places: Vec<Position>,
}

impl View for PositionStore {
    type V = Seq<PositionView>;

    closed spec fn view(&self) -> Seq<PositionView> {
        views(self.places@)
    }
}

impl PositionStore {
    #[verifier::type_invariant]
    spec fn non_empty(&self) -> bool {
        self.places@.len() > 0
    }

    /// Builds a store that holds `places` in the order given, or reports
    /// that there are none.
    pub fn new(places: Vec<Position>) -> (r: Result<PositionStore, StoreError>)
        ensures
            match r {
                Ok(store) => places@.len() > 0 && store@ == views(places@),
                Err(e) => places@.len() == 0 && e == StoreError::Empty,
            },
    {
        if places.len() == 0 {
            Err(StoreError::Empty)
        } else {
            Ok(PositionStore { places })
        }
    }

    /// The store the service starts with.
    pub fn seeded() -> (r: PositionStore)
        ensures
            r@ == seed_places(),
    {
        let mut places: Vec<Position> = Vec::new();
        places.push(
            Position::new(
                0x4034_0000_0000_0000,
                0x4034_0000_0000_0000,
                1,
                "图书馆",
                "教学楼",
                "学校图书中心",
                "这里有丰富的图书资源，供学生和教职工借阅。",
            ),
        );
        places.push(
            Position::new(
                0x4051_8000_0000_0000,
                0x4049_0000_0000_0000,
                2,
                "体育馆",
                "艺体楼",
                "学校体育活动场所",
                "这里有各种体育设施，供学生锻炼和比赛使用。",
            ),
        );
        assert(views(places@) =~= seed_places());
        PositionStore { places }
    }

    /// The number of records, which is at least one.
    pub fn size(&self) -> (n: usize)
        ensures
            n == self@.len(),
            n > 0,
    {
        proof {
            use_type_invariant(self);
        }
        self.places.len()
    }

    /// The record that `id` names. Every identifier names one: those from
    /// one to the store's size name the records in order, zero names the
    /// last record, and all others wrap around.
    pub fn get_by_id(&self, id: u32) -> (r: &Position)
        ensures
            r@ == lookup(self@, id as int),
            1 <= id <= self@.len() ==> r@ == self@[id - 1],
            id == 0 ==> r@ == self@.last(),
    {
        proof {
            use_type_invariant(self);
            lemma_lookup_zero_is_last(self@);
            if 1 <= id <= self@.len() {
                lemma_lookup_in_order(self@, id as int);
            }
        }
        let n = self.places.len();
        let i = if id == 0 {
            n - 1
        } else {
            (id - 1) as usize % n
        };
        &self.places[i]
    }
}

/// Every identifier names a record of a non-empty store.
pub proof fn lemma_lookup_total(places: Seq<PositionView>, id: int)
    requires
        places.len() > 0,
    ensures
        0 <= slot_of(id, places.len() as int) < places.len(),
        places.contains(lookup(places, id)),
{
}

/// The identifiers `1..=n` name the `n` records in order.
pub proof fn lemma_lookup_in_order(places: Seq<PositionView>, id: int)
    requires
        1 <= id <= places.len(),
    ensures
        lookup(places, id) == places[id - 1],
{
    lemma_fundamental_div_mod_converse(id - 1, places.len() as int, 0, id - 1);
}

/// Lookup is periodic: an identifier and the identifier that lies one store
/// size further name the same record.
pub proof fn lemma_lookup_periodic(places: Seq<PositionView>, id: int)
    requires
        places.len() > 0,
    ensures
        lookup(places, id + places.len()) == lookup(places, id),
{
    lemma_mod_add_multiples_vanish(id - 1, places.len() as int);
}

/// Identifier zero names the same record as the identifier equal to the
/// store's size, and that record is the last one.
pub proof fn lemma_lookup_zero_is_last(places: Seq<PositionView>)
    requires
        places.len() > 0,
    ensures
        lookup(places, 0) == lookup(places, places.len() as int),
        lookup(places, 0) == places.last(),
{
    lemma_lookup_periodic(places, 0);
    lemma_fundamental_div_mod_converse(-1, places.len() as int, -1, places.len() - 1);
}

} // verus!
