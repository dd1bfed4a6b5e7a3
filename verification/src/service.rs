//! The two queries of the service, and the answer to a request path.

use vstd::prelude::*;
use crate::position::Position;
use crate::position::PositionId;
use crate::position::PositionView;
use crate::route::route;
use crate::route::spec_route;
use crate::route::Route;
use crate::store::lookup;
use crate::store::PositionStore;

verus! {

/// The identifier that the current-position query reports.
pub const CURRENT_POSITION_ID: u32 = 1;

/// What the service answers to a request that leads somewhere.
#[derive(Debug, PartialEq, Eq)]
pub enum Response {
    /// The answer to the current-position query.
    CurrentPosition(PositionId),
    /// The answer to a query by identifier.
    Position(Position),
}

/// What a [`Response`] holds, with a record as its view.
pub enum ResponseView {
    CurrentPosition(PositionId),
    Position(PositionView),
}

impl View for Response {
    type V = ResponseView;

    open spec fn view(&self) -> ResponseView {
        match self {
            Response::CurrentPosition(id) => ResponseView::CurrentPosition(*id),
            Response::Position(position) => ResponseView::Position(position@),
        }
    }
}

/// The answer that a store holding `places` gives to the request for `path`:
/// nothing where the path leads nowhere.
pub open spec fn spec_respond(places: Seq<PositionView>, path: Seq<char>) -> Option<ResponseView> {
    match spec_route(path) {
        Some(Route::CurrentPosition) => Some(
            ResponseView::CurrentPosition(PositionId { id: CURRENT_POSITION_ID }),
        ),
        Some(Route::PositionById(id)) => Some(ResponseView::Position(lookup(places, id as int))),
        None => None,
    }
}

/// Answers the current-position query: always the same identifier.
pub fn get_current_position() -> (r: PositionId)
    ensures
        r.id == CURRENT_POSITION_ID,
{
    PositionId { id: CURRENT_POSITION_ID }
}

/// Answers the query by identifier with a copy of the record that `id`
/// names in `store`.
pub fn get_position_by_id(store: &PositionStore, id: u32) -> (r: Position)
    ensures
        r@ == lookup(store@, id as int),
        1 <= id <= store@.len() ==> r@ == store@[id - 1],
        id == 0 ==> r@ == store@.last(),
{
    store.get_by_id(id).clone()
}

/// Answers the request for `path`: the answer of the query that the path
/// leads to, and `None` where it leads nowhere.
pub fn respond(store: &PositionStore, path: &str) -> (r: Option<Response>)
    ensures
        match r {
            Some(response) => spec_respond(store@, path@) == Some(response@),
            None => spec_respond(store@, path@) is None,
        },
{
    match route(path) {
        Some(Route::CurrentPosition) => Some(Response::CurrentPosition(get_current_position())),
        Some(Route::PositionById(id)) => Some(Response::Position(get_position_by_id(store, id))),
        None => None,
    }
}

} // verus!
