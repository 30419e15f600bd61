//! The operations the request layer calls. Store lookups are outside work:
//! the caller makes them and hands their outcome in.
use crate::error::CoreError;
use crate::model::Image;
use crate::render::{render, rendering, CanvasRequest, ColorDepth};
use crate::sequencer::DeviceState;
use vstd::prelude::*;

verus! {

/// Renders image `found`, the store's answer to a lookup (`None`: no such
/// image).
pub fn fetch_rendered(found: Option<&Image>, request: &CanvasRequest, depth: ColorDepth) -> (r:
    Result<Vec<u8>, CoreError>)
    ensures
        found is None ==> r matches Err(CoreError::NotFound),
        found matches Some(img) ==> (r matches Ok(bytes) ==> rendering(
            img.data@,
            img.dark,
            request.target_spec(),
            depth,
        ) == Ok::<Seq<u8>, CoreError>(bytes@)),
        found matches Some(img) ==> (r matches Err(e) ==> rendering(
            img.data@,
            img.dark,
            request.target_spec(),
            depth,
        ) == Err::<Seq<u8>, CoreError>(e)),
{
    match found {
        Some(img) => render(&img.data, img.dark, request, depth),
        None => Err(CoreError::NotFound),
    }
}

/// Moves the frame to its next image. `drawn` and `redraw` are random picks
/// from the store, and `fetched` is the store's answer for the id that
/// `peek_next_or_random(drawn)` gives. Returns that id, to be rendered; on
/// an error nothing changes.
pub fn fetch_next(
    state: &mut DeviceState,
    drawn: Option<i64>,
    fetched: Option<&Image>,
    redraw: Option<i64>,
) -> (r: Result<i64, CoreError>)
    ensures
        old(state)@.resolve(drawn) is None ==> (r matches Err(CoreError::EmptyCatalog)
            && final(state)@ == old(state)@),
        old(state)@.resolve(drawn) matches Some(id) ==> {
            if fetched matches Some(img) && img.id == id {
                r == Ok::<i64, CoreError>(id) && final(state)@ == old(state)@.advanced(
                    drawn,
                    redraw,
                )
            } else {
                (r matches Err(CoreError::NotFound) && final(state)@ == old(state)@)
            }
        },
{
    let id = match state.next_to_show(drawn) {
        Ok(id) => id,
        Err(e) => return Err(e),
    };
    match fetched {
        Some(img) => {
            if img.id != id {
                return Err(CoreError::NotFound);
            }
        },
        None => return Err(CoreError::NotFound),
    }
    state.advance(drawn, redraw);
    Ok(id)
}

/// Records the outcome of deleting image `id`: `deleted` tells whether the
/// store held it, and `replacement` is a random pick among the images left.
pub fn remove(state: &mut DeviceState, id: i64, deleted: bool, replacement: Option<i64>) -> (r:
    Result<(), CoreError>)
    ensures
        deleted ==> r is Ok && final(state)@ == old(state)@.after_delete(id, replacement),
        !deleted ==> (r matches Err(CoreError::NotFound) && final(state)@ == old(state)@),
{
    if deleted {
        state.on_deleted(id, replacement);
        Ok(())
    } else {
        Err(CoreError::NotFound)
    }
}

} // verus!
