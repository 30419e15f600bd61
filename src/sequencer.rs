//! Which stored image the frame shows now, and which one it shows next.
//!
//! The store's random pick is outside work: callers draw it and hand the
//! outcome in (`None` when the store is empty). Every operation here is then
//! a plain function of the pointers and those outcomes.
use crate::error::CoreError;
use vstd::prelude::*;

verus! {

/// The two device pointers, as the contracts speak of them.
pub struct Pointers {
    pub current: Option<i64>,
    pub next: Option<i64>,
}

/// `d` is a possible outcome of a random pick among the ids of `catalog`.
pub open spec fn is_draw_from(catalog: Set<i64>, d: Option<i64>) -> bool {
    match d {
        None => catalog.is_empty(),
        Some(id) => catalog.contains(id),
    }
}

impl Pointers {
    /// Every pointer that is set names an id of `catalog`.
    pub open spec fn refers_within(self, catalog: Set<i64>) -> bool {
        &&& (self.current matches Some(c) ==> catalog.contains(c))
        &&& (self.next matches Some(n) ==> catalog.contains(n))
    }

    /// The id shown next: the queued one, else the random pick `drawn`.
    pub open spec fn resolve(self, drawn: Option<i64>) -> Option<i64> {
        if self.next.is_some() {
            self.next
        } else {
            drawn
        }
    }

    /// The pointers after the frame moves on: the resolved id becomes
    /// current and the fresh pick `redraw` is queued. With nothing to show,
    /// nothing changes.
    pub open spec fn advanced(self, drawn: Option<i64>, redraw: Option<i64>) -> Pointers {
        match self.resolve(drawn) {
            Some(id) => Pointers { current: Some(id), next: redraw },
            None => self,
        }
    }

    /// The pointers after image `id` is deleted: a pointer to it is cleared,
    /// and a queued one is replaced by the pick `replacement` made among the
    /// images that remain.
    pub open spec fn after_delete(self, id: i64, replacement: Option<i64>) -> Pointers {
        Pointers {
            current: if self.current == Some(id) {
                None
            } else {
                self.current
            },
            next: if self.next == Some(id) {
                replacement
            } else {
                self.next
            },
        }
    }
}

/// The frame's scheduling state. Only the operations below change it.
pub struct DeviceState {
    current: Option<i64>,
    next: Option<i64>,
}

impl View for DeviceState {
    type V = Pointers;

    closed spec fn view(&self) -> Pointers {
        Pointers { current: self.current, next: self.next }
    }
}

impl DeviceState {
    /// A state with no image current and none queued.
    pub fn new() -> (r: DeviceState)
        ensures
            r@.current.is_none(),
            r@.next.is_none(),
    {
        DeviceState { current: None, next: None }
    }

    /// The image assumed to be on the panel.
    pub fn current(&self) -> (r: Option<i64>)
        ensures
            r == self@.current,
    {
        self.current
    }

    /// The image queued for the next refresh.
    pub fn next(&self) -> (r: Option<i64>)
        ensures
            r == self@.next,
    {
        self.next
    }

    /// The id the frame would show next: the queued one, else `drawn`, the
    /// store's random pick.
    pub fn peek_next_or_random(&self, drawn: Option<i64>) -> (r: Option<i64>)
        ensures
            r == self@.resolve(drawn),
    {
        match self.next {
            Some(id) => Some(id),
            None => drawn,
        }
    }

    /// Like `peek_next_or_random`, with an empty store reported as an error.
    /// Nothing changes.
    pub fn next_to_show(&self, drawn: Option<i64>) -> (r: Result<i64, CoreError>)
        ensures
            self@.resolve(drawn) matches Some(id) ==> r == Ok::<i64, CoreError>(id),
            self@.resolve(drawn) is None ==> r == Err::<i64, CoreError>(CoreError::EmptyCatalog),
    {
        match self.peek_next_or_random(drawn) {
            Some(id) => Ok(id),
            None => Err(CoreError::EmptyCatalog),
        }
    }

    /// Moves the frame on: the id shown next becomes current, `redraw` (a
    /// fresh random pick) is queued, and the new current id is returned.
    /// Returns `None`, changing nothing, when there is nothing to show.
    pub fn advance(&mut self, drawn: Option<i64>, redraw: Option<i64>) -> (r: Option<i64>)
        ensures
            r == old(self)@.resolve(drawn),
            final(self)@ == old(self)@.advanced(drawn, redraw),
    {
        let shown = self.peek_next_or_random(drawn);
        if let Some(id) = shown {
            self.current = Some(id);
            self.next = redraw;
        }
        shown
    }

    /// Queues image `id`. `in_store` tells whether the store holds it: an id
    /// it lacks is refused with `NotFound` and nothing changes.
    pub fn set_next(&mut self, id: i64, in_store: bool) -> (r: Result<(), CoreError>)
        ensures
            in_store ==> r is Ok && final(self)@ == (Pointers {
                current: old(self)@.current,
                next: Some(id),
            }),
            !in_store ==> r == Err::<(), CoreError>(CoreError::NotFound) && final(self)@ == old(
                self,
            )@,
    {
        if in_store {
            self.next = Some(id);
            Ok(())
        } else {
            Err(CoreError::NotFound)
        }
    }

    /// Forgets image `id` after the store deleted it. A queued pointer to it
    /// is replaced by `replacement`, a random pick among the remaining images.
    pub fn on_deleted(&mut self, id: i64, replacement: Option<i64>)
        ensures
            final(self)@ == old(self)@.after_delete(id, replacement),
    {
        if self.current == Some(id) {
            self.current = None;
        }
        if self.next == Some(id) {
            self.next = replacement;
        }
    }
}

/// With a single image in the store, the frame always moves to that image,
/// which becomes both current and next.
pub proof fn lemma_single_image_advance(p: Pointers, a: i64, drawn: Option<i64>, redraw: Option<i64>)
    requires
        p.refers_within(set![a]),
        is_draw_from(set![a], drawn),
        is_draw_from(set![a], redraw),
    ensures
        p.resolve(drawn) == Some(a),
        p.advanced(drawn, redraw) == (Pointers { current: Some(a), next: Some(a) }),
{
}

/// With an empty store there is nothing to show, and moving on changes
/// nothing.
pub proof fn lemma_empty_store_advance(p: Pointers, drawn: Option<i64>, redraw: Option<i64>)
    requires
        p.refers_within(Set::empty()),
        is_draw_from(Set::empty(), drawn),
    ensures
        p.resolve(drawn).is_none(),
        p.advanced(drawn, redraw) == p,
{
}

/// After image `id` is deleted neither pointer names it, and neither the
/// next peek nor the next advance returns it, as long as the picks are made
/// among the remaining images.
pub proof fn lemma_deleted_id_gone(
    p: Pointers,
    catalog: Set<i64>,
    id: i64,
    replacement: Option<i64>,
    drawn: Option<i64>,
    redraw: Option<i64>,
)
    requires
        is_draw_from(catalog.remove(id), replacement),
        is_draw_from(catalog.remove(id), drawn),
        is_draw_from(catalog.remove(id), redraw),
    ensures
        p.after_delete(id, replacement).current != Some(id),
        p.after_delete(id, replacement).next != Some(id),
        p.after_delete(id, replacement).resolve(drawn) != Some(id),
        p.after_delete(id, replacement).advanced(drawn, redraw).current != Some(id),
        p.after_delete(id, replacement).advanced(drawn, redraw).next != Some(id),
        p.refers_within(catalog) ==> p.after_delete(id, replacement).refers_within(
            catalog.remove(id),
        ),
{
}

/// Every operation keeps the pointers within the store, provided the random
/// picks are made among its images and `set_next` is told the truth.
pub proof fn lemma_pointers_stay_within(
    p: Pointers,
    catalog: Set<i64>,
    drawn: Option<i64>,
    redraw: Option<i64>,
    queued: i64,
)
    requires
        p.refers_within(catalog),
        is_draw_from(catalog, drawn),
        is_draw_from(catalog, redraw),
    ensures
        p.advanced(drawn, redraw).refers_within(catalog),
        catalog.contains(queued) ==> (Pointers { current: p.current, next: Some(queued) }).refers_within(
            catalog,
        ),
{
}

} // verus!
