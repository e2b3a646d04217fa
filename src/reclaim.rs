use portable_atomic::AtomicU8;
use vstd::prelude::*;

use crate::primitives::{new_word, word_compare_exchange, word_value};
use crate::state::{step, Phase, Request};

verus! {

/// The lifecycle word of a reclaimable cell: nothing stored yet.
const EMPTY: u8 = 0;

/// The lifecycle word of a reclaimable cell: the value is in the cell.
const READY: u8 = 1;

/// The lifecycle word of a reclaimable cell: the value is checked out.
const HELD: u8 = 2;

/// Why a reclaimable cell refused a request.
#[derive(Clone, Copy, Debug, PartialEq, Eq, Structural)]
pub enum ReclaimError {
    /// A checkout while the value is already checked out.
    AlreadyCheckedOut,
    /// A checkout or a return before the cell was ever initialized.
    NotInitialized,
    /// A return while the value is in the cell.
    NotCheckedOut,
}

/// What a reclaimable cell is, as far as its users can tell.
pub struct ReclaimView<T> {
    /// Where the cell stands in its lifecycle.
    pub phase: Phase,
    /// The value, once the cell is initialized; while it is checked out, what
    /// the handle left in it.
    pub stored: Option<T>,
}

impl<T> ReclaimView<T> {
    /// The value is there exactly when the cell has been initialized.
    pub open spec fn valid(&self) -> bool {
        (self.phase != Phase::Empty) == (self.stored is Some)
    }
}

/// What a checkout hands out: the value, when the checkout is granted.
pub open spec fn handed_out<T>(v: ReclaimView<T>) -> Option<T> {
    if step(v.phase, Request::Checkout).1 {
        v.stored
    } else {
        None
    }
}

/// The cell after a granted checkout or initialization whose handle, when it
/// expired, held `w`.
pub open spec fn checked_out<T>(w: T) -> ReclaimView<T> {
    ReclaimView { phase: Phase::Held, stored: Some(w) }
}

/// The cell after a return, and whether it was taken. The value stays as the
/// handle left it.
pub open spec fn after_give_back<T>(v: ReclaimView<T>) -> (ReclaimView<T>, bool) {
    if step(v.phase, Request::GiveBack).1 {
        (ReclaimView { phase: Phase::Ready, stored: v.stored }, true)
    } else {
        (v, false)
    }
}

/// The error a refused checkout reports.
pub open spec fn checkout_error(p: Phase) -> ReclaimError {
    if p == Phase::Empty {
        ReclaimError::NotInitialized
    } else {
        ReclaimError::AlreadyCheckedOut
    }
}

/// The error a refused return reports.
pub open spec fn give_back_error(p: Phase) -> ReclaimError {
    if p == Phase::Empty {
        ReclaimError::NotInitialized
    } else {
        ReclaimError::NotCheckedOut
    }
}

/// A value written through the handle is what the next checkout hands out:
/// from a ready cell, checking out, leaving `w` behind the handle, giving back
/// and checking out again yields `w`.
pub proof fn lemma_next_checkout_sees_update<T>(v: ReclaimView<T>, w: T)
    requires
        v.valid(),
        v.phase == Phase::Ready,
    ensures
        handed_out(v) is Some,
        after_give_back(checked_out(w)).1,
        handed_out(after_give_back(checked_out(w)).0) == Some(w),
{
}

/// Checking out and giving back without a write leaves a ready cell exactly
/// as it was.
pub proof fn lemma_checkout_give_back_round_trip<T>(v: ReclaimView<T>)
    requires
        v.valid(),
        v.phase == Phase::Ready,
    ensures
        after_give_back(checked_out(handed_out(v)->0)) == (v, true),
{
}

/// A cell whose value is checked out to one holder at a time and may be given
/// back for a later checkout.
///
/// The handle is a `&mut` borrowed from the cell itself, so it can only ever
/// be given back to the cell that handed it out: `give_back` is called on that
/// cell once the borrow has ended, and no other cell can be handed it.
pub struct ReclaimCell<T> {
    state: AtomicU8,
    slot: Option<T>,
}

impl<T> ReclaimCell<T> {
    /// The lifecycle word is one of the three phases, and the value is there
    /// exactly when the cell has been initialized.
    pub closed spec fn wf(&self) -> bool {
        &&& word_value(self.state) <= HELD
        &&& (word_value(self.state) != EMPTY <==> self.slot is Some)
    }

    /// What the cell is, as far as its users can tell.
    pub closed spec fn view(&self) -> ReclaimView<T> {
        ReclaimView {
            phase: if word_value(self.state) == EMPTY {
                Phase::Empty
            } else if word_value(self.state) == READY {
                Phase::Ready
            } else {
                Phase::Held
            },
            stored: self.slot,
        }
    }

    /// A well-formed cell has a valid view.
    pub proof fn lemma_valid_view(&self)
        requires
            self.wf(),
        ensures
            self@.valid(),
    {
    }

    /// A cell with no value yet.
    pub fn new() -> (r: Self)
        ensures
            r.wf(),
            r@ == (ReclaimView::<T> { phase: Phase::Empty, stored: None }),
    {
        ReclaimCell { state: new_word(EMPTY), slot: None }
    }

    /// A cell that starts out holding `value`, ready for checkout.
    pub fn with_value(value: T) -> (r: Self)
        ensures
            r.wf(),
            r@ == (ReclaimView { phase: Phase::Ready, stored: Some(value) }),
    {
        ReclaimCell { state: new_word(READY), slot: Some(value) }
    }

    /// Initializes the cell with `value` and checks it out in the same step;
    /// `None` when the cell was initialized before.
    pub fn try_init(&mut self, value: T) -> (r: Option<&mut T>)
        requires
            old(self).wf(),
        ensures
            final(self).wf(),
            (final(self)@.phase, r is Some) == step(old(self)@.phase, Request::Init),
            r is None ==> final(self)@ == old(self)@,
            r is Some ==> *r->0 == value && final(self)@ == checked_out(*final(r->0)),
    {
        match word_compare_exchange(&mut self.state, EMPTY, HELD) {
            Ok(_) => {
                self.slot = Some(value);
                match &mut self.slot {
                    Some(v) => Some(v),
                    None => unreached(),
                }
            },
            Err(_) => None,
        }
    }

    /// Initializes the cell with `value` and checks it out in the same step.
    /// The cell must not have been initialized before.
    pub fn init(&mut self, value: T) -> (r: &mut T)
        requires
            old(self).wf(),
            old(self)@.phase == Phase::Empty,
        ensures
            final(self).wf(),
            *r == value,
            final(self)@ == checked_out(*final(r)),
    {
        match self.try_init(value) {
            Some(v) => v,
            None => unreached(),
        }
    }

    /// Initializes the cell with what `f` builds, once the claim has succeeded,
    /// and checks it out in the same step; `None` when the cell was initialized
    /// before, and then `f` is not run.
    pub fn try_init_with<F: FnOnce() -> T>(&mut self, f: F) -> (r: Option<&mut T>)
        requires
            old(self).wf(),
            f.requires(()),
        ensures
            final(self).wf(),
            (final(self)@.phase, r is Some) == step(old(self)@.phase, Request::Init),
            r is None ==> final(self)@ == old(self)@,
            r is Some ==> f.ensures((), *r->0) && final(self)@ == checked_out(*final(r->0)),
    {
        match word_compare_exchange(&mut self.state, EMPTY, HELD) {
            Ok(_) => {
                self.slot = Some(f());
                match &mut self.slot {
                    Some(v) => Some(v),
                    None => unreached(),
                }
            },
            Err(_) => None,
        }
    }

    /// Initializes the cell with what `f` builds and checks it out in the same
    /// step. The cell must not have been initialized before.
    pub fn init_with<F: FnOnce() -> T>(&mut self, f: F) -> (r: &mut T)
        requires
            old(self).wf(),
            old(self)@.phase == Phase::Empty,
            f.requires(()),
        ensures
            final(self).wf(),
            f.ensures((), *r),
            final(self)@ == checked_out(*final(r)),
    {
        match self.try_init_with(f) {
            Some(v) => v,
            None => unreached(),
        }
    }

    /// Checks the value out: `NotInitialized` before the cell was initialized,
    /// `AlreadyCheckedOut` while it is checked out.
    pub fn try_checkout(&mut self) -> (r: Result<&mut T, ReclaimError>)
        requires
            old(self).wf(),
        ensures
            final(self).wf(),
            (final(self)@.phase, r is Ok) == step(old(self)@.phase, Request::Checkout),
            r is Err ==> final(self)@ == old(self)@ && r->Err_0 == checkout_error(old(self)@.phase),
            r is Ok ==> Some(*r->Ok_0) == handed_out(old(self)@) && final(self)@ == checked_out(
                *final(r->Ok_0),
            ),
    {
        match word_compare_exchange(&mut self.state, READY, HELD) {
            Ok(_) => match &mut self.slot {
                Some(v) => Ok(v),
                None => unreached(),
            },
            Err(EMPTY) => Err(ReclaimError::NotInitialized),
            Err(_) => Err(ReclaimError::AlreadyCheckedOut),
        }
    }

    /// Checks the value out. The value must be in the cell.
    pub fn checkout(&mut self) -> (r: &mut T)
        requires
            old(self).wf(),
            old(self)@.phase == Phase::Ready,
        ensures
            final(self).wf(),
            Some(*r) == handed_out(old(self)@),
            final(self)@ == checked_out(*final(r)),
    {
        match self.try_checkout() {
            Ok(v) => v,
            Err(_) => unreached(),
        }
    }

    /// Gives the value back for a later checkout, as the handle left it:
    /// `NotInitialized` before the cell was initialized, `NotCheckedOut` while
    /// the value is in the cell; a refused return leaves the cell as it was.
    pub fn try_give_back(&mut self) -> (r: Result<(), ReclaimError>)
        requires
            old(self).wf(),
        ensures
            final(self).wf(),
            (final(self)@, r is Ok) == after_give_back(old(self)@),
            r is Err ==> r->Err_0 == give_back_error(old(self)@.phase),
    {
        match word_compare_exchange(&mut self.state, HELD, READY) {
            Ok(_) => Ok(()),
            Err(EMPTY) => Err(ReclaimError::NotInitialized),
            Err(_) => Err(ReclaimError::NotCheckedOut),
        }
    }

    /// Gives the value back for a later checkout. The value must be checked
    /// out.
    pub fn give_back(&mut self)
        requires
            old(self).wf(),
            old(self)@.phase == Phase::Held,
        ensures
            final(self).wf(),
            final(self)@ == after_give_back(old(self)@).0,
    {
        let r = self.try_give_back();
        assert(r is Ok);
    }
}

} // verus!
