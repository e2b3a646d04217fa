use portable_atomic::AtomicBool;
use vstd::prelude::*;

use crate::primitives::{flag_compare_exchange, flag_value, new_flag};
use crate::state::{lemma_refusal_is_permanent, one_shot, run, step, Phase, Request};

verus! {

/// A cell built around a value, whose one successful take hands out that
/// value. Its phase is `Ready` until then and `Held` for good afterwards.
///
/// The takes go through `&mut`, so the handle borrows from the cell and lives
/// only as long as that borrow: a cell reached through `&'static mut` (one
/// leaked from a `Box`, say) hands out a handle that lives for the rest of the
/// program.
pub struct ConstStaticCell<T> {
    taken: AtomicBool,
    val: T,
}

impl<T> ConstStaticCell<T> {
    /// `Ready` before the take, `Held` after it.
    pub closed spec fn phase(&self) -> Phase {
        if flag_value(self.taken) {
            Phase::Held
        } else {
            Phase::Ready
        }
    }

    /// The value the cell holds.
    pub closed spec fn value(&self) -> T {
        self.val
    }

    /// What a take hands out: the value, when the take is granted.
    pub open spec fn taken_value(&self) -> Option<T> {
        if step(self.phase(), Request::Checkout).1 {
            Some(self.value())
        } else {
            None
        }
    }

    /// A cell built around `v` and not yet taken hands out `v` on its first
    /// take.
    pub proof fn lemma_first_take_yields_initial(&self, v: T)
        requires
            self.phase() == Phase::Ready,
            self.value() == v,
        ensures
            self.taken_value() == Some(v),
    {
    }

    /// A cell always holds its value: it is never `Empty`.
    pub proof fn lemma_never_empty(&self)
        ensures
            self.phase() != Phase::Empty,
    {
    }

    /// Once taken, a cell stays taken: however many takes come after, and
    /// however late, each is refused exactly as the first refused one.
    pub proof fn lemma_later_takes_refused(&self, rs: Seq<Request>)
        requires
            self.phase() == Phase::Held,
            one_shot(rs),
        ensures
            run(self.phase(), rs) == Phase::Held,
            step(run(self.phase(), rs), Request::Checkout) == (Phase::Held, false),
    {
        lemma_refusal_is_permanent(rs, Request::Checkout);
    }

    /// A cell holding `value`, not yet taken.
    pub fn new(value: T) -> (r: Self)
        ensures
            r.phase() == Phase::Ready,
            r.value() == value,
    {
        ConstStaticCell { taken: new_flag(false), val: value }
    }

    /// Takes the cell, handing out its value, or `None` when it was already
    /// taken.
    pub fn try_take(&mut self) -> (r: Option<&mut T>)
        ensures
            (final(self).phase(), r is Some) == step(old(self).phase(), Request::Checkout),
            final(self).phase() == Phase::Held,
            r is None ==> final(self).value() == old(self).value(),
            r is Some ==> Some(*r->0) == old(self).taken_value() && final(self).value()
                == *final(r->0),
    {
        match flag_compare_exchange(&mut self.taken, false, true) {
            Ok(_) => Some(&mut self.val),
            Err(_) => None,
        }
    }

    /// Takes the cell, handing out its value. The cell must not have been
    /// taken before.
    pub fn take(&mut self) -> (r: &mut T)
        requires
            old(self).phase() == Phase::Ready,
        ensures
            final(self).phase() == Phase::Held,
            Some(*r) == old(self).taken_value(),
            final(self).value() == *final(r),
    {
        match self.try_take() {
            Some(val) => val,
            None => unreached(),
        }
    }
}

} // verus!
