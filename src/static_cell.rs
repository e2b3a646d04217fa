use core::mem::MaybeUninit;
use portable_atomic::AtomicBool;
use vstd::prelude::*;
use vstd::std_specs::maybe_uninit::MaybeUninitAdditionalSpecFns;

use crate::primitives::{flag_compare_exchange, flag_value, new_flag, write_slot};
use crate::state::{lemma_refusal_is_permanent, one_shot, run, step, Phase, Request};

verus! {

/// A cell created empty, whose storage is filled by the one claim that
/// succeeds. Its phase is `Empty` until then and `Held` for good afterwards.
///
/// The claims take the cell by `&mut`, so the handle borrows from it for as
/// long as the cell is borrowed: a cell reached through `&'static mut` (one
/// leaked from a `Box`, say) hands out a handle that lives for the rest of the
/// program.
pub struct StaticCell<T> {
    used: AtomicBool,
    val: MaybeUninit<T>,
}

impl<T> StaticCell<T> {
    /// `Empty` before the claim, `Held` after it.
    pub closed spec fn phase(&self) -> Phase {
        if flag_value(self.used) {
            Phase::Held
        } else {
            Phase::Empty
        }
    }

    /// What the storage holds, if it is initialized.
    pub closed spec fn contents(&self) -> Option<T> {
        self.val.as_option()
    }

    /// The storage is uninitialized while the cell is `Empty`.
    pub closed spec fn wf(&self) -> bool {
        self.phase() == Phase::Empty ==> self.contents() is None
    }

    /// A late cell is never `Ready`: its storage is filled by the claim itself.
    pub proof fn lemma_never_ready(&self)
        ensures
            self.phase() != Phase::Ready,
    {
    }

    /// Once claimed, a cell stays claimed: however many claims come after, and
    /// however late, each is refused exactly as the first refused one.
    pub proof fn lemma_later_claims_refused(&self, rs: Seq<Request>)
        requires
            self.phase() == Phase::Held,
            one_shot(rs),
        ensures
            run(self.phase(), rs) == Phase::Held,
            step(run(self.phase(), rs), Request::Init) == (Phase::Held, false),
    {
        lemma_refusal_is_permanent(rs, Request::Init);
    }

    /// An empty cell: unclaimed, with uninitialized storage.
    pub fn new() -> (r: Self)
        ensures
            r.wf(),
            r.phase() == Phase::Empty,
            r.contents() is None,
    {
        StaticCell { used: new_flag(false), val: MaybeUninit::uninit() }
    }

    /// Claims the cell and hands out its raw storage, or `None` when it was
    /// already claimed.
    pub fn try_uninit(&mut self) -> (r: Option<&mut MaybeUninit<T>>)
        requires
            old(self).wf(),
        ensures
            final(self).wf(),
            final(self).phase() == Phase::Held,
            (final(self).phase(), r is Some) == step(old(self).phase(), Request::Init),
            r is None ==> final(self).contents() == old(self).contents(),
            r is Some ==> (*r->0).as_option() is None && final(self).contents()
                == (*final(r->0)).as_option(),
    {
        match flag_compare_exchange(&mut self.used, false, true) {
            Ok(_) => Some(&mut self.val),
            Err(_) => None,
        }
    }

    /// Claims the cell and hands out its raw storage. The cell must not have
    /// been claimed before.
    pub fn uninit(&mut self) -> (r: &mut MaybeUninit<T>)
        requires
            old(self).wf(),
            old(self).phase() == Phase::Empty,
        ensures
            final(self).wf(),
            final(self).phase() == Phase::Held,
            (*r).as_option() is None,
            final(self).contents() == (*final(r)).as_option(),
    {
        match self.try_uninit() {
            Some(slot) => slot,
            None => unreached(),
        }
    }

    /// Claims the cell and stores `val` in it, or hands `None` back when it was
    /// already claimed.
    pub fn try_init(&mut self, val: T) -> (r: Option<&mut T>)
        requires
            old(self).wf(),
        ensures
            final(self).wf(),
            final(self).phase() == Phase::Held,
            (final(self).phase(), r is Some) == step(old(self).phase(), Request::Init),
            r is None ==> final(self).contents() == old(self).contents(),
            r is Some ==> *r->0 == val && final(self).contents() == Some(*final(r->0)),
    {
        match self.try_uninit() {
            Some(slot) => Some(write_slot(slot, val)),
            None => None,
        }
    }

    /// Claims the cell and stores `val` in it. The cell must not have been
    /// claimed before.
    pub fn init(&mut self, val: T) -> (r: &mut T)
        requires
            old(self).wf(),
            old(self).phase() == Phase::Empty,
        ensures
            final(self).wf(),
            final(self).phase() == Phase::Held,
            *r == val,
            final(self).contents() == Some(*final(r)),
    {
        write_slot(self.uninit(), val)
    }

    /// Claims the cell and stores in it what `f` builds, once the claim has
    /// succeeded; `None` when it was already claimed, and then `f` is not run.
    pub fn try_init_with<F: FnOnce() -> T>(&mut self, f: F) -> (r: Option<&mut T>)
        requires
            old(self).wf(),
            f.requires(()),
        ensures
            final(self).wf(),
            final(self).phase() == Phase::Held,
            (final(self).phase(), r is Some) == step(old(self).phase(), Request::Init),
            r is None ==> final(self).contents() == old(self).contents(),
            r is Some ==> f.ensures((), *r->0) && final(self).contents() == Some(*final(r->0)),
    {
        match self.try_uninit() {
            Some(slot) => Some(write_slot(slot, f())),
            None => None,
        }
    }

    /// Claims the cell and stores in it what `f` builds. The cell must not have
    /// been claimed before.
    pub fn init_with<F: FnOnce() -> T>(&mut self, f: F) -> (r: &mut T)
        requires
            old(self).wf(),
            old(self).phase() == Phase::Empty,
            f.requires(()),
        ensures
            final(self).wf(),
            final(self).phase() == Phase::Held,
            f.ensures((), *r),
            final(self).contents() == Some(*final(r)),
    {
        write_slot(self.uninit(), f())
    }
}

} // verus!
