//! The outside operations the cells rest on: portable_atomic's flag and word,
//! and std's `MaybeUninit::write`.

use portable_atomic::{AtomicBool, AtomicU8, Ordering};
use vstd::prelude::*;
use vstd::std_specs::maybe_uninit::MaybeUninitAdditionalSpecFns;

verus! {

/// portable_atomic's `AtomicBool`, held opaque: the claim flag of the one-shot
/// cells.
#[verifier::external_type_specification]
#[verifier::external_body]
pub struct ExAtomicBool(AtomicBool);

/// The `bool` that an atomic flag holds. The cells reach their flag only through
/// `&mut`, so nothing changes it behind a caller's back.
pub uninterp spec fn flag_value(a: AtomicBool) -> bool;

/// Relies on portable_atomic::AtomicBool::new: the flag holds `v`.
#[verifier::external_body]
pub(crate) fn new_flag(v: bool) -> (r: AtomicBool)
    ensures
        flag_value(r) == v,
{
    AtomicBool::new(v)
}

/// Relies on portable_atomic::AtomicBool::compare_exchange: when the flag holds
/// `current` it now holds `new` and `Ok(current)` comes back; otherwise it is left
/// alone and `Err` carries what it holds.
#[verifier::external_body]
pub(crate) fn flag_compare_exchange(a: &mut AtomicBool, current: bool, new: bool) -> (r: Result<bool, bool>)
    ensures
        r == (if flag_value(*old(a)) == current { Ok(current) } else { Err(flag_value(*old(a))) }),
        flag_value(*final(a)) == (if flag_value(*old(a)) == current { new } else { flag_value(*old(a)) }),
{
    a.compare_exchange(current, new, Ordering::Acquire, Ordering::Relaxed)
}

/// portable_atomic's `AtomicU8`, held opaque: the lifecycle word of the
/// reclaimable cell.
#[verifier::external_type_specification]
#[verifier::external_body]
pub struct ExAtomicU8(AtomicU8);

/// The `u8` that an atomic word holds, reached only through `&mut` as the flag
/// is.
pub uninterp spec fn word_value(a: AtomicU8) -> u8;

/// Relies on portable_atomic::AtomicU8::new: the word holds `v`.
#[verifier::external_body]
pub(crate) fn new_word(v: u8) -> (r: AtomicU8)
    ensures
        word_value(r) == v,
{
    AtomicU8::new(v)
}

/// Relies on portable_atomic::AtomicU8::compare_exchange: when the word holds
/// `current` it now holds `new` and `Ok(current)` comes back; otherwise it is left
/// alone and `Err` carries what it holds.
#[verifier::external_body]
pub(crate) fn word_compare_exchange(a: &mut AtomicU8, current: u8, new: u8) -> (r: Result<u8, u8>)
    ensures
        r == (if word_value(*old(a)) == current { Ok(current) } else { Err(word_value(*old(a))) }),
        word_value(*final(a)) == (if word_value(*old(a)) == current { new } else { word_value(*old(a)) }),
{
    a.compare_exchange(current, new, Ordering::AcqRel, Ordering::Acquire)
}

/// Relies on core::mem::MaybeUninit::write: the storage now holds `v`, and the
/// returned reference is to that value.
#[verifier::external_body]
pub(crate) fn write_slot<T>(m: &mut core::mem::MaybeUninit<T>, v: T) -> (r: &mut T)
    ensures
        *r == v,
        final(m).as_option() == Some(*final(r)),
{
    m.write(v)
}

} // verus!
