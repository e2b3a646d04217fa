use vstd::prelude::*;

verus! {

/// Where a cell's storage stands in its lifecycle.
#[derive(Clone, Copy, Debug, PartialEq, Eq, Structural)]
pub enum Phase {
    /// Storage not yet initialized; nobody holds it.
    Empty,
    /// Storage initialized and held by the cell.
    Ready,
    /// Storage handed out to the one holder.
    Held,
}

/// A request made of a cell's claim state.
#[derive(Clone, Copy, Debug, PartialEq, Eq, Structural)]
pub enum Request {
    /// Initialize the storage and take it: granted only on `Empty`.
    Init,
    /// Take the already initialized storage: granted only on `Ready`.
    Checkout,
    /// Hand the storage back: granted only on `Held`.
    GiveBack,
}

/// The phase after `q`, and whether `q` was granted. A refused request leaves
/// the phase as it was.
pub open spec fn step(p: Phase, q: Request) -> (Phase, bool) {
    match q {
        Request::Init => if p == Phase::Empty { (Phase::Held, true) } else { (p, false) },
        Request::Checkout => if p == Phase::Ready { (Phase::Held, true) } else { (p, false) },
        Request::GiveBack => if p == Phase::Held { (Phase::Ready, true) } else { (p, false) },
    }
}

/// Whether a request hands the storage out.
pub open spec fn is_claim(q: Request) -> bool {
    q is Init || q is Checkout
}

/// The number of holders that phase `p` stands for.
pub open spec fn holders(p: Phase) -> nat {
    if p == Phase::Held { 1 } else { 0 }
}

/// The phase after the requests `rs`, made one after another from `p`.
pub open spec fn run(p: Phase, rs: Seq<Request>) -> Phase
    decreases rs.len(),
{
    if rs.len() == 0 {
        p
    } else {
        run(step(p, rs[0]).0, rs.drop_first())
    }
}

/// How many of the requests `rs`, made from `p`, handed the storage out.
pub open spec fn granted_claims(p: Phase, rs: Seq<Request>) -> nat
    decreases rs.len(),
{
    if rs.len() == 0 {
        0
    } else {
        let (next, ok) = step(p, rs[0]);
        (if ok && is_claim(rs[0]) { 1nat } else { 0nat }) + granted_claims(next, rs.drop_first())
    }
}

/// How many of the requests `rs`, made from `p`, gave the storage back.
pub open spec fn granted_returns(p: Phase, rs: Seq<Request>) -> nat
    decreases rs.len(),
{
    if rs.len() == 0 {
        0
    } else {
        let (next, ok) = step(p, rs[0]);
        (if ok && rs[0] is GiveBack { 1nat } else { 0nat }) + granted_returns(next, rs.drop_first())
    }
}

/// Whether no request of `rs` gives the storage back.
pub open spec fn one_shot(rs: Seq<Request>) -> bool {
    forall|i: int| 0 <= i < rs.len() ==> !(#[trigger] rs[i] is GiveBack)
}

/// Every claim that is granted is matched by the phase moving to `Held`, and
/// every return by the phase leaving it: the holders before, plus the claims
/// granted, equal the returns granted plus the holders after.
pub proof fn lemma_holders_balance(p: Phase, rs: Seq<Request>)
    ensures
        holders(p) + granted_claims(p, rs) == granted_returns(p, rs) + holders(run(p, rs)),
    decreases rs.len(),
{
    if rs.len() > 0 {
        lemma_holders_balance(step(p, rs[0]).0, rs.drop_first());
    }
}

/// At most one holder at any instant: whatever requests are made, in whatever
/// order, the claims granted never exceed the returns granted by more than one,
/// so between two successive returns at most one claim succeeds.
pub proof fn lemma_single_holder(p: Phase, rs: Seq<Request>)
    ensures
        granted_claims(p, rs) + holders(p) <= granted_returns(p, rs) + 1,
{
    lemma_holders_balance(p, rs);
}

/// A cell that is never given back is claimed successfully at most once, and
/// not at all once it is held.
pub proof fn lemma_one_shot_claims(p: Phase, rs: Seq<Request>)
    requires
        one_shot(rs),
    ensures
        granted_claims(p, rs) <= 1,
        p == Phase::Held ==> granted_claims(p, rs) == 0,
        granted_returns(p, rs) == 0,
    decreases rs.len(),
{
    if rs.len() > 0 {
        assert(!(rs[0] is GiveBack));
        assert(one_shot(rs.drop_first())) by {
            assert forall|i: int| 0 <= i < rs.drop_first().len() implies !(
            #[trigger] rs.drop_first()[i] is GiveBack) by {
                assert(rs.drop_first()[i] == rs[i + 1]);
            }
        }
        lemma_one_shot_claims(step(p, rs[0]).0, rs.drop_first());
    }
    lemma_holders_balance(p, rs);
}

/// Once held, a cell that is never given back stays held, however many
/// requests come and however late: a later claim is refused exactly as an
/// immediate one is.
pub proof fn lemma_refusal_is_permanent(rs: Seq<Request>, q: Request)
    requires
        one_shot(rs),
        is_claim(q),
    ensures
        run(Phase::Held, rs) == Phase::Held,
        step(run(Phase::Held, rs), q) == step(Phase::Held, q),
        step(Phase::Held, q) == (Phase::Held, false),
    decreases rs.len(),
{
    if rs.len() > 0 {
        assert(!(rs[0] is GiveBack));
        assert(one_shot(rs.drop_first())) by {
            assert forall|i: int| 0 <= i < rs.drop_first().len() implies !(
            #[trigger] rs.drop_first()[i] is GiveBack) by {
                assert(rs.drop_first()[i] == rs[i + 1]);
            }
        }
        lemma_refusal_is_permanent(rs.drop_first(), q);
    }
}

/// Checking out and giving back from a ready cell leaves it ready.
pub proof fn lemma_checkout_give_back(p: Phase)
    requires
        p == Phase::Ready,
    ensures
        run(p, seq![Request::Checkout, Request::GiveBack]) == p,
{
    let rs = seq![Request::Checkout, Request::GiveBack];
    assert(rs.drop_first().drop_first() =~= Seq::<Request>::empty());
    assert(rs.drop_first()[0] == Request::GiveBack);
    assert(run(Phase::Ready, rs.drop_first().drop_first()) == Phase::Ready);
    assert(run(Phase::Held, rs.drop_first()) == Phase::Ready);
}

} // verus!
