use vstd::prelude::*;

verus! {

/// How many origin fetches may be in flight at once.
pub const ADMISSION_CAPACITY: usize = 20;

/// A request made of an admission controller.
#[derive(PartialEq, Eq, Structural, Clone, Copy, Debug)]
pub enum AdmissionOp {
    Acquire,
    Release,
}

/// How many permits are held after `op`, from `held` held out of `limit`: an acquire
/// is granted only while a permit is free, a release gives one back where one is held.
pub open spec fn held_after_op(limit: nat, held: nat, op: AdmissionOp) -> nat {
    match op {
        AdmissionOp::Acquire => if held < limit {
            held + 1
        } else {
            held
        },
        AdmissionOp::Release => if held > 0 {
            (held - 1) as nat
        } else {
            0
        },
    }
}

/// How many permits are held after the requests `ops`, made in order of a controller
/// that starts with `held` held out of `limit`.
pub open spec fn held_after(limit: nat, held: nat, ops: Seq<AdmissionOp>) -> nat
    decreases ops.len(),
{
    if ops.len() == 0 {
        held
    } else {
        held_after_op(limit, held_after(limit, held, ops.drop_last()), ops.last())
    }
}

/// A counting bound on concurrent origin fetches: at most `limit` permits are held at
/// any time.
pub struct AdmissionController {
    limit: usize,
    held: usize,
}

impl AdmissionController {
    /// How many permits there are.
    pub closed spec fn limit(&self) -> nat {
        self.limit as nat
    }

    /// How many permits are held.
    pub closed spec fn held(&self) -> nat {
        self.held as nat
    }

    /// No more permits are held than there are.
    #[verifier::type_invariant]
    spec fn wf(&self) -> bool {
        self.held <= self.limit
    }

    /// A controller of `capacity` permits, none held.
    pub fn new(capacity: usize) -> (r: AdmissionController)
        ensures
            r.limit() == capacity,
            r.held() == 0,
    {
        AdmissionController { limit: capacity, held: 0 }
    }

    /// How many permits there are.
    pub fn capacity(&self) -> (r: usize)
        ensures
            r == self.limit(),
    {
        self.limit
    }

    /// How many permits are held.
    pub fn in_flight(&self) -> (r: usize)
        ensures
            r == self.held(),
            r <= self.limit(),
    {
        proof {
            use_type_invariant(self);
        }
        self.held
    }

    /// Takes a permit where one is free. A caller that is refused waits for a release
    /// and asks again.
    pub fn try_acquire(&mut self) -> (granted: bool)
        ensures
            final(self).held() <= final(self).limit(),
            granted == (old(self).held() < old(self).limit()),
            final(self).limit() == old(self).limit(),
            final(self).held() == held_after_op(old(self).limit(), old(self).held(), AdmissionOp::Acquire),
    {
        proof {
            use_type_invariant(&*self);
        }
        if self.held < self.limit {
            self.held = self.held + 1;
            true
        } else {
            false
        }
    }

    /// Gives a permit back, where one is held.
    pub fn release(&mut self)
        ensures
            final(self).held() <= final(self).limit(),
            final(self).limit() == old(self).limit(),
            final(self).held() == held_after_op(old(self).limit(), old(self).held(), AdmissionOp::Release),
    {
        proof {
            use_type_invariant(&*self);
        }
        if self.held > 0 {
            self.held = self.held - 1;
        }
    }
}

/// Whatever requests are made, in whatever order, of a controller of `capacity`
/// permits that starts with none held, at no point are more than `capacity` permits
/// held; so no more than `capacity` fetches are ever in flight at once.
pub proof fn admission_never_exceeds_capacity(capacity: nat, ops: Seq<AdmissionOp>)
    ensures
        forall|k: int| 0 <= k <= ops.len() ==> #[trigger] held_after(capacity, 0, ops.take(k)) <= capacity,
{
    assert forall|k: int| 0 <= k <= ops.len() implies #[trigger] held_after(capacity, 0, ops.take(k)) <= capacity by {
        lemma_held_bounded(capacity, ops.take(k));
    }
}

proof fn lemma_held_bounded(limit: nat, ops: Seq<AdmissionOp>)
    ensures
        held_after(limit, 0, ops) <= limit,
    decreases ops.len(),
{
    if ops.len() > 0 {
        lemma_held_bounded(limit, ops.drop_last());
    }
}

} // verus!
