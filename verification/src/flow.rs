//! Credit-based flow control: a per-stream credit counter and the constants
//! of the batched credit-return policy.

use vstd::prelude::*;

verus! {

/// Whether per-stream credit accounting is enforced on the data paths.
#[derive(Clone, Copy, Debug, PartialEq, Eq, Structural)]
pub enum FlowControlStrategy {
    Disabled,
    Enabled,
}

/// Numerator of the credit-return watermark fraction.
pub const FC_NUMERATOR: u64 = 1;

/// Denominator of the credit-return watermark fraction. The watermark is
/// `capacity * FC_NUMERATOR / FC_DENOMINATOR`; a credit-return emits a
/// `CreditUpdate` frame only once `available` has climbed back to it.
pub const FC_DENOMINATOR: u64 = 2;

/// A stream's credit counter: a fixed high-water mark (`capacity`) and the
/// grant currently available for sending (`available`).
#[derive(Clone, Copy, Debug, PartialEq)]
pub struct Credits {
    pub capacity: u32,
    pub available: u32,
}

/// One bookkeeping step on a `Credits` counter: `Reserve` consumes credit
/// before a payload is sent, `Grant` replenishes it when the receiver hands
/// credit back.
pub enum CreditOp {
    Reserve(u32),
    Grant(u32),
}

/// Amount a counter holds after one bookkeeping step: `Reserve` decrements,
/// `Grant` increments saturating at `capacity`.
pub open spec fn apply_op(c: Credits, op: CreditOp) -> Credits {
    match op {
        CreditOp::Reserve(n) => (Credits { capacity: c.capacity, available: (c.available - n) as u32 }),
        CreditOp::Grant(n) => (Credits {
            capacity: c.capacity,
            available: if c.available + n <= c.capacity {
                (c.available + n) as u32
            } else {
                c.capacity
            },
        }),
    }
}

/// A `Reserve` is allowed only when the credit it consumes is available;
/// a `Grant` is always allowed.
pub open spec fn op_allowed(c: Credits, op: CreditOp) -> bool {
    match op {
        CreditOp::Reserve(n) => n <= c.available,
        CreditOp::Grant(_) => true,
    }
}

/// Folds a sequence of bookkeeping steps over a counter, front to back.
pub open spec fn apply_ops(c: Credits, ops: Seq<CreditOp>) -> Credits
    decreases ops.len(),
{
    if ops.len() == 0 {
        c
    } else {
        apply_ops(apply_op(c, ops[0]), ops.drop_first())
    }
}

/// Every step of `ops` is allowed in the state it runs in.
pub open spec fn ops_allowed(c: Credits, ops: Seq<CreditOp>) -> bool
    decreases ops.len(),
{
    if ops.len() == 0 {
        true
    } else {
        op_allowed(c, ops[0]) && ops_allowed(apply_op(c, ops[0]), ops.drop_first())
    }
}

/// Total credit consumed by the `Reserve` steps of `ops`.
pub open spec fn reserved_sum(ops: Seq<CreditOp>) -> int
    decreases ops.len(),
{
    if ops.len() == 0 {
        0
    } else {
        (match ops[0] {
            CreditOp::Reserve(n) => n as int,
            CreditOp::Grant(_) => 0,
        }) + reserved_sum(ops.drop_first())
    }
}

/// Total credit offered by the `Grant` steps of `ops` (before saturation).
pub open spec fn granted_sum(ops: Seq<CreditOp>) -> int
    decreases ops.len(),
{
    if ops.len() == 0 {
        0
    } else {
        (match ops[0] {
            CreditOp::Grant(n) => n as int,
            CreditOp::Reserve(_) => 0,
        }) + granted_sum(ops.drop_first())
    }
}

impl Credits {
    /// The counter never holds more credit than its capacity.
    pub open spec fn wf(self) -> bool {
        self.available <= self.capacity
    }

    /// A fresh counter starts with its whole capacity available.
    pub fn new(capacity: u32) -> (r: Self)
        ensures
            r == (Credits { capacity, available: capacity }),
            r.wf(),
    {
        Credits { capacity, available: capacity }
    }

    /// Whether at least `n` credits are available.
    pub fn has_capacity(&self, n: u32) -> (r: bool)
        ensures
            r == (n <= self.available),
    {
        n <= self.available
    }

    /// Consumes `n` credits ahead of sending `n` payload bytes.
    pub fn reserve(&mut self, n: u32)
        requires
            old(self).wf(),
            n <= old(self).available,
        ensures
            *final(self) == apply_op(*old(self), CreditOp::Reserve(n)),
            final(self).capacity == old(self).capacity,
            final(self).available == old(self).available - n,
            final(self).wf(),
    {
        self.available = self.available - n;
    }

    /// Replenishes the counter by `n`, saturating at `capacity`, and returns
    /// the effective increase.
    pub fn grant(&mut self, n: u32) -> (delta: u32)
        requires
            old(self).wf(),
        ensures
            *final(self) == apply_op(*old(self), CreditOp::Grant(n)),
            final(self).capacity == old(self).capacity,
            delta == final(self).available - old(self).available,
            final(self).wf(),
    {
        let before = self.available;
        let sum: u64 = self.available as u64 + n as u64;
        if sum > self.capacity as u64 {
            self.available = self.capacity;
        } else {
            self.available = sum as u32;
        }
        self.available - before
    }

    /// Credit currently available for sending.
    pub fn available(&self) -> (r: u32)
        ensures
            r == self.available,
    {
        self.available
    }

    /// The counter's fixed high-water mark.
    pub fn capacity(&self) -> (r: u32)
        ensures
            r == self.capacity,
    {
        self.capacity
    }
}

/// Credit is conserved: across any allowed run of reserves and grants, what
/// remains available plus everything reserved never exceeds what the counter
/// started with plus everything granted; and the counter stays well-formed
/// with its capacity unchanged.
pub proof fn lemma_credit_conservation(c: Credits, ops: Seq<CreditOp>)
    requires
        c.wf(),
        ops_allowed(c, ops),
    ensures
        apply_ops(c, ops).available + reserved_sum(ops) <= c.available + granted_sum(ops),
        apply_ops(c, ops).wf(),
        apply_ops(c, ops).capacity == c.capacity,
    decreases ops.len(),
{
    if ops.len() > 0 {
        let c1 = apply_op(c, ops[0]);
        lemma_credit_conservation(c1, ops.drop_first());
    }
}

/// The total credit a stream ever reserves for outbound payloads is bounded
/// by the credit it started with plus the sum of all grants it received.
pub proof fn lemma_reserved_bounded(c: Credits, ops: Seq<CreditOp>)
    requires
        c.wf(),
        ops_allowed(c, ops),
    ensures
        reserved_sum(ops) <= c.available + granted_sum(ops),
{
    lemma_credit_conservation(c, ops);
}

/// Grants that fit below capacity are all effective: replenishing a
/// well-formed counter by amounts summing to `total`, with room for all of
/// it, raises `available` by exactly `total`.
pub proof fn lemma_grants_effective(c: Credits, grants: Seq<u32>)
    requires
        c.wf(),
        c.available + grant_total(grants) <= c.capacity,
    ensures
        apply_ops(c, grants.map_values(|g: u32| CreditOp::Grant(g))).available == c.available
            + grant_total(grants),
        ops_allowed(c, grants.map_values(|g: u32| CreditOp::Grant(g))),
    decreases grants.len(),
{
    let ops = grants.map_values(|g: u32| CreditOp::Grant(g));
    if grants.len() > 0 {
        assert(ops[0] == CreditOp::Grant(grants[0]));
        lemma_grant_total_nonneg(grants.drop_first());
        let c1 = apply_op(c, ops[0]);
        assert(c1.available == c.available + grants[0]);
        lemma_grants_effective(c1, grants.drop_first());
        assert(grants.drop_first().map_values(|g: u32| CreditOp::Grant(g)) =~= ops.drop_first());
    }
}

/// A sum of grant amounts is never negative.
proof fn lemma_grant_total_nonneg(grants: Seq<u32>)
    ensures
        grant_total(grants) >= 0,
    decreases grants.len(),
{
    if grants.len() > 0 {
        lemma_grant_total_nonneg(grants.drop_first());
    }
}

/// Sum of a sequence of grant amounts.
pub open spec fn grant_total(grants: Seq<u32>) -> int
    decreases grants.len(),
{
    if grants.len() == 0 {
        0
    } else {
        grants[0] + grant_total(grants.drop_first())
    }
}

/// Round trip: reserving `l` from a well-formed counter and then granting it
/// back in any number of installments summing to `l` restores `available` to
/// exactly where it started.
pub proof fn lemma_credit_round_trip(c: Credits, l: u32, grants: Seq<u32>)
    requires
        c.wf(),
        l <= c.available,
        grant_total(grants) == l,
    ensures
        apply_ops(
            apply_op(c, CreditOp::Reserve(l)),
            grants.map_values(|g: u32| CreditOp::Grant(g)),
        ).available == c.available,
{
    let c1 = apply_op(c, CreditOp::Reserve(l));
    lemma_grants_effective(c1, grants);
}

} // verus!
