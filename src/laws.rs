use vstd::prelude::*;

use crate::db_weight::RuntimeDbWeight;
use crate::operation::{
    cost_of, dominated_by, exact_cost, fixed_cost, scaled_cost, storage, zeroed, Operation,
};
use crate::weight::{lemma_saturate_monotone, saturate, Weight};

verus! {

proof fn lemma_storage_monotone(db: RuntimeDbWeight, r1: int, r2: int, w1: int, w2: int)
    requires
        0 <= r1 <= r2,
        0 <= w1 <= w2,
    ensures
        0 <= storage(db, r1, w1) <= storage(db, r2, w2),
{
    let (c, d) = (db.read as int, db.write as int);
    assert(0 <= c * r1 <= c * r2 && 0 <= d * w1 <= d * w2) by (nonlinear_arith)
        requires
            0 <= c,
            0 <= d,
            0 <= r1 <= r2,
            0 <= w1 <= w2,
    ;
}

/// Every part of an operation's cost is non-negative.
proof fn lemma_parts_nonnegative(db: RuntimeDbWeight, op: Operation)
    ensures
        fixed_cost(db, op) >= 0,
        scaled_cost(db, op) >= 0,
{
    lemma_storage_monotone(db, 0, 3, 0, 3);
    lemma_storage_monotone(db, 0, 1, 0, 1);
    lemma_storage_monotone(db, 0, 2, 0, 2);
    match op {
        Operation::SetSubsNew { s } => lemma_storage_monotone(db, 0, s as int, 0, s as int),
        Operation::SetSubsOld { p } => lemma_storage_monotone(db, 0, 0, 0, p as int),
        Operation::ClearIdentity { s, .. } => lemma_storage_monotone(db, 0, 0, 0, s as int),
        Operation::KillIdentity { s, .. } => lemma_storage_monotone(db, 0, 0, 0, s as int),
        _ => {},
    }
}

/// Monotonicity: raising any size parameter of an operation, with the others
/// held or raised too, never lowers its weight.
pub proof fn lemma_cost_monotone(db: RuntimeDbWeight, a: Operation, b: Operation)
    requires
        dominated_by(a, b),
    ensures
        cost_of(db, a) <= cost_of(db, b),
{
    match (a, b) {
        (Operation::SetSubsNew { s: s1 }, Operation::SetSubsNew { s: s2 }) => {
            lemma_storage_monotone(db, s1 as int, s2 as int, s1 as int, s2 as int);
        },
        (Operation::SetSubsOld { p: p1 }, Operation::SetSubsOld { p: p2 }) => {
            lemma_storage_monotone(db, 0, 0, p1 as int, p2 as int);
        },
        (Operation::ClearIdentity { s: s1, .. }, Operation::ClearIdentity { s: s2, .. }) => {
            lemma_storage_monotone(db, 0, 0, s1 as int, s2 as int);
        },
        (Operation::KillIdentity { s: s1, .. }, Operation::KillIdentity { s: s2, .. }) => {
            lemma_storage_monotone(db, 0, 0, s1 as int, s2 as int);
        },
        _ => {},
    }
    assert(fixed_cost(db, a) == fixed_cost(db, b));
    assert(scaled_cost(db, a) <= scaled_cost(db, b));
    lemma_saturate_monotone(exact_cost(db, a), exact_cost(db, b));
}

/// Baseline: with every size parameter at zero, an operation weighs exactly its
/// base cost plus its fixed storage accesses.
pub proof fn lemma_zero_baseline(db: RuntimeDbWeight, op: Operation)
    ensures
        scaled_cost(db, zeroed(op)) == 0,
        cost_of(db, zeroed(op)) == saturate(fixed_cost(db, op)),
{
    assert(storage(db, 0, 0) == 0);
}

/// Saturation: once the parameter-scaled part of an operation's cost exceeds
/// the largest weight, the operation weighs exactly `Weight::MAX`.
pub proof fn lemma_saturation(db: RuntimeDbWeight, op: Operation)
    requires
        scaled_cost(db, op) > Weight::MAX,
    ensures
        cost_of(db, op) == Weight::MAX,
{
    lemma_parts_nonnegative(db, op);
}

/// Determinism: equal storage prices and an equal operation give the same
/// weight.
pub proof fn lemma_deterministic(
    db1: RuntimeDbWeight,
    db2: RuntimeDbWeight,
    a: Operation,
    b: Operation,
)
    requires
        db1 == db2,
        a == b,
    ensures
        cost_of(db1, a) == cost_of(db2, b),
{
}

} // verus!
