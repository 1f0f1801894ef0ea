use vstd::prelude::*;

use crate::db_weight::RuntimeDbWeight;
use crate::weight::{saturate, Weight};

verus! {

/// An operation of the identity registry, with its size parameters.
///
/// `r` counts registrars, `x` the additional fields of an identity, `s` the
/// sub-accounts being set or removed, and `p` the sub-accounts being replaced.
#[derive(Clone, Copy, Debug, PartialEq, Eq, Structural)]
pub enum Operation {
    AddRegistrar { r: u32 },
    SetIdentity { r: u32, x: u32 },
    SetSubsNew { s: u32 },
    SetSubsOld { p: u32 },
    ClearIdentity { r: u32, s: u32, x: u32 },
    RequestJudgement { r: u32, x: u32 },
    CancelRequest { r: u32, x: u32 },
    SetFee { r: u32 },
    SetAccountId { r: u32 },
    SetFields { r: u32 },
    ProvideJudgement { r: u32, x: u32 },
    KillIdentity { r: u32, s: u32, x: u32 },
    AddSub { s: u32 },
    RenameSub { s: u32 },
    RemoveSub { s: u32 },
    QuitSub { s: u32 },
}

/// The price of `reads` storage reads and `writes` storage writes.
pub open spec fn storage(db: RuntimeDbWeight, reads: int, writes: int) -> int {
    db.read * reads + db.write * writes
}

/// The part of an operation's cost that does not depend on its parameters:
/// the base cost plus its fixed storage accesses.
pub open spec fn fixed_cost(db: RuntimeDbWeight, op: Operation) -> int {
    match op {
        Operation::AddRegistrar { .. } => 27_481_000 + storage(db, 1, 1),
        Operation::SetIdentity { .. } => 71_220_000 + storage(db, 1, 1),
        Operation::SetSubsNew { .. } => 52_505_000 + storage(db, 2, 1),
        Operation::SetSubsOld { .. } => 47_853_000 + storage(db, 2, 1),
        Operation::ClearIdentity { .. } => 62_074_000 + storage(db, 2, 2),
        Operation::RequestJudgement { .. } => 72_697_000 + storage(db, 2, 1),
        Operation::CancelRequest { .. } => 62_349_000 + storage(db, 1, 1),
        Operation::SetFee { .. } => 10_602_000 + storage(db, 1, 1),
        Operation::SetAccountId { .. } => 12_087_000 + storage(db, 1, 1),
        Operation::SetFields { .. } => 10_578_000 + storage(db, 1, 1),
        Operation::ProvideJudgement { .. } => 48_552_000 + storage(db, 2, 1),
        Operation::KillIdentity { .. } => 60_031_000 + storage(db, 3, 3),
        Operation::AddSub { .. } => 71_751_000 + storage(db, 3, 2),
        Operation::RenameSub { .. } => 23_607_000 + storage(db, 2, 1),
        Operation::RemoveSub { .. } => 68_696_000 + storage(db, 3, 2),
        Operation::QuitSub { .. } => 45_448_000 + storage(db, 2, 2),
    }
}

/// The part of an operation's cost that grows with its parameters: a per-unit
/// cost for each parameter, plus the storage accesses made once per unit.
pub open spec fn scaled_cost(db: RuntimeDbWeight, op: Operation) -> int {
    match op {
        Operation::AddRegistrar { r } => 300_000 * r,
        Operation::SetIdentity { r, x } => 269_000 * r + 1_814_000 * x,
        Operation::SetSubsNew { s } => 9_913_000 * s + storage(db, s as int, s as int),
        Operation::SetSubsOld { p } => 3_432_000 * p + storage(db, 0, p as int),
        Operation::ClearIdentity { r, s, x } => 169_000 * r + 3_436_000 * s + 1_058_000 * x
            + storage(db, 0, s as int),
        Operation::RequestJudgement { r, x } => 316_000 * r + 2_064_000 * x,
        Operation::CancelRequest { r, x } => 203_000 * r + 2_048_000 * x,
        Operation::SetFee { r } => 265_000 * r,
        Operation::SetAccountId { r } => 264_000 * r,
        Operation::SetFields { r } => 268_000 * r,
        Operation::ProvideJudgement { r, x } => 279_000 * r + 2_067_000 * x,
        Operation::KillIdentity { r, s, x } => 140_000 * r + 3_423_000 * s + 3_000 * x
            + storage(db, 0, s as int),
        Operation::AddSub { s } => 185_000 * s,
        Operation::RenameSub { s } => 23_000 * s,
        Operation::RemoveSub { s } => 160_000 * s,
        Operation::QuitSub { s } => 155_000 * s,
    }
}

/// The cost of `op` in unbounded integers.
pub open spec fn exact_cost(db: RuntimeDbWeight, op: Operation) -> int {
    fixed_cost(db, op) + scaled_cost(db, op)
}

/// The weight charged for `op`: its exact cost, clamped at `Weight::MAX`.
pub open spec fn cost_of(db: RuntimeDbWeight, op: Operation) -> Weight {
    saturate(exact_cost(db, op))
}

/// The same operation with every size parameter set to zero.
pub open spec fn zeroed(op: Operation) -> Operation {
    match op {
        Operation::AddRegistrar { .. } => Operation::AddRegistrar { r: 0 },
        Operation::SetIdentity { .. } => Operation::SetIdentity { r: 0, x: 0 },
        Operation::SetSubsNew { .. } => Operation::SetSubsNew { s: 0 },
        Operation::SetSubsOld { .. } => Operation::SetSubsOld { p: 0 },
        Operation::ClearIdentity { .. } => Operation::ClearIdentity { r: 0, s: 0, x: 0 },
        Operation::RequestJudgement { .. } => Operation::RequestJudgement { r: 0, x: 0 },
        Operation::CancelRequest { .. } => Operation::CancelRequest { r: 0, x: 0 },
        Operation::SetFee { .. } => Operation::SetFee { r: 0 },
        Operation::SetAccountId { .. } => Operation::SetAccountId { r: 0 },
        Operation::SetFields { .. } => Operation::SetFields { r: 0 },
        Operation::ProvideJudgement { .. } => Operation::ProvideJudgement { r: 0, x: 0 },
        Operation::KillIdentity { .. } => Operation::KillIdentity { r: 0, s: 0, x: 0 },
        Operation::AddSub { .. } => Operation::AddSub { s: 0 },
        Operation::RenameSub { .. } => Operation::RenameSub { s: 0 },
        Operation::RemoveSub { .. } => Operation::RemoveSub { s: 0 },
        Operation::QuitSub { .. } => Operation::QuitSub { s: 0 },
    }
}

/// `a` and `b` are the same operation and no parameter of `a` exceeds the
/// matching parameter of `b`.
pub open spec fn dominated_by(a: Operation, b: Operation) -> bool {
    match (a, b) {
        (Operation::AddRegistrar { r: r1 }, Operation::AddRegistrar { r: r2 }) => r1 <= r2,
        (Operation::SetIdentity { r: r1, x: x1 }, Operation::SetIdentity { r: r2, x: x2 }) => r1
            <= r2 && x1 <= x2,
        (Operation::SetSubsNew { s: s1 }, Operation::SetSubsNew { s: s2 }) => s1 <= s2,
        (Operation::SetSubsOld { p: p1 }, Operation::SetSubsOld { p: p2 }) => p1 <= p2,
        (
            Operation::ClearIdentity { r: r1, s: s1, x: x1 },
            Operation::ClearIdentity { r: r2, s: s2, x: x2 },
        ) => r1 <= r2 && s1 <= s2 && x1 <= x2,
        (
            Operation::RequestJudgement { r: r1, x: x1 },
            Operation::RequestJudgement { r: r2, x: x2 },
        ) => r1 <= r2 && x1 <= x2,
        (Operation::CancelRequest { r: r1, x: x1 }, Operation::CancelRequest { r: r2, x: x2 }) => r1
            <= r2 && x1 <= x2,
        (Operation::SetFee { r: r1 }, Operation::SetFee { r: r2 }) => r1 <= r2,
        (Operation::SetAccountId { r: r1 }, Operation::SetAccountId { r: r2 }) => r1 <= r2,
        (Operation::SetFields { r: r1 }, Operation::SetFields { r: r2 }) => r1 <= r2,
        (
            Operation::ProvideJudgement { r: r1, x: x1 },
            Operation::ProvideJudgement { r: r2, x: x2 },
        ) => r1 <= r2 && x1 <= x2,
        (
            Operation::KillIdentity { r: r1, s: s1, x: x1 },
            Operation::KillIdentity { r: r2, s: s2, x: x2 },
        ) => r1 <= r2 && s1 <= s2 && x1 <= x2,
        (Operation::AddSub { s: s1 }, Operation::AddSub { s: s2 }) => s1 <= s2,
        (Operation::RenameSub { s: s1 }, Operation::RenameSub { s: s2 }) => s1 <= s2,
        (Operation::RemoveSub { s: s1 }, Operation::RemoveSub { s: s2 }) => s1 <= s2,
        (Operation::QuitSub { s: s1 }, Operation::QuitSub { s: s2 }) => s1 <= s2,
        _ => false,
    }
}

} // verus!
