use vstd::prelude::*;

use crate::db_weight::RuntimeDbWeight;
use crate::operation::{cost_of, Operation};
use crate::weight::{saturating_mul, Weight};

verus! {

/// Weight functions of the identity registry, bound to the storage prices of
/// one runtime configuration.
#[derive(Clone, Copy, Debug, PartialEq, Eq, Structural)]
pub struct WeightInfo {
    pub db: RuntimeDbWeight,
}

impl WeightInfo {
    /// Weight functions that price storage by `db`.
    pub fn new(db: RuntimeDbWeight) -> (w: WeightInfo)
        ensures
            w.db == db,
    {
        WeightInfo { db }
    }

    /// The weight of `op`, by the function for its kind.
    pub fn weight_of(&self, op: Operation) -> (w: Weight)
        ensures
            w == cost_of(self.db, op),
    {
        match op {
            Operation::AddRegistrar { r } => self.add_registrar(r),
            Operation::SetIdentity { r, x } => self.set_identity(r, x),
            Operation::SetSubsNew { s } => self.set_subs_new(s),
            Operation::SetSubsOld { p } => self.set_subs_old(p),
            Operation::ClearIdentity { r, s, x } => self.clear_identity(r, s, x),
            Operation::RequestJudgement { r, x } => self.request_judgement(r, x),
            Operation::CancelRequest { r, x } => self.cancel_request(r, x),
            Operation::SetFee { r } => self.set_fee(r),
            Operation::SetAccountId { r } => self.set_account_id(r),
            Operation::SetFields { r } => self.set_fields(r),
            Operation::ProvideJudgement { r, x } => self.provide_judgement(r, x),
            Operation::KillIdentity { r, s, x } => self.kill_identity(r, s, x),
            Operation::AddSub { s } => self.add_sub(s),
            Operation::RenameSub { s } => self.rename_sub(s),
            Operation::RemoveSub { s } => self.remove_sub(s),
            Operation::QuitSub { s } => self.quit_sub(s),
        }
    }

    /// The weight of adding a registrar, with `r` registrars already present.
    pub fn add_registrar(&self, r: u32) -> (w: Weight)
        ensures
            w == cost_of(self.db, Operation::AddRegistrar { r }),
    {
        let w: Weight = 27_481_000;
        let w: Weight = w.saturating_add(saturating_mul(300_000, r as Weight));
        let w: Weight = w.saturating_add(self.db.reads(1));
        let w: Weight = w.saturating_add(self.db.writes(1));
        w
    }

    /// The weight of setting an identity with `x` additional fields, judged by up to `r`
    /// registrars.
    pub fn set_identity(&self, r: u32, x: u32) -> (w: Weight)
        ensures
            w == cost_of(self.db, Operation::SetIdentity { r, x }),
    {
        let w: Weight = 71_220_000;
        let w: Weight = w.saturating_add(saturating_mul(269_000, r as Weight));
        let w: Weight = w.saturating_add(saturating_mul(1_814_000, x as Weight));
        let w: Weight = w.saturating_add(self.db.reads(1));
        let w: Weight = w.saturating_add(self.db.writes(1));
        w
    }

    /// The weight of setting `s` new sub-accounts: one read and one write per sub-account.
    pub fn set_subs_new(&self, s: u32) -> (w: Weight)
        ensures
            w == cost_of(self.db, Operation::SetSubsNew { s }),
    {
        let w: Weight = 52_505_000;
        let w: Weight = w.saturating_add(saturating_mul(9_913_000, s as Weight));
        let w: Weight = w.saturating_add(self.db.reads(2));
        let w: Weight = w.saturating_add(self.db.reads(s as Weight));
        let w: Weight = w.saturating_add(self.db.writes(1));
        let w: Weight = w.saturating_add(self.db.writes(s as Weight));
        w
    }

    /// The weight of replacing `p` previous sub-accounts: one write per sub-account removed.
    pub fn set_subs_old(&self, p: u32) -> (w: Weight)
        ensures
            w == cost_of(self.db, Operation::SetSubsOld { p }),
    {
        let w: Weight = 47_853_000;
        let w: Weight = w.saturating_add(saturating_mul(3_432_000, p as Weight));
        let w: Weight = w.saturating_add(self.db.reads(2));
        let w: Weight = w.saturating_add(self.db.writes(1));
        let w: Weight = w.saturating_add(self.db.writes(p as Weight));
        w
    }

    /// The weight of clearing an identity with `r` judgements, `s` sub-accounts and `x`
    /// additional fields.
    pub fn clear_identity(&self, r: u32, s: u32, x: u32) -> (w: Weight)
        ensures
            w == cost_of(self.db, Operation::ClearIdentity { r, s, x }),
    {
        let w: Weight = 62_074_000;
        let w: Weight = w.saturating_add(saturating_mul(169_000, r as Weight));
        let w: Weight = w.saturating_add(saturating_mul(3_436_000, s as Weight));
        let w: Weight = w.saturating_add(saturating_mul(1_058_000, x as Weight));
        let w: Weight = w.saturating_add(self.db.reads(2));
        let w: Weight = w.saturating_add(self.db.writes(2));
        let w: Weight = w.saturating_add(self.db.writes(s as Weight));
        w
    }

    /// The weight of requesting a judgement for an identity with `r` judgements and `x`
    /// additional fields.
    pub fn request_judgement(&self, r: u32, x: u32) -> (w: Weight)
        ensures
            w == cost_of(self.db, Operation::RequestJudgement { r, x }),
    {
        let w: Weight = 72_697_000;
        let w: Weight = w.saturating_add(saturating_mul(316_000, r as Weight));
        let w: Weight = w.saturating_add(saturating_mul(2_064_000, x as Weight));
        let w: Weight = w.saturating_add(self.db.reads(2));
        let w: Weight = w.saturating_add(self.db.writes(1));
        w
    }

    /// The weight of cancelling a judgement request for an identity with `r` judgements and `x`
    /// additional fields.
    pub fn cancel_request(&self, r: u32, x: u32) -> (w: Weight)
        ensures
            w == cost_of(self.db, Operation::CancelRequest { r, x }),
    {
        let w: Weight = 62_349_000;
        let w: Weight = w.saturating_add(saturating_mul(203_000, r as Weight));
        let w: Weight = w.saturating_add(saturating_mul(2_048_000, x as Weight));
        let w: Weight = w.saturating_add(self.db.reads(1));
        let w: Weight = w.saturating_add(self.db.writes(1));
        w
    }

    /// The weight of setting a registrar's fee, with `r` registrars present.
    pub fn set_fee(&self, r: u32) -> (w: Weight)
        ensures
            w == cost_of(self.db, Operation::SetFee { r }),
    {
        let w: Weight = 10_602_000;
        let w: Weight = w.saturating_add(saturating_mul(265_000, r as Weight));
        let w: Weight = w.saturating_add(self.db.reads(1));
        let w: Weight = w.saturating_add(self.db.writes(1));
        w
    }

    /// The weight of changing a registrar's account, with `r` registrars present.
    pub fn set_account_id(&self, r: u32) -> (w: Weight)
        ensures
            w == cost_of(self.db, Operation::SetAccountId { r }),
    {
        let w: Weight = 12_087_000;
        let w: Weight = w.saturating_add(saturating_mul(264_000, r as Weight));
        let w: Weight = w.saturating_add(self.db.reads(1));
        let w: Weight = w.saturating_add(self.db.writes(1));
        w
    }

    /// The weight of setting the fields a registrar judges, with `r` registrars present.
    pub fn set_fields(&self, r: u32) -> (w: Weight)
        ensures
            w == cost_of(self.db, Operation::SetFields { r }),
    {
        let w: Weight = 10_578_000;
        let w: Weight = w.saturating_add(saturating_mul(268_000, r as Weight));
        let w: Weight = w.saturating_add(self.db.reads(1));
        let w: Weight = w.saturating_add(self.db.writes(1));
        w
    }

    /// The weight of providing a judgement for an identity with `r` judgements and `x` additional
    /// fields.
    pub fn provide_judgement(&self, r: u32, x: u32) -> (w: Weight)
        ensures
            w == cost_of(self.db, Operation::ProvideJudgement { r, x }),
    {
        let w: Weight = 48_552_000;
        let w: Weight = w.saturating_add(saturating_mul(279_000, r as Weight));
        let w: Weight = w.saturating_add(saturating_mul(2_067_000, x as Weight));
        let w: Weight = w.saturating_add(self.db.reads(2));
        let w: Weight = w.saturating_add(self.db.writes(1));
        w
    }

    /// The weight of removing an identity by force, with `r` judgements, `s` sub-accounts and `x`
    /// additional fields.
    pub fn kill_identity(&self, r: u32, s: u32, x: u32) -> (w: Weight)
        ensures
            w == cost_of(self.db, Operation::KillIdentity { r, s, x }),
    {
        let w: Weight = 60_031_000;
        let w: Weight = w.saturating_add(saturating_mul(140_000, r as Weight));
        let w: Weight = w.saturating_add(saturating_mul(3_423_000, s as Weight));
        let w: Weight = w.saturating_add(saturating_mul(3_000, x as Weight));
        let w: Weight = w.saturating_add(self.db.reads(3));
        let w: Weight = w.saturating_add(self.db.writes(3));
        let w: Weight = w.saturating_add(self.db.writes(s as Weight));
        w
    }

    /// The weight of adding a sub-account to an identity that has `s` of them.
    pub fn add_sub(&self, s: u32) -> (w: Weight)
        ensures
            w == cost_of(self.db, Operation::AddSub { s }),
    {
        let w: Weight = 71_751_000;
        let w: Weight = w.saturating_add(saturating_mul(185_000, s as Weight));
        let w: Weight = w.saturating_add(self.db.reads(3));
        let w: Weight = w.saturating_add(self.db.writes(2));
        w
    }

    /// The weight of renaming a sub-account of an identity that has `s` of them.
    pub fn rename_sub(&self, s: u32) -> (w: Weight)
        ensures
            w == cost_of(self.db, Operation::RenameSub { s }),
    {
        let w: Weight = 23_607_000;
        let w: Weight = w.saturating_add(saturating_mul(23_000, s as Weight));
        let w: Weight = w.saturating_add(self.db.reads(2));
        let w: Weight = w.saturating_add(self.db.writes(1));
        w
    }

    /// The weight of removing a sub-account from an identity that has `s` of them.
    pub fn remove_sub(&self, s: u32) -> (w: Weight)
        ensures
            w == cost_of(self.db, Operation::RemoveSub { s }),
    {
        let w: Weight = 68_696_000;
        let w: Weight = w.saturating_add(saturating_mul(160_000, s as Weight));
        let w: Weight = w.saturating_add(self.db.reads(3));
        let w: Weight = w.saturating_add(self.db.writes(2));
        w
    }

    /// The weight of a sub-account leaving an identity that has `s` of them.
    pub fn quit_sub(&self, s: u32) -> (w: Weight)
        ensures
            w == cost_of(self.db, Operation::QuitSub { s }),
    {
        let w: Weight = 45_448_000;
        let w: Weight = w.saturating_add(saturating_mul(155_000, s as Weight));
        let w: Weight = w.saturating_add(self.db.reads(2));
        let w: Weight = w.saturating_add(self.db.writes(2));
        w
    }
}

} // verus!
