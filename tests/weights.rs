use identity_weights::{saturating_mul, Operation, RuntimeDbWeight, Weight, WeightInfo};

fn unit() -> WeightInfo {
    WeightInfo::new(RuntimeDbWeight { read: 1, write: 1 })
}

fn rocks() -> WeightInfo {
    WeightInfo::new(RuntimeDbWeight { read: 25_000_000, write: 100_000_000 })
}

/// One instance of every operation, built from the given parameter values.
fn all_ops(r: u32, s: u32, x: u32, p: u32) -> Vec<Operation> {
    vec![
        Operation::AddRegistrar { r },
        Operation::SetIdentity { r, x },
        Operation::SetSubsNew { s },
        Operation::SetSubsOld { p },
        Operation::ClearIdentity { r, s, x },
        Operation::RequestJudgement { r, x },
        Operation::CancelRequest { r, x },
        Operation::SetFee { r },
        Operation::SetAccountId { r },
        Operation::SetFields { r },
        Operation::ProvideJudgement { r, x },
        Operation::KillIdentity { r, s, x },
        Operation::AddSub { s },
        Operation::RenameSub { s },
        Operation::RemoveSub { s },
        Operation::QuitSub { s },
    ]
}

#[test]
fn add_registrar_with_no_registrars() {
    assert_eq!(unit().add_registrar(0), 27_481_000 + 2);
}

#[test]
fn add_registrar_with_ten_registrars() {
    let w = unit();
    assert_eq!(w.add_registrar(10), 27_481_000 + 10 * 300_000 + 2);
    assert_eq!(w.add_registrar(10) - w.add_registrar(0), 10 * 300_000);
}

#[test]
fn set_subs_new_doubling_is_proportional() {
    let w = unit();
    let base = w.set_subs_new(0);
    let five = w.set_subs_new(5);
    let ten = w.set_subs_new(10);
    assert_eq!(base, 52_505_000 + 2 + 1);
    assert_eq!(five, 102_070_013);
    assert_eq!(ten, 151_635_023);
    // each sub-account adds its unit cost, one read and one write
    assert_eq!(five - base, 5 * (9_913_000 + 1 + 1));
    assert_eq!(ten - base, 2 * (five - base));
}

#[test]
fn scaled_storage_saturates_at_largest_parameter() {
    let w = WeightInfo::new(RuntimeDbWeight { read: Weight::MAX, write: Weight::MAX });
    assert_eq!(w.set_subs_new(u32::MAX), Weight::MAX);
    assert_eq!(w.set_subs_old(u32::MAX), Weight::MAX);
    assert_eq!(w.clear_identity(u32::MAX, u32::MAX, u32::MAX), Weight::MAX);
    assert_eq!(w.kill_identity(u32::MAX, u32::MAX, u32::MAX), Weight::MAX);
}

#[test]
fn kill_identity_saturates_on_write_term() {
    let w = WeightInfo::new(RuntimeDbWeight { read: 0, write: Weight::MAX / 2 });
    assert_eq!(w.kill_identity(0, 3, 0), Weight::MAX);
    assert_eq!(w.kill_identity(0, 0, 0), Weight::MAX);
    let w = WeightInfo::new(RuntimeDbWeight { read: 0, write: Weight::MAX / 8 });
    assert_eq!(w.kill_identity(0, 0, 0), 60_031_000 + 3 * (Weight::MAX / 8));
    assert_eq!(w.kill_identity(0, 5, 0), Weight::MAX);
}

#[test]
fn largest_parameters_without_storage_scaling_stay_exact() {
    let w = unit();
    assert_eq!(w.add_registrar(u32::MAX), 27_481_000 + 300_000 * (u32::MAX as u64) + 2);
    assert_eq!(
        w.set_identity(u32::MAX, u32::MAX),
        71_220_000 + (269_000 + 1_814_000) * (u32::MAX as u64) + 2
    );
}

#[test]
fn saturating_mul_clamps() {
    assert_eq!(saturating_mul(3, 4), 12);
    assert_eq!(saturating_mul(0, Weight::MAX), 0);
    assert_eq!(saturating_mul(Weight::MAX, 1), Weight::MAX);
    assert_eq!(saturating_mul(Weight::MAX, 2), Weight::MAX);
    assert_eq!(saturating_mul(1 << 32, 1 << 32), Weight::MAX);
    assert_eq!(saturating_mul(1 << 31, 1 << 32), 1 << 63);
}

#[test]
fn db_weight_prices_reads_and_writes() {
    let db = RuntimeDbWeight { read: 25_000_000, write: 100_000_000 };
    assert_eq!(db.reads(0), 0);
    assert_eq!(db.reads(3), 75_000_000);
    assert_eq!(db.writes(2), 200_000_000);
    assert_eq!(db.reads(Weight::MAX), Weight::MAX);
    assert_eq!(db.writes(Weight::MAX / 2), Weight::MAX);
}

#[test]
fn every_formula_on_realistic_prices() {
    let w = rocks();
    assert_eq!(w.add_registrar(20), 158_481_000);
    assert_eq!(w.set_identity(20, 7), 214_298_000);
    assert_eq!(w.set_subs_new(100), 13_693_805_000);
    assert_eq!(w.set_subs_old(50), 5_369_453_000);
    assert_eq!(w.clear_identity(20, 100, 7), 10_666_460_000);
    assert_eq!(w.request_judgement(20, 7), 243_465_000);
    assert_eq!(w.cancel_request(20, 7), 205_745_000);
    assert_eq!(w.set_fee(20), 140_902_000);
    assert_eq!(w.set_account_id(20), 142_367_000);
    assert_eq!(w.set_fields(20), 140_938_000);
    assert_eq!(w.provide_judgement(20, 7), 218_601_000);
    assert_eq!(w.kill_identity(20, 100, 7), 10_780_152_000);
    assert_eq!(w.add_sub(100), 365_251_000);
    assert_eq!(w.rename_sub(100), 175_907_000);
    assert_eq!(w.remove_sub(100), 359_696_000);
    assert_eq!(w.quit_sub(100), 310_948_000);
}

#[test]
fn zero_parameters_give_base_plus_fixed_storage() {
    let w = rocks();
    let expected: Vec<Weight> = vec![
        152_481_000, 196_220_000, 202_505_000, 197_853_000, 312_074_000, 222_697_000,
        187_349_000, 135_602_000, 137_087_000, 135_578_000, 198_552_000, 435_031_000,
        346_751_000, 173_607_000, 343_696_000, 295_448_000,
    ];
    let got: Vec<Weight> = all_ops(0, 0, 0, 0).into_iter().map(|op| w.weight_of(op)).collect();
    assert_eq!(got, expected);
}

#[test]
fn free_storage_leaves_only_base_costs() {
    let w = WeightInfo::new(RuntimeDbWeight { read: 0, write: 0 });
    assert_eq!(w.add_registrar(0), 27_481_000);
    assert_eq!(w.set_subs_new(0), 52_505_000);
    assert_eq!(w.kill_identity(0, 0, 0), 60_031_000);
    assert_eq!(w.quit_sub(0), 45_448_000);
}

#[test]
fn raising_any_parameter_never_lowers_weight() {
    let w = rocks();
    let steps: [u32; 5] = [0, 1, 17, 1_000, u32::MAX];
    for i in 0..steps.len() - 1 {
        let (lo, hi) = (steps[i], steps[i + 1]);
        let base = all_ops(lo, lo, lo, lo);
        let variants = [
            all_ops(hi, lo, lo, lo),
            all_ops(lo, hi, lo, lo),
            all_ops(lo, lo, hi, lo),
            all_ops(lo, lo, lo, hi),
        ];
        for ops in variants.iter() {
            for (a, b) in base.iter().zip(ops.iter()) {
                assert!(w.weight_of(*a) <= w.weight_of(*b), "{:?} vs {:?}", a, b);
            }
        }
    }
}

#[test]
fn dispatch_matches_each_function() {
    let w = rocks();
    let (r, s, x, p) = (3, 9, 4, 6);
    let direct: Vec<Weight> = vec![
        w.add_registrar(r),
        w.set_identity(r, x),
        w.set_subs_new(s),
        w.set_subs_old(p),
        w.clear_identity(r, s, x),
        w.request_judgement(r, x),
        w.cancel_request(r, x),
        w.set_fee(r),
        w.set_account_id(r),
        w.set_fields(r),
        w.provide_judgement(r, x),
        w.kill_identity(r, s, x),
        w.add_sub(s),
        w.rename_sub(s),
        w.remove_sub(s),
        w.quit_sub(s),
    ];
    let dispatched: Vec<Weight> =
        all_ops(r, s, x, p).into_iter().map(|op| w.weight_of(op)).collect();
    assert_eq!(direct, dispatched);
}

#[test]
fn repeated_evaluation_is_identical() {
    let w = rocks();
    let copy = w;
    let again = WeightInfo::new(RuntimeDbWeight { read: 25_000_000, write: 100_000_000 });
    for op in all_ops(11, 22, 33, 44) {
        let first = w.weight_of(op);
        for _ in 0..3 {
            assert_eq!(w.weight_of(op), first);
            assert_eq!(copy.weight_of(op), first);
            assert_eq!(again.weight_of(op), first);
        }
    }
}
