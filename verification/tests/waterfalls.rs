use tranche_vault::{
    apply_yield, distribute_yield, simulate_loss, simulate_yield_surplus, split_loss, split_yield,
    AuthOnly, Identity, LossApplied, OnlyVaultMut, SimulatedLoss, SimulatedYield, TrancheError,
    TrancheVault, YieldDistributed,
};

const UNIT: u128 = 1_000_000_000;

fn id(byte: u8) -> Identity {
    Identity::new([byte; 32])
}

fn vault(senior_nav: u128, junior_nav: u128, cap_bps: u16) -> TrancheVault {
    TrancheVault {
        authority: id(9),
        senior_total_deposits: 11,
        junior_total_deposits: 12,
        senior_shares_supply: 13,
        junior_shares_supply: 14,
        senior_nav,
        junior_nav,
        senior_apy_cap_bps: cap_bps,
        last_yield_ts: 5,
        bump: 254,
    }
}

#[test]
fn yield_above_the_cap_spills_to_junior() {
    let mut ctx = OnlyVaultMut { vault: vault(200 * UNIT, 7 * UNIT, 500) };
    let fact = distribute_yield(&mut ctx, 50 * UNIT, 1_700_000_000);
    assert_eq!(
        fact,
        Ok(YieldDistributed {
            senior_gain_fp: 10 * UNIT,
            junior_gain_fp: 40 * UNIT,
            senior_capped_gain_fp: 10 * UNIT,
            surplus_to_junior_fp: 40 * UNIT,
        })
    );
    let mut expected = vault(210 * UNIT, 47 * UNIT, 500);
    expected.last_yield_ts = 1_700_000_000;
    assert_eq!(ctx.vault, expected);
}

#[test]
fn yield_below_the_cap_goes_to_senior() {
    let mut ctx = OnlyVaultMut { vault: vault(200 * UNIT, 7 * UNIT, 500) };
    let fact = distribute_yield(&mut ctx, 4 * UNIT, -3).unwrap();
    assert_eq!(fact.senior_gain_fp, 4 * UNIT);
    assert_eq!(fact.junior_gain_fp, 0);
    assert_eq!(fact.senior_capped_gain_fp, 10 * UNIT);
    assert_eq!(fact.surplus_to_junior_fp, 0);
    assert_eq!(ctx.vault.senior_nav, 204 * UNIT);
    assert_eq!(ctx.vault.junior_nav, 7 * UNIT);
    assert_eq!(ctx.vault.last_yield_ts, -3);
}

#[test]
fn yield_equal_to_the_cap_goes_to_senior() {
    let fact = split_yield(200 * UNIT, 500, 10 * UNIT).unwrap();
    assert_eq!(fact.senior_gain_fp, 10 * UNIT);
    assert_eq!(fact.junior_gain_fp, 0);
}

#[test]
fn cap_rounds_down() {
    let fact = split_yield(19_999, 1, 5).unwrap();
    assert_eq!(fact.senior_capped_gain_fp, 1);
    assert_eq!(fact.senior_gain_fp, 1);
    assert_eq!(fact.junior_gain_fp, 4);
    let fact = split_yield(9_999, 1, 5).unwrap();
    assert_eq!(fact.senior_capped_gain_fp, 0);
    assert_eq!(fact.senior_gain_fp, 0);
    assert_eq!(fact.junior_gain_fp, 5);
}

#[test]
fn cap_of_zero_sends_everything_to_junior() {
    let fact = split_yield(200 * UNIT, 0, 3 * UNIT).unwrap();
    assert_eq!(fact.senior_gain_fp, 0);
    assert_eq!(fact.junior_gain_fp, 3 * UNIT);
    assert_eq!(fact.surplus_to_junior_fp, 3 * UNIT);
}

#[test]
fn cap_compounds_on_current_value() {
    let mut ctx = OnlyVaultMut { vault: vault(200 * UNIT, 0, 500) };
    let first = distribute_yield(&mut ctx, 50 * UNIT, 1).unwrap();
    let second = distribute_yield(&mut ctx, 50 * UNIT, 2).unwrap();
    assert_eq!(first.senior_capped_gain_fp, 10 * UNIT);
    assert_eq!(second.senior_capped_gain_fp, 10_500_000_000);
    assert_eq!(ctx.vault.senior_nav, 220_500_000_000);
    assert_eq!(ctx.vault.junior_nav, 79_500_000_000);
    assert_eq!(ctx.vault.last_yield_ts, 2);
}

#[test]
fn gains_add_up_to_the_yield() {
    let cases: [(u128, u16, u128); 4] =
        [(200 * UNIT, 500, 50 * UNIT), (1, 65_535, 1), (123_456_789, 3_333, 17), (0, 10_000, 9)];
    for (nav, cap, y) in cases {
        let fact = split_yield(nav, cap, y).unwrap();
        assert_eq!(fact.senior_gain_fp + fact.junior_gain_fp, y);
        assert_eq!(fact.senior_gain_fp, y.min(nav * (cap as u128) / 10_000));
        assert_eq!(fact.surplus_to_junior_fp, fact.junior_gain_fp);
    }
}

#[test]
fn zero_yield_is_invalid() {
    let start = OnlyVaultMut { vault: vault(200 * UNIT, 7 * UNIT, 500) };
    let mut ctx = start;
    assert_eq!(distribute_yield(&mut ctx, 0, 99), Err(TrancheError::InvalidAmount));
    assert_eq!(ctx, start);
    assert_eq!(split_yield(1, 1, 0), Err(TrancheError::InvalidAmount));
}

#[test]
fn cap_product_overflow_is_rejected() {
    let start = OnlyVaultMut { vault: vault(u128::MAX / 2, 0, 500) };
    let mut ctx = start;
    assert_eq!(distribute_yield(&mut ctx, 1, 99), Err(TrancheError::MathOverflow));
    assert_eq!(ctx, start);
}

#[test]
fn senior_value_overflow_is_rejected() {
    let mut v = vault(u128::MAX, 0, 1);
    let start = v;
    assert_eq!(apply_yield(&mut v, 1, 99), Err(TrancheError::MathOverflow));
    assert_eq!(v, start);
}

#[test]
fn junior_value_overflow_is_rejected_without_partial_update() {
    let start = OnlyVaultMut { vault: vault(200 * UNIT, u128::MAX - 5, 500) };
    let mut ctx = start;
    assert_eq!(distribute_yield(&mut ctx, 50 * UNIT, 99), Err(TrancheError::MathOverflow));
    assert_eq!(ctx, start);
    assert_eq!(ctx.vault.senior_nav, 200 * UNIT);
    assert_eq!(ctx.vault.last_yield_ts, 5);
}

#[test]
fn simulated_yield_is_distributed_like_real_yield() {
    let mut sim = AuthOnly { vault: vault(200 * UNIT, 7 * UNIT, 500), authority: id(9) };
    let mut real = OnlyVaultMut { vault: vault(200 * UNIT, 7 * UNIT, 500) };
    let (simulated, fact) = simulate_yield_surplus(&mut sim, 50 * UNIT, 77).unwrap();
    assert_eq!(simulated, SimulatedYield { amount_usd_fp: 50 * UNIT });
    assert_eq!(Ok(fact), distribute_yield(&mut real, 50 * UNIT, 77));
    assert_eq!(sim.vault, real.vault);
    assert_eq!(sim.authority, id(9));
}

#[test]
fn simulated_yield_needs_the_authority() {
    let start = AuthOnly { vault: vault(200 * UNIT, 7 * UNIT, 500), authority: id(8) };
    let mut ctx = start;
    assert_eq!(simulate_yield_surplus(&mut ctx, 50 * UNIT, 77), Err(TrancheError::Unauthorized));
    assert_eq!(ctx, start);
}

#[test]
fn simulated_yield_checks_the_amount_first() {
    let start = AuthOnly { vault: vault(200 * UNIT, 7 * UNIT, 500), authority: id(8) };
    let mut ctx = start;
    assert_eq!(simulate_yield_surplus(&mut ctx, 0, 77), Err(TrancheError::InvalidAmount));
    assert_eq!(ctx, start);
}

#[test]
fn simulated_yield_overflow_is_rejected() {
    let start = AuthOnly { vault: vault(200 * UNIT, u128::MAX, 500), authority: id(9) };
    let mut ctx = start;
    assert_eq!(simulate_yield_surplus(&mut ctx, 50 * UNIT, 77), Err(TrancheError::MathOverflow));
    assert_eq!(ctx, start);
}

#[test]
fn loss_hits_junior_then_senior() {
    let mut ctx = AuthOnly { vault: vault(80 * UNIT, 20 * UNIT, 500), authority: id(9) };
    let out = simulate_loss(&mut ctx, 30 * UNIT);
    assert_eq!(
        out,
        Ok((
            LossApplied {
                total_loss_fp: 30 * UNIT,
                absorbed_by_junior_fp: 20 * UNIT,
                absorbed_by_senior_fp: 10 * UNIT,
            },
            SimulatedLoss { amount_usd_fp: 30 * UNIT },
        ))
    );
    assert_eq!(ctx.vault, vault(70 * UNIT, 0, 500));
}

#[test]
fn loss_beyond_both_tranches_is_dropped() {
    let mut ctx = AuthOnly { vault: vault(5 * UNIT, 5 * UNIT, 500), authority: id(9) };
    let (fact, simulated) = simulate_loss(&mut ctx, 1_000 * UNIT).unwrap();
    assert_eq!(fact.total_loss_fp, 1_000 * UNIT);
    assert_eq!(fact.absorbed_by_junior_fp, 5 * UNIT);
    assert_eq!(fact.absorbed_by_senior_fp, 5 * UNIT);
    assert_eq!(simulated.amount_usd_fp, 1_000 * UNIT);
    assert_eq!(ctx.vault, vault(0, 0, 500));
}

#[test]
fn small_loss_stays_in_junior() {
    let mut ctx = AuthOnly { vault: vault(80 * UNIT, 20 * UNIT, 500), authority: id(9) };
    let (fact, _) = simulate_loss(&mut ctx, 3 * UNIT).unwrap();
    assert_eq!(fact.absorbed_by_junior_fp, 3 * UNIT);
    assert_eq!(fact.absorbed_by_senior_fp, 0);
    assert_eq!(ctx.vault, vault(80 * UNIT, 17 * UNIT, 500));
}

#[test]
fn loss_equal_to_junior_leaves_senior_whole() {
    let fact = split_loss(20 * UNIT, 80 * UNIT, 20 * UNIT);
    assert_eq!(fact.absorbed_by_junior_fp, 20 * UNIT);
    assert_eq!(fact.absorbed_by_senior_fp, 0);
}

#[test]
fn loss_of_the_largest_amount_empties_both() {
    let fact = split_loss(u128::MAX, u128::MAX, u128::MAX);
    assert_eq!(fact.absorbed_by_junior_fp, u128::MAX);
    assert_eq!(fact.absorbed_by_senior_fp, 0);
    let fact = split_loss(1, u128::MAX - 1, u128::MAX);
    assert_eq!(fact.absorbed_by_junior_fp, 1);
    assert_eq!(fact.absorbed_by_senior_fp, u128::MAX - 1);
}

#[test]
fn senior_loses_only_once_junior_is_empty() {
    let cases: [(u128, u128, u128); 5] =
        [(20, 80, 30), (20, 80, 19), (0, 80, 1), (5, 5, 1_000), (7, 0, 9)];
    for (junior, senior, loss) in cases {
        let fact = split_loss(junior, senior, loss);
        assert_eq!(fact.absorbed_by_junior_fp, loss.min(junior));
        assert_eq!(fact.absorbed_by_senior_fp, (loss - fact.absorbed_by_junior_fp).min(senior));
        if fact.absorbed_by_senior_fp > 0 {
            assert_eq!(junior - fact.absorbed_by_junior_fp, 0);
        }
        assert_eq!(
            fact.absorbed_by_junior_fp + fact.absorbed_by_senior_fp,
            loss.min(junior + senior)
        );
    }
}

#[test]
fn zero_loss_is_invalid() {
    let start = AuthOnly { vault: vault(80 * UNIT, 20 * UNIT, 500), authority: id(9) };
    let mut ctx = start;
    assert_eq!(simulate_loss(&mut ctx, 0), Err(TrancheError::InvalidAmount));
    assert_eq!(ctx, start);
}

#[test]
fn loss_needs_the_authority() {
    let start = AuthOnly { vault: vault(80 * UNIT, 20 * UNIT, 500), authority: id(1) };
    let mut ctx = start;
    assert_eq!(simulate_loss(&mut ctx, 30 * UNIT), Err(TrancheError::Unauthorized));
    assert_eq!(ctx, start);
}

#[test]
fn loss_checks_the_amount_before_the_authority() {
    let start = AuthOnly { vault: vault(80 * UNIT, 20 * UNIT, 500), authority: id(1) };
    let mut ctx = start;
    assert_eq!(simulate_loss(&mut ctx, 0), Err(TrancheError::InvalidAmount));
    assert_eq!(ctx, start);
}

#[test]
fn loss_leaves_shares_and_timestamp_alone() {
    let mut ctx = AuthOnly { vault: vault(80 * UNIT, 20 * UNIT, 500), authority: id(9) };
    simulate_loss(&mut ctx, 100 * UNIT).unwrap();
    assert_eq!(ctx.vault.senior_nav, 0);
    assert_eq!(ctx.vault.junior_nav, 0);
    assert_eq!(ctx.vault.senior_shares_supply, 13);
    assert_eq!(ctx.vault.junior_shares_supply, 14);
    assert_eq!(ctx.vault.senior_total_deposits, 11);
    assert_eq!(ctx.vault.junior_total_deposits, 12);
    assert_eq!(ctx.vault.last_yield_ts, 5);
}
