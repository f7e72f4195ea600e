use smplx::constants::{MIN_FEE, WITNESS_SCALE_FACTOR};
use smplx::error::FundingError;
use smplx::fee::{select_fee_target, virtual_size, FEE_FALLBACK_TARGETS};
use smplx::funding::{
    check_strict_fee_delta, plan_with_change, plan_without_change, spendable_utxos, CoinSelection,
    SelectionStep,
};
use smplx::transaction::final_transaction::FinalTransaction;
use smplx::transaction::partial_input::{OutPoint, PartialInput, RequiredSignature, TxOutSecrets, UTXO};

fn coin(txid_byte: u8, amount: u64, confidential: bool) -> UTXO {
    UTXO {
        outpoint: OutPoint::new([txid_byte; 32], 0),
        txout: Vec::new(),
        explicit_asset: if confidential { None } else { Some([0xAA; 32]) },
        explicit_value: if confidential { None } else { Some(amount) },
        secrets: if confidential {
            Some(TxOutSecrets::new([0xAA; 32], [0; 32], amount, [0; 32]).unwrap())
        } else {
            None
        },
    }
}

#[test]
fn virtual_size_rounds_weight_up_to_whole_vbytes() {
    assert_eq!(WITNESS_SCALE_FACTOR, 4);
    assert_eq!(virtual_size(0), 0);
    assert_eq!(virtual_size(1), 1);
    assert_eq!(virtual_size(4), 1);
    assert_eq!(virtual_size(5), 2);
    assert_eq!(virtual_size(1001), 251);
    assert_eq!(virtual_size(usize::MAX), usize::MAX / 4 + 1);
}

#[test]
fn fee_target_prefers_the_requested_target() {
    assert_eq!(select_fee_target(3, &[1, 3, 6]), Some(3));
    assert_eq!(select_fee_target(7777, &[7777]), Some(7777));
}

#[test]
fn fee_target_falls_back_to_the_next_longer_target() {
    assert_eq!(select_fee_target(4, &[1, 6, 144]), Some(6));
    assert_eq!(select_fee_target(30, &[2, 504, 144]), Some(144));
}

#[test]
fn fee_target_falls_back_to_any_target_and_then_to_none() {
    assert_eq!(select_fee_target(2000, &[6, 2]), Some(2));
    assert_eq!(select_fee_target(2, &[26, 1009]), None);
    assert_eq!(select_fee_target(2, &[]), None);
    assert_eq!(FEE_FALLBACK_TARGETS.len(), 28);
}

#[test]
fn change_is_made_only_when_it_is_worth_it() {
    assert_eq!(MIN_FEE, 10);
    assert_eq!(plan_with_change(1_000, 300), Some(700));
    assert_eq!(plan_with_change(310, 300), Some(10));
    assert_eq!(plan_with_change(309, 300), None);
    assert_eq!(plan_with_change(300, 300), None);
    assert_eq!(plan_with_change(100, 300), None);
}

#[test]
fn without_change_the_fee_output_takes_the_surplus() {
    assert_eq!(plan_without_change(309, 280), Ok(309));
    assert_eq!(plan_without_change(280, 280), Ok(280));
    assert_eq!(plan_without_change(279, 280), Err(280));
}

#[test]
fn strict_finalization_rejects_dust() {
    assert_eq!(check_strict_fee_delta(9), Err(FundingError::DustAmount(9)));
    assert_eq!(check_strict_fee_delta(-5), Err(FundingError::DustAmount(-5)));
    assert_eq!(check_strict_fee_delta(10), Ok(10));
    assert_eq!(check_strict_fee_delta(12_345), Ok(12_345));
}

#[test]
fn coin_selection_adds_coins_until_the_fee_is_covered() {
    let mut selection = CoinSelection::new(2);
    assert_eq!(selection.curr_fee(), MIN_FEE);
    // Nothing to spend yet: add the first coin.
    assert_eq!(selection.on_fee_delta(-500), SelectionStep::AddNextInput);
    assert_eq!(selection.remaining(), 1);
    // The surplus covers the minimum fee: estimate.
    assert_eq!(selection.on_fee_delta(200), SelectionStep::Estimate(200));
    // The estimate needs 250: add the second coin.
    assert_eq!(selection.on_estimate_failure(250), SelectionStep::AddNextInput);
    assert_eq!(selection.curr_fee(), 250);
    assert_eq!(selection.remaining(), 0);
    // Still short of 250 and nothing left.
    assert_eq!(
        selection.on_fee_delta(240),
        SelectionStep::Fail(FundingError::NotEnoughFunds(250))
    );
}

#[test]
fn coin_selection_fails_with_the_last_required_fee() {
    let mut selection = CoinSelection::new(0);
    assert_eq!(selection.on_fee_delta(50), SelectionStep::Estimate(50));
    assert_eq!(
        selection.on_estimate_failure(70),
        SelectionStep::Fail(FundingError::NotEnoughFunds(70))
    );
    let mut empty = CoinSelection::new(0);
    assert_eq!(empty.on_fee_delta(0), SelectionStep::Fail(FundingError::NotEnoughFunds(MIN_FEE)));
}

#[test]
fn spendable_coins_skip_spent_ones_and_come_largest_first() {
    let mut ft: FinalTransaction<()> = FinalTransaction::new();
    ft.add_input(PartialInput::new(coin(2, 500, false)), RequiredSignature::NativeEcdsa);

    let coins = vec![
        coin(1, 100, false),
        coin(2, 500, false),
        coin(3, 300, true),
        coin(4, 100, true),
        coin(5, 900, false),
        coin(6, 300, false),
    ];
    let ordered = spendable_utxos(&ft, coins);
    let ids: Vec<u8> = ordered.iter().map(|u| u.outpoint.txid[0]).collect();
    assert_eq!(ids, vec![5, 3, 6, 1, 4]);
    assert_eq!(ordered[0].amount(), 900);
}

#[test]
fn funding_below_the_minimum_fee_adds_every_coin_then_fails() {
    // A surplus of 2 and coins of 3 and 4: together still below the minimum fee.
    let mut selection = CoinSelection::new(2);
    assert_eq!(selection.on_fee_delta(2), SelectionStep::AddNextInput);
    assert_eq!(selection.on_fee_delta(2 + 3), SelectionStep::AddNextInput);
    assert_eq!(
        selection.on_fee_delta(2 + 3 + 4),
        SelectionStep::Fail(FundingError::NotEnoughFunds(MIN_FEE))
    );
    assert_eq!(selection.remaining(), 0);
}

#[test]
fn funding_adds_the_largest_coins_first_and_stops_when_covered() {
    let tx: FinalTransaction<()> = FinalTransaction::new();
    let order = spendable_utxos(&tx, vec![coin(1, 4, false), coin(2, 9, true), coin(3, 6, false)]);
    let amounts: Vec<u64> = order.iter().map(|u| u.amount()).collect();
    assert_eq!(amounts, vec![9, 6, 4]);

    let mut selection = CoinSelection::new(order.len());
    let mut delta: i64 = 0;
    let mut added = 0;
    loop {
        match selection.on_fee_delta(delta) {
            SelectionStep::Estimate(d) => {
                assert_eq!(d, 15);
                break;
            }
            SelectionStep::AddNextInput => {
                delta += amounts[added] as i64;
                added += 1;
            }
            SelectionStep::Fail(e) => panic!("unexpected failure {e:?}"),
        }
    }
    assert_eq!(added, 2);
    assert_eq!(selection.remaining(), 1);
}
