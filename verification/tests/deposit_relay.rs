use sol_custody::accounts::NativeAccount;
use sol_custody::deposit::deposit_sol;
use sol_custody::deposit::DepositSol;
use sol_custody::errors::ErrorCode;

fn custodian(balance: u64) -> NativeAccount {
    NativeAccount { address: vec![0xAA; 32], balance, is_signer: true }
}

fn recipient(balance: u64) -> NativeAccount {
    NativeAccount { address: vec![0xBB; 32], balance, is_signer: false }
}

#[test]
fn deposit_moves_amount_and_emits_event() {
    let mut ctx = DepositSol { recipient_address: recipient(5), caller: custodian(100) };
    let r = deposit_sol(&mut ctx, 30);
    let ev = r.expect("deposit should succeed");
    assert_eq!(ev.amount, 30);
    assert_eq!(ev.recipient_address, vec![0xBB; 32]);
    assert_eq!(ctx.caller.balance, 70);
    assert_eq!(ctx.recipient_address.balance, 35);
}

#[test]
fn deposit_of_whole_balance_succeeds() {
    let mut ctx = DepositSol { recipient_address: recipient(0), caller: custodian(41) };
    assert!(deposit_sol(&mut ctx, 41).is_ok());
    assert_eq!(ctx.caller.balance, 0);
    assert_eq!(ctx.recipient_address.balance, 41);
}

#[test]
fn deposit_over_balance_fails_and_changes_nothing() {
    let mut ctx = DepositSol { recipient_address: recipient(5), caller: custodian(100) };
    let r = deposit_sol(&mut ctx, 101);
    assert_eq!(r.err(), Some(ErrorCode::InsufficientFunds));
    assert_eq!(ctx.caller.balance, 100);
    assert_eq!(ctx.recipient_address.balance, 5);
}

#[test]
fn deposit_without_signature_fails() {
    let mut caller = custodian(100);
    caller.is_signer = false;
    let mut ctx = DepositSol { recipient_address: recipient(5), caller };
    let r = deposit_sol(&mut ctx, 10);
    assert_eq!(r.err(), Some(ErrorCode::Unauthorized));
    assert_eq!(ctx.caller.balance, 100);
    assert_eq!(ctx.recipient_address.balance, 5);
}

#[test]
fn deposit_overflowing_recipient_fails() {
    let mut ctx = DepositSol { recipient_address: recipient(u64::MAX - 1), caller: custodian(100) };
    let r = deposit_sol(&mut ctx, 2);
    assert_eq!(r.err(), Some(ErrorCode::Overflow));
    assert_eq!(ctx.caller.balance, 100);
    assert_eq!(ctx.recipient_address.balance, u64::MAX - 1);
}

#[test]
fn zero_amount_deposit_succeeds_and_moves_nothing() {
    let mut ctx = DepositSol { recipient_address: recipient(5), caller: custodian(0) };
    let r = deposit_sol(&mut ctx, 0);
    assert!(r.is_ok());
    assert_eq!(ctx.caller.balance, 0);
    assert_eq!(ctx.recipient_address.balance, 5);
}
