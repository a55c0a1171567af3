use vstd::prelude::*;

use crate::accounts::NativeAccount;
use crate::errors::ErrorCode;

verus! {

/// The accounts one deposit touches: the recipient wallet the funds go to
/// and the custodian wallet that pays and must have signed.
pub struct DepositSol {
    pub recipient_address: NativeAccount,
    pub caller: NativeAccount,
}

/// Notification emitted once per successful deposit, after the transfer has
/// been applied; consumed by an off-chain observer. It is returned, never
/// stored.
pub struct DepositEvent {
    pub recipient_address: Vec<u8>,
    pub amount: u64,
}

impl DepositSol {
    /// Two distinct in-memory accounts must stand for two distinct ledger
    /// accounts.
    pub open spec fn wf(self) -> bool {
        self.caller.address@ != self.recipient_address.address@
    }

    /// Neither account changed.
    pub open spec fn unchanged(self, other: DepositSol) -> bool {
        &&& self.caller.unchanged(other.caller)
        &&& self.recipient_address.unchanged(other.recipient_address)
    }
}

/// A deposit goes through exactly when the custodian signed, holds the
/// amount, and the recipient's balance can take it.
pub open spec fn deposit_accepts(ctx: DepositSol, amount: u64) -> bool {
    &&& ctx.caller.is_signer
    &&& ctx.caller.balance >= amount
    &&& ctx.recipient_address.balance + amount <= u64::MAX
}

/// The error a rejected deposit reports.
pub open spec fn deposit_rejection(ctx: DepositSol, amount: u64) -> ErrorCode {
    if !ctx.caller.is_signer {
        ErrorCode::Unauthorized
    } else if ctx.caller.balance < amount {
        ErrorCode::InsufficientFunds
    } else {
        ErrorCode::Overflow
    }
}

/// Moves `amount` of native currency from the custodian to the recipient
/// and reports the transfer. On any failure both balances are left exactly
/// as they were; on success the amounts moved and the emitted record are
/// pinned down by the contract.
pub fn deposit_sol(ctx: &mut DepositSol, amount: u64) -> (r: Result<DepositEvent, ErrorCode>)
    requires
        old(ctx).wf(),
    ensures
        (*final(ctx)).wf(),
        r is Ok <==> deposit_accepts(*old(ctx), amount),
        r matches Err(e) ==> e == deposit_rejection(*old(ctx), amount)
            && (*final(ctx)).unchanged(*old(ctx)),
        r matches Ok(ev) ==> {
            &&& ev.recipient_address@ == old(ctx).recipient_address.address@
            &&& ev.amount == amount
            &&& (*final(ctx)).caller.same_identity(old(ctx).caller)
            &&& (*final(ctx)).recipient_address.same_identity(old(ctx).recipient_address)
            &&& (*final(ctx)).caller.balance == old(ctx).caller.balance - amount
            &&& (*final(ctx)).recipient_address.balance == old(ctx).recipient_address.balance
                + amount
        },
{
    if !ctx.caller.is_signer {
        return Err(ErrorCode::Unauthorized);
    }
    if ctx.caller.balance < amount {
        return Err(ErrorCode::InsufficientFunds);
    }
    match ctx.recipient_address.balance.checked_add(amount) {
        None => Err(ErrorCode::Overflow),
        Some(credited) => {
            ctx.caller.balance = ctx.caller.balance - amount;
            ctx.recipient_address.balance = credited;
            let event = DepositEvent {
                recipient_address: crate::accounts::copy_bytes(&ctx.recipient_address.address),
                amount,
            };
            Ok(event)
        },
    }
}

} // verus!
