use vstd::prelude::*;

use crate::accounts::NativeAccount;
use crate::accounts::bytes_eq;
use crate::errors::ErrorCode;
use crate::records::PresaleLedger;
use anchor_lang::solana_program::pubkey::Pubkey;

verus! {

/// Each allocation unit costs this many smallest currency units.
pub const EXCHANGE_RATE: u64 = 10_000_000;

/// The accounts one purchase touches: the paying signer, the read-only user
/// identity the record is derived from, the treasury vault, and the address
/// the caller claims for the user's allocation record.
pub struct CreateUserAccount {
    pub signer: NativeAccount,
    pub user: Vec<u8>,
    pub vault_wallet: NativeAccount,
    pub user_account: Vec<u8>,
}

/// The address the host's derivation scheme assigns to the allocation
/// record of `user` under the program `program_id`, `None` in the rare case
/// that the scheme has no valid address for those seeds. A pure function of
/// its two arguments: the same user always maps to the same record.
pub uninterp spec fn derived_user_address(program_id: Seq<u8>, user: Seq<u8>) -> Option<Seq<u8>>;

/// Relies on `Pubkey::try_find_program_address` (solana-address, re-exported
/// through anchor-lang): the derived address, and whether one exists, are a
/// pure function of the seed bytes and the 32-byte program id, and the
/// derived address is itself 32 bytes.
#[verifier::external_body]
fn find_user_address(program_id: &Vec<u8>, user: &Vec<u8>) -> (r: Option<Vec<u8>>)
    requires
        program_id@.len() == 32,
    ensures
        r is Some <==> derived_user_address(program_id@, user@) is Some,
        r matches Some(a) ==> derived_user_address(program_id@, user@) matches Some(d) && a@ == d
            && a@.len() == 32,
{
    let mut id_bytes = [0u8; 32];
    id_bytes.copy_from_slice(program_id.as_slice());
    let program = Pubkey::new_from_array(id_bytes);
    Pubkey::try_find_program_address(&[user.as_slice()], &program).map(
        |found: (Pubkey, u8)| found.0.to_bytes().to_vec(),
    )
}

/// The derived allocation-record address for `user`, as the host runtime
/// computes it.
pub fn derive_user_account_address(program_id: &Vec<u8>, user: &Vec<u8>) -> (r: Option<Vec<u8>>)
    requires
        program_id@.len() == 32,
    ensures
        r is Some <==> derived_user_address(program_id@, user@) is Some,
        r matches Some(a) ==> derived_user_address(program_id@, user@) matches Some(d) && a@ == d
            && a@.len() == 32,
{
    find_user_address(program_id, user)
}

/// The currency price of `amount` allocation units.
pub open spec fn buy_cost(amount: u64) -> int {
    amount * EXCHANGE_RATE
}

/// The price of `amount` units, `None` when it does not fit the currency
/// width.
pub fn checked_cost(amount: u64) -> (r: Option<u64>)
    ensures
        r matches Some(c) ==> c == buy_cost(amount),
        r is None <==> buy_cost(amount) > u64::MAX,
{
    amount.checked_mul(EXCHANGE_RATE)
}

/// The counter after crediting `amount`, `None` when it would wrap.
pub fn checked_increment(tokens: u64, amount: u64) -> (r: Option<u64>)
    ensures
        r matches Some(t) ==> t == tokens + amount,
        r is None <==> tokens + amount > u64::MAX,
{
    tokens.checked_add(amount)
}

impl CreateUserAccount {
    /// Two distinct in-memory accounts must stand for two distinct ledger
    /// accounts.
    pub open spec fn wf(self) -> bool {
        self.signer.address@ != self.vault_wallet.address@
    }

    /// Identities, authorization, and the two caller-supplied addresses are
    /// left as they were; only balances may move.
    pub open spec fn same_shape(self, other: CreateUserAccount) -> bool {
        &&& self.signer.same_identity(other.signer)
        &&& self.vault_wallet.same_identity(other.vault_wallet)
        &&& self.user@ == other.user@
        &&& self.user_account@ == other.user_account@
    }

    /// Nothing about the accounts changed.
    pub open spec fn unchanged(self, other: CreateUserAccount) -> bool {
        &&& self.same_shape(other)
        &&& self.signer.balance == other.signer.balance
        &&& self.vault_wallet.balance == other.vault_wallet.balance
    }
}

/// A purchase goes through exactly when the payer signed, the claimed
/// record address is the derived one, neither the counter nor the price
/// computation overflows, the payer can afford the price, and the vault can
/// take it.
pub open spec fn buy_accepts(
    l: PresaleLedger,
    ctx: CreateUserAccount,
    derived: Seq<u8>,
    amount: u64,
) -> bool {
    &&& ctx.signer.is_signer
    &&& ctx.user_account@ == derived
    &&& l.tokens_of(derived) + amount <= u64::MAX
    &&& buy_cost(amount) <= u64::MAX
    &&& ctx.signer.balance >= buy_cost(amount)
    &&& ctx.vault_wallet.balance + buy_cost(amount) <= u64::MAX
}

/// The error a rejected purchase reports, checked in this order.
pub open spec fn buy_rejection(
    l: PresaleLedger,
    ctx: CreateUserAccount,
    derived: Seq<u8>,
    amount: u64,
) -> ErrorCode {
    if !ctx.signer.is_signer {
        ErrorCode::Unauthorized
    } else if ctx.user_account@ != derived {
        ErrorCode::DerivationMismatch
    } else if l.tokens_of(derived) + amount > u64::MAX {
        ErrorCode::Overflow
    } else if buy_cost(amount) > u64::MAX {
        ErrorCode::Overflow
    } else if ctx.signer.balance < buy_cost(amount) {
        ErrorCode::InsufficientFunds
    } else {
        ErrorCode::Overflow
    }
}

/// What one successful purchase does: the user's counter grows by exactly
/// `amount`, the record now exists, no other record moves, and exactly the
/// price travels from the signer to the vault.
pub open spec fn buy_applied(
    l0: PresaleLedger,
    l1: PresaleLedger,
    c0: CreateUserAccount,
    c1: CreateUserAccount,
    derived: Seq<u8>,
    amount: u64,
) -> bool {
    &&& c1.same_shape(c0)
    &&& c1.signer.balance == c0.signer.balance - buy_cost(amount)
    &&& c1.vault_wallet.balance == c0.vault_wallet.balance + buy_cost(amount)
    &&& l1.has_record(derived)
    &&& l1.tokens_of(derived) == l0.tokens_of(derived) + amount
    &&& forall|b: Seq<u8>| b != derived ==> l1.tokens_of(b) == l0.tokens_of(b)
    &&& forall|b: Seq<u8>| b != derived ==> (l1.has_record(b) <==> l0.has_record(b))
}

/// Validates and applies one purchase against an already-derived record
/// address. All checks run before any state moves, so a rejected purchase
/// leaves the ledger and every balance exactly as they were.
pub fn apply_buy(
    ledger: &mut PresaleLedger,
    ctx: &mut CreateUserAccount,
    derived: &Vec<u8>,
    amount: u64,
) -> (r: Result<(), ErrorCode>)
    requires
        old(ledger).wf(),
        old(ctx).wf(),
    ensures
        (*final(ledger)).wf(),
        (*final(ctx)).wf(),
        r is Ok <==> buy_accepts(*old(ledger), *old(ctx), derived@, amount),
        r is Ok ==> buy_applied(*old(ledger), *final(ledger), *old(ctx), *final(ctx), derived@,
            amount),
        r matches Err(e) ==> e == buy_rejection(*old(ledger), *old(ctx), derived@, amount) && (
        *final(ctx)).unchanged(*old(ctx)) && (*final(ledger)).records@ == old(ledger).records@,
{
    if !ctx.signer.is_signer {
        return Err(ErrorCode::Unauthorized);
    }
    if !bytes_eq(&ctx.user_account, derived) {
        return Err(ErrorCode::DerivationMismatch);
    }
    let tokens = ledger.lookup_tokens(derived);
    if checked_increment(tokens, amount).is_none() {
        return Err(ErrorCode::Overflow);
    }
    let cost = match checked_cost(amount) {
        None => {
            return Err(ErrorCode::Overflow);
        },
        Some(c) => c,
    };
    if ctx.signer.balance < cost {
        return Err(ErrorCode::InsufficientFunds);
    }
    if ctx.vault_wallet.balance > u64::MAX - cost {
        return Err(ErrorCode::Overflow);
    }
    ledger.credit(derived, amount);
    ctx.signer.balance = ctx.signer.balance - cost;
    ctx.vault_wallet.balance = ctx.vault_wallet.balance + cost;
    Ok(())
}

/// The presale entry point: derive the record address from the user
/// identity, then validate and apply the purchase. The contract pins the
/// outcome for every input, relative to the host's derivation function.
pub fn buy_presale_tokens(
    ledger: &mut PresaleLedger,
    ctx: &mut CreateUserAccount,
    program_id: &Vec<u8>,
    amount: u64,
) -> (r: Result<(), ErrorCode>)
    requires
        old(ledger).wf(),
        old(ctx).wf(),
        program_id@.len() == 32,
    ensures
        (*final(ledger)).wf(),
        (*final(ctx)).wf(),
        derived_user_address(program_id@, old(ctx).user@) is None ==> r == Err::<
            (),
            ErrorCode,
        >(ErrorCode::DerivationMismatch) && (*final(ctx)).unchanged(*old(ctx)) && (
        *final(ledger)).records@ == old(ledger).records@,
        derived_user_address(program_id@, old(ctx).user@) matches Some(d) ==> {
            &&& (r is Ok <==> buy_accepts(*old(ledger), *old(ctx), d, amount))
            &&& (r is Ok ==> buy_applied(*old(ledger), *final(ledger), *old(ctx), *final(ctx), d,
                amount))
            &&& (r matches Err(e) ==> e == buy_rejection(*old(ledger), *old(ctx), d, amount) && (
            *final(ctx)).unchanged(*old(ctx)) && (*final(ledger)).records@ == old(
                ledger,
            ).records@)
        },
        forall|b: Seq<u8>| (*final(ledger)).tokens_of(b) >= old(ledger).tokens_of(b),
{
    match find_user_address(program_id, &ctx.user) {
        None => Err(ErrorCode::DerivationMismatch),
        Some(d) => apply_buy(ledger, ctx, &d, amount),
    }
}

/// Law: a purchase never changes the user identity it was made for, so a
/// later purchase derives exactly the same record address: the derived
/// address is a pure function of the program and the user.
pub proof fn lemma_buy_reuses_address(
    program_id: Seq<u8>,
    l0: PresaleLedger,
    l1: PresaleLedger,
    c0: CreateUserAccount,
    c1: CreateUserAccount,
    d: Seq<u8>,
    amount: u64,
)
    requires
        buy_applied(l0, l1, c0, c1, d, amount),
    ensures
        derived_user_address(program_id, c1.user@) == derived_user_address(program_id, c0.user@),
{
}

/// Law: two successful purchases for the same user, of `a` then `b` units,
/// end with the same counter and the same two balances as one purchase of
/// `a + b` units from the same starting state — and the combined purchase
/// is itself accepted from that starting state.
pub proof fn lemma_buy_additive(
    l0: PresaleLedger,
    l1: PresaleLedger,
    l2: PresaleLedger,
    ls: PresaleLedger,
    c0: CreateUserAccount,
    c1: CreateUserAccount,
    c2: CreateUserAccount,
    cs: CreateUserAccount,
    d: Seq<u8>,
    a: u64,
    b: u64,
    ab: u64,
)
    requires
        ab == a + b,
        buy_accepts(l0, c0, d, a),
        buy_applied(l0, l1, c0, c1, d, a),
        buy_accepts(l1, c1, d, b),
        buy_applied(l1, l2, c1, c2, d, b),
        buy_applied(l0, ls, c0, cs, d, ab),
    ensures
        buy_accepts(l0, c0, d, ab),
        l2.tokens_of(d) == ls.tokens_of(d),
        forall|x: Seq<u8>| l2.tokens_of(x) == ls.tokens_of(x),
        forall|x: Seq<u8>| l2.has_record(x) <==> ls.has_record(x),
        c2.signer.balance == cs.signer.balance,
        c2.vault_wallet.balance == cs.vault_wallet.balance,
{
    assert(ab * EXCHANGE_RATE == a * EXCHANGE_RATE + b * EXCHANGE_RATE) by (nonlinear_arith)
        requires
            ab == a + b,
    ;
    assert forall|x: Seq<u8>| l2.tokens_of(x) == ls.tokens_of(x) by {
        if x != d {
            assert(l2.tokens_of(x) == l1.tokens_of(x));
        }
    }
    assert forall|x: Seq<u8>| l2.has_record(x) <==> ls.has_record(x) by {
        if x != d {
            assert(l2.has_record(x) <==> l1.has_record(x));
        }
    }
}

} // verus!
