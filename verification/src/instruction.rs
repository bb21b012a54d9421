//! The transfer instruction: validate the account list against its declared
//! constraints, then apply the platform transfer's balance arithmetic.

use vstd::prelude::*;
use crate::account::{Account, Pubkey, is_system_key};

verus! {

/// Why an invocation is rejected: an account-constraint violation, detected
/// before any balance moves, or a failure of the delegated transfer itself.
#[derive(Clone, Copy, Debug, PartialEq, Eq, Structural)]
pub enum TransferError {
    /// The source did not sign the enclosing transaction.
    MissingSignature,
    /// The source is not marked mutable, so its balance cannot change.
    SourceNotWritable,
    /// The destination is not a plain native account of the host ledger.
    DestinationNotSystemOwned,
    /// The destination is not marked mutable, so its balance cannot change.
    DestinationNotWritable,
    /// The supplied capability is not the canonical system-transfer program.
    CapabilityMismatch,
    /// The source holds fewer units than the requested amount.
    InsufficientFunds,
    /// The credit would push the destination past the largest balance.
    ArithmeticOverflow,
}

/// The account list of one `send_sol` invocation, in its fixed positional
/// order: source, destination, then the system-transfer capability.
#[derive(Clone, Copy, Debug)]
pub struct SendSol {
    /// Must have signed and be mutable; its balance decreases.
    pub from: Account,
    /// A plain native account, mutable; its balance increases.
    pub to: Account,
    /// The platform's transfer capability, identified by its address.
    pub system_program: Pubkey,
}

/// The declared constraints on the account list: the source signs and is
/// mutable, the destination is a system-owned native account and is
/// mutable, and the capability is the canonical system-transfer program.
pub open spec fn constraints_ok(ctx: SendSol) -> bool {
    &&& ctx.from.is_signer
    &&& ctx.from.is_writable
    &&& is_system_key(ctx.to.owner@)
    &&& ctx.to.is_writable
    &&& is_system_key(ctx.system_program@)
}

/// The outcome of the constraint checks alone, in the order the account
/// list declares them.
pub open spec fn account_verdict(ctx: SendSol) -> Result<(), TransferError> {
    if !ctx.from.is_signer {
        Err(TransferError::MissingSignature)
    } else if !ctx.from.is_writable {
        Err(TransferError::SourceNotWritable)
    } else if !is_system_key(ctx.to.owner@) {
        Err(TransferError::DestinationNotSystemOwned)
    } else if !ctx.to.is_writable {
        Err(TransferError::DestinationNotWritable)
    } else if !is_system_key(ctx.system_program@) {
        Err(TransferError::CapabilityMismatch)
    } else {
        Ok(())
    }
}

/// The verdict of a whole invocation: the constraint checks first, then the
/// two ways the delegated transfer itself can fail.
pub open spec fn spec_verdict(ctx: SendSol, amount: u64) -> Result<(), TransferError> {
    if account_verdict(ctx) is Err {
        account_verdict(ctx)
    } else if amount > ctx.from.lamports {
        Err(TransferError::InsufficientFunds)
    } else if ctx.to.lamports + amount > u64::MAX {
        Err(TransferError::ArithmeticOverflow)
    } else {
        Ok(())
    }
}

/// The account list after an invocation: on success the source is debited
/// and the destination credited by exactly the amount; on any failure
/// nothing changes.
pub open spec fn spec_apply(ctx: SendSol, amount: u64) -> SendSol {
    if spec_verdict(ctx, amount) is Ok {
        SendSol {
            from: Account { lamports: (ctx.from.lamports - amount) as u64, ..ctx.from },
            to: Account { lamports: (ctx.to.lamports + amount) as u64, ..ctx.to },
            system_program: ctx.system_program,
        }
    } else {
        ctx
    }
}

/// The declared account constraints as explicit checks, performed in
/// declaration order before the transfer is attempted.
pub fn validate_accounts(ctx: &SendSol) -> (r: Result<(), TransferError>)
    ensures
        r == account_verdict(*ctx),
        r is Ok <==> constraints_ok(*ctx),
{
    if !ctx.from.is_signer {
        Err(TransferError::MissingSignature)
    } else if !ctx.from.is_writable {
        Err(TransferError::SourceNotWritable)
    } else if !ctx.to.owner.is_system_program() {
        Err(TransferError::DestinationNotSystemOwned)
    } else if !ctx.to.is_writable {
        Err(TransferError::DestinationNotWritable)
    } else if !ctx.system_program.is_system_program() {
        Err(TransferError::CapabilityMismatch)
    } else {
        Ok(())
    }
}

/// The balance arithmetic of the platform's native transfer primitive:
/// debit the amount from one balance and credit it to the other, or fail
/// with both balances untouched.
pub fn native_transfer(from_lamports: u64, to_lamports: u64, amount: u64) -> (r: Result<
    (u64, u64),
    TransferError,
>)
    ensures
        r is Ok <==> amount <= from_lamports && to_lamports + amount <= u64::MAX,
        r matches Ok(balances) ==> balances.0 == from_lamports - amount && balances.1
            == to_lamports + amount,
        amount > from_lamports ==> r == Err::<(u64, u64), TransferError>(
            TransferError::InsufficientFunds,
        ),
        amount <= from_lamports && to_lamports + amount > u64::MAX ==> r == Err::<
            (u64, u64),
            TransferError,
        >(TransferError::ArithmeticOverflow),
{
    if amount > from_lamports {
        return Err(TransferError::InsufficientFunds);
    }
    match to_lamports.checked_add(amount) {
        Some(new_to) => Ok((from_lamports - amount, new_to)),
        None => Err(TransferError::ArithmeticOverflow),
    }
}

/// The transfer instruction: move `amount` units from the signing source to
/// the destination by way of the platform's transfer primitive, or reject
/// the invocation with no effect at all.
pub fn send_sol(ctx: &mut SendSol, amount: u64) -> (r: Result<(), TransferError>)
    ensures
        r == spec_verdict(*old(ctx), amount),
        *final(ctx) == spec_apply(*old(ctx), amount),
        r is Ok <==> constraints_ok(*old(ctx)) && amount <= old(ctx).from.lamports
            && old(ctx).to.lamports + amount <= u64::MAX,
        r is Ok ==> final(ctx).from.lamports == old(ctx).from.lamports - amount
            && final(ctx).to.lamports == old(ctx).to.lamports + amount,
        r is Err ==> *final(ctx) == *old(ctx),
        final(ctx).from.lamports + final(ctx).to.lamports
            == old(ctx).from.lamports + old(ctx).to.lamports,
        !old(ctx).from.is_signer ==> r == Err::<(), TransferError>(TransferError::MissingSignature),
        !is_system_key(old(ctx).system_program@) ==> r is Err,
        amount > old(ctx).from.lamports ==> r is Err,
{
    match validate_accounts(&*ctx) {
        Ok(()) => {},
        Err(e) => {
            return Err(e);
        },
    }
    match native_transfer(ctx.from.lamports, ctx.to.lamports, amount) {
        Ok(balances) => {
            ctx.from.lamports = balances.0;
            ctx.to.lamports = balances.1;
            Ok(())
        },
        Err(e) => Err(e),
    }
}

/// Nothing in this instruction deduplicates a repeated request: two
/// invocations with identical arguments, each accepted, debit the source
/// and credit the destination twice over.
pub proof fn lemma_repeat_send_compounds(ctx: SendSol, amount: u64)
    requires
        spec_verdict(ctx, amount) is Ok,
        spec_verdict(spec_apply(ctx, amount), amount) is Ok,
    ensures
        spec_apply(spec_apply(ctx, amount), amount).from.lamports == ctx.from.lamports - 2 * amount,
        spec_apply(spec_apply(ctx, amount), amount).to.lamports == ctx.to.lamports + 2 * amount,
{
}

/// An invocation conserves the two balances' total: what the source loses,
/// the destination gains, and a rejected invocation moves nothing.
pub proof fn lemma_supply_conserved(ctx: SendSol, amount: u64)
    ensures
        spec_apply(ctx, amount).from.lamports + spec_apply(ctx, amount).to.lamports
            == ctx.from.lamports + ctx.to.lamports,
{
}

} // verus!
