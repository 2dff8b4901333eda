use vstd::prelude::*;

use crate::amount::{spec_parse_decimal, spec_rescale_factor, spec_to_decimal, AMOUNT_LIMIT, MAX_SCALE};
use crate::balance::Balance;
use crate::errors::TxError;
use crate::history::{history_wf, TxKind, TxRecord};
use crate::balances::{balances_wf, spec_has_headroom};
use crate::processor::{spec_do_cmd, spec_phase1, spec_phase2, CommandKind, CommandV};

verus! {

/// Balance non-negativity: available and held funds can never go negative
/// — they are unsigned counts, and every transition checks sufficiency
/// before subtracting — and any command applied to well-formed state
/// leaves every account and every history record well formed.
pub proof fn lemma_balance_nonnegative(
    h: Map<u32, TxRecord>,
    b: Map<u16, Balance>,
    c: CommandV,
)
    requires
        history_wf(h),
        balances_wf(b),
        c.kind == CommandKind::Deposit ==> spec_has_headroom(b, c.client_id),
    ensures
        ({
            let step = spec_do_cmd(h, b, c);
            &&& forall|cl: u16|
                step.2.contains_key(cl) ==> (#[trigger] step.2[cl]).avail >= 0 && step.2[cl].held
                    >= 0
            &&& balances_wf(step.2)
            &&& history_wf(step.1)
        }),
{
}

/// Lock monotonicity: a locked account never unlocks; a command addressed
/// to a locked client is rejected and changes nothing; and when its
/// referential validation and amount resolution pass, the rejection is
/// exactly `LockedAccount`.
pub proof fn lemma_lock_monotonic(h: Map<u32, TxRecord>, b: Map<u16, Balance>, c: CommandV)
    requires
        history_wf(h),
        balances_wf(b),
    ensures
        ({
            let step = spec_do_cmd(h, b, c);
            &&& forall|cl: u16|
                b.contains_key(cl) && (#[trigger] b[cl]).locked ==> step.2.contains_key(cl)
                    && step.2[cl].locked
            &&& b.contains_key(c.client_id) && b[c.client_id].locked ==> step.0 is Err && step.1
                == h && step.2 == b
            &&& b.contains_key(c.client_id) && b[c.client_id].locked && spec_phase1(h, c) is Ok
                && spec_phase2(h, c) is Ok ==> step.0 == Err::<(), TxError>(TxError::LockedAccount)
        }),
{
}

/// The state both stores reach after a whole run: the commands applied in
/// order, each step taken as `spec_do_cmd` says.
pub open spec fn spec_run(
    h: Map<u32, TxRecord>,
    b: Map<u16, Balance>,
    cmds: Seq<CommandV>,
) -> (Map<u32, TxRecord>, Map<u16, Balance>)
    decreases cmds.len(),
{
    if cmds.len() == 0 {
        (h, b)
    } else {
        let step = spec_do_cmd(h, b, cmds[0]);
        spec_run(step.1, step.2, cmds.drop_first())
    }
}

/// Whether every deposit of a run arrives while its client still has room
/// for the largest representable amount, step by step.
pub open spec fn spec_run_headroom(
    h: Map<u32, TxRecord>,
    b: Map<u16, Balance>,
    cmds: Seq<CommandV>,
) -> bool
    decreases cmds.len(),
{
    if cmds.len() == 0 {
        true
    } else {
        let step = spec_do_cmd(h, b, cmds[0]);
        &&& (cmds[0].kind == CommandKind::Deposit ==> spec_has_headroom(b, cmds[0].client_id))
        &&& spec_run_headroom(step.1, step.2, cmds.drop_first())
    }
}

/// Balance non-negativity over a whole run: starting from well-formed
/// stores, any sequence of commands whose deposits stay in range leaves
/// every account with non-negative available and held funds, and both
/// stores well formed.
pub proof fn lemma_balance_nonnegative_run(
    h: Map<u32, TxRecord>,
    b: Map<u16, Balance>,
    cmds: Seq<CommandV>,
)
    requires
        history_wf(h),
        balances_wf(b),
        spec_run_headroom(h, b, cmds),
    ensures
        ({
            let after = spec_run(h, b, cmds);
            &&& forall|cl: u16|
                after.1.contains_key(cl) ==> (#[trigger] after.1[cl]).avail >= 0
                    && after.1[cl].held >= 0
            &&& history_wf(after.0)
            &&& balances_wf(after.1)
        }),
    decreases cmds.len(),
{
    if cmds.len() > 0 {
        lemma_balance_nonnegative(h, b, cmds[0]);
        let step = spec_do_cmd(h, b, cmds[0]);
        lemma_balance_nonnegative_run(step.1, step.2, cmds.drop_first());
    }
}

/// Lock monotonicity over a whole run: once a client's account is locked,
/// no sequence of commands whatsoever unlocks it.
pub proof fn lemma_lock_never_clears(
    h: Map<u32, TxRecord>,
    b: Map<u16, Balance>,
    cmds: Seq<CommandV>,
    cl: u16,
)
    requires
        b.contains_key(cl),
        b[cl].locked,
    ensures
        ({
            let after = spec_run(h, b, cmds);
            after.1.contains_key(cl) && after.1[cl].locked
        }),
    decreases cmds.len(),
{
    if cmds.len() > 0 {
        let step = spec_do_cmd(h, b, cmds[0]);
        assert(step.2.contains_key(cl) && step.2[cl].locked);
        lemma_lock_never_clears(step.1, step.2, cmds.drop_first(), cl);
    }
}

/// Duplicate id rejection: a deposit or withdrawal naming a transaction id
/// that is already registered fails with `TransactionAlreadyExists`, and
/// neither the history nor any balance changes.
pub proof fn lemma_duplicate_id_rejected(
    h: Map<u32, TxRecord>,
    b: Map<u16, Balance>,
    c: CommandV,
)
    requires
        c.kind == CommandKind::Deposit || c.kind == CommandKind::Withdrawal,
        h.contains_key(c.tx_id),
    ensures
        spec_do_cmd(h, b, c) == (Err::<(), TxError>(TxError::TransactionAlreadyExists), h, b),
{
}

/// Dispute referential integrity: a dispute naming an unknown id fails
/// `ReferenceTransactionNotFound`; one naming a withdrawal fails
/// `ReferenceTransactionTypeIncorrect`; one naming another client's
/// deposit fails `ReferenceTransactionIncorrect`; one naming a deposit
/// already in dispute fails `TransactionAlreadyInDispute`. None of them
/// changes any state.
pub proof fn lemma_dispute_referential_integrity(
    h: Map<u32, TxRecord>,
    b: Map<u16, Balance>,
    c: CommandV,
)
    requires
        c.kind == CommandKind::Dispute,
    ensures
        !h.contains_key(c.tx_id) ==> spec_do_cmd(h, b, c) == (
            Err::<(), TxError>(TxError::ReferenceTransactionNotFound),
            h,
            b,
        ),
        h.contains_key(c.tx_id) && h[c.tx_id].kind != TxKind::Deposit ==> spec_do_cmd(h, b, c)
            == (Err::<(), TxError>(TxError::ReferenceTransactionTypeIncorrect), h, b),
        h.contains_key(c.tx_id) && h[c.tx_id].kind == TxKind::Deposit && h[c.tx_id].client_id
            != c.client_id ==> spec_do_cmd(h, b, c) == (
            Err::<(), TxError>(TxError::ReferenceTransactionIncorrect),
            h,
            b,
        ),
        h.contains_key(c.tx_id) && h[c.tx_id].kind == TxKind::Deposit && h[c.tx_id].client_id
            == c.client_id && h[c.tx_id].in_dispute ==> spec_do_cmd(h, b, c) == (
            Err::<(), TxError>(TxError::TransactionAlreadyInDispute),
            h,
            b,
        ),
{
}

/// Precision boundary: a literal that parses with at most four fractional
/// digits is read exactly — the count of ten-thousandths is the mantissa
/// carried down to four digits, with no rounding — while one that parses
/// with five or more fails `DecimalFormatError`.
pub proof fn lemma_precision_boundary(s: Seq<char>, m: i128, scale: u32)
    requires
        spec_parse_decimal(s) == Some((m, scale)),
    ensures
        scale > MAX_SCALE ==> spec_to_decimal(s) == Err::<i128, TxError>(
            TxError::DecimalFormatError,
        ),
        scale <= MAX_SCALE && -(AMOUNT_LIMIT as int) <= m * spec_rescale_factor(scale)
            <= AMOUNT_LIMIT as int ==> spec_to_decimal(s) == Ok::<i128, TxError>(
            (m * spec_rescale_factor(scale)) as i128,
        ),
{
}

/// Precision boundary at the processor: a fresh deposit or withdrawal
/// whose literal carries five or more fractional digits is rejected with
/// `DecimalFormatError` and leaves both stores unchanged.
pub proof fn lemma_precision_boundary_rejects(
    h: Map<u32, TxRecord>,
    b: Map<u16, Balance>,
    c: CommandV,
    m: i128,
    scale: u32,
)
    requires
        c.kind == CommandKind::Deposit || c.kind == CommandKind::Withdrawal,
        !h.contains_key(c.tx_id),
        c.amount matches Some(s) && spec_parse_decimal(s) == Some((m, scale)),
        scale > MAX_SCALE,
    ensures
        spec_do_cmd(h, b, c) == (Err::<(), TxError>(TxError::DecimalFormatError), h, b),
{
}

} // verus!
