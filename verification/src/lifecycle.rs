//! What holds of a presale over its life: of calls one after another, and of
//! every call whatever it is shown.

use vstd::prelude::*;
use crate::account::{lemma_program_is_not_system, program_id, PresaleAccount, TokenAccount};
use crate::authority::vesting_authority_of;
use crate::errors::{verdict, PresaleError, Rejection};
use crate::instructions::add_fractions::AddFractions;
use crate::instructions::collect_funds::CollectFunds;
use crate::instructions::init_vesting_account::InitVesting;
use crate::instructions::initialize_presale::InitializePresale;
use crate::instructions::purchase_fractions::PurchaseFractions;
use crate::instructions::remove_fractions::RemoveFractions;
use crate::instructions::start_presale::StartPresale;
use crate::instructions::unlock_fractions::UnlockFractions;
use crate::transfer::Transfer;

verus! {

/// A call on a presale after its creation, with everything it was given.
#[allow(inconsistent_fields)]
pub enum Call {
    Fund { ctx: AddFractions, pda_bump: u8, amount: u64 },
    Defund { ctx: RemoveFractions, pda_bump: u8, amount: u64 },
    Start { ctx: StartPresale, now: u64 },
    Collect { ctx: CollectFunds, pda_bump: u8 },
    OpenLock { ctx: InitVesting, vesting_pda_bump: u8 },
    Purchase {
        ctx: PurchaseFractions,
        presale_pda_bump: u8,
        vesting_pda_bump: u8,
        amount: u64,
        now: u64,
    },
    Unlock { ctx: UnlockFractions, vesting_pda_bump: u8, now: u64 },
}

impl Call {
    /// The call was shown this presale and, where it is given the fraction
    /// treasury, this state of it.
    pub open spec fn shows(&self, presale: PresaleAccount, treasury: TokenAccount) -> bool {
        match *self {
            Call::Fund { ctx, .. } => ctx.presale_account == presale && ctx.fraction_treasury
                == treasury,
            Call::Defund { ctx, .. } => ctx.presale_account == presale && ctx.fraction_treasury
                == treasury,
            Call::Start { ctx, .. } => ctx.presale_account == presale,
            Call::Collect { ctx, .. } => ctx.presale_account == presale,
            Call::OpenLock { ctx, .. } => ctx.presale_account == presale && ctx.fraction_treasury
                == treasury,
            Call::Purchase { ctx, .. } => ctx.presale_account == presale && ctx.fraction_treasury
                == treasury,
            Call::Unlock { ctx, .. } => ctx.presale_account == presale && ctx.fraction_treasury
                == treasury,
        }
    }

    /// The call was taken: nothing was out of order and no rule was broken.
    pub open spec fn taken(&self) -> bool {
        match *self {
            Call::Fund { ctx, pda_bump, amount } => verdict(
                ctx.violation(pda_bump),
                ctx.broken(amount),
            ) is None,
            Call::Defund { ctx, pda_bump, amount } => verdict(
                ctx.violation(pda_bump),
                ctx.broken(amount),
            ) is None,
            Call::Start { ctx, .. } => verdict(ctx.violation(), ctx.broken()) is None,
            Call::Collect { ctx, pda_bump } => ctx.violation(pda_bump) is None,
            Call::OpenLock { ctx, vesting_pda_bump } => ctx.violation(vesting_pda_bump) is None,
            Call::Purchase { ctx, presale_pda_bump, vesting_pda_bump, amount, now } => verdict(
                ctx.violation(presale_pda_bump, vesting_pda_bump),
                ctx.broken(amount, now),
            ) is None,
            Call::Unlock { ctx, vesting_pda_bump, now } => verdict(
                ctx.violation(vesting_pda_bump),
                ctx.broken(now),
            ) is None,
        }
    }

    /// What the call, once taken, asks of the ledger.
    pub open spec fn transfers(&self) -> Seq<Transfer> {
        match *self {
            Call::Fund { ctx, amount, .. } => seq![ctx.funding(amount)],
            Call::Defund { ctx, pda_bump, amount } => seq![ctx.defunding(pda_bump, amount)],
            Call::Start { .. } => Seq::empty(),
            Call::Collect { ctx, pda_bump } => ctx.transfers(pda_bump),
            Call::OpenLock { .. } => Seq::empty(),
            Call::Purchase { ctx, presale_pda_bump, amount, .. } => ctx.transfers(
                presale_pda_bump,
                amount,
            ),
            Call::Unlock { ctx, vesting_pda_bump, .. } => seq![ctx.release(vesting_pda_bump)],
        }
    }

    /// The presale as the call, once taken, leaves it.
    pub open spec fn presale_after(&self) -> PresaleAccount {
        match *self {
            Call::Fund { ctx, .. } => ctx.presale_account,
            Call::Defund { ctx, .. } => ctx.presale_account,
            Call::Start { ctx, now } => ctx.after(now).presale_account,
            Call::Collect { ctx, .. } => ctx.presale_account,
            Call::OpenLock { ctx, .. } => ctx.allocated().after().presale_account,
            Call::Purchase { ctx, amount, .. } => ctx.after(amount).presale_account,
            Call::Unlock { ctx, .. } => ctx.presale_account,
        }
    }

    /// The presale as the call was shown it.
    pub open spec fn presale_before(&self) -> PresaleAccount {
        match *self {
            Call::Fund { ctx, .. } => ctx.presale_account,
            Call::Defund { ctx, .. } => ctx.presale_account,
            Call::Start { ctx, .. } => ctx.presale_account,
            Call::Collect { ctx, .. } => ctx.presale_account,
            Call::OpenLock { ctx, .. } => ctx.presale_account,
            Call::Purchase { ctx, .. } => ctx.presale_account,
            Call::Unlock { ctx, .. } => ctx.presale_account,
        }
    }

    /// The fraction treasury is none of the other accounts of the call: it
    /// takes no part but its own.
    pub open spec fn stands_alone(&self, treasury: TokenAccount) -> bool {
        match *self {
            Call::Fund { ctx, .. } => ctx.from_account.key != treasury.key,
            Call::Defund { ctx, .. } => ctx.to_account.key != treasury.key,
            Call::Start { .. } => true,
            Call::Collect { ctx, .. } => {
                &&& ctx.payment_treasury.key != treasury.key
                &&& ctx.to_account.key != treasury.key
            },
            Call::OpenLock { .. } => true,
            Call::Purchase { ctx, .. } => {
                &&& ctx.access_account.key != treasury.key
                &&& ctx.access_treasury.key != treasury.key
                &&& ctx.from_account.key != treasury.key
                &&& ctx.payment_treasury.key != treasury.key
                &&& ctx.vesting_account.key != treasury.key
            },
            Call::Unlock { ctx, .. } => {
                &&& ctx.vesting_account.key != treasury.key
                &&& ctx.to_account.key != treasury.key
            },
        }
    }

    /// The fraction treasury takes part in the call as the fraction treasury
    /// only: nothing but a funding flows into it, and what a defunding or a
    /// purchase takes out of it goes elsewhere.
    pub open spec fn keeps_apart(&self, treasury: TokenAccount) -> bool {
        match *self {
            Call::Fund { .. } => true,
            Call::Defund { ctx, .. } => ctx.to_account.key != treasury.key,
            Call::Start { .. } => true,
            Call::Collect { ctx, .. } => ctx.to_account.key != treasury.key,
            Call::OpenLock { .. } => true,
            Call::Purchase { ctx, .. } => {
                &&& ctx.access_treasury.key != treasury.key
                &&& ctx.payment_treasury.key != treasury.key
                &&& ctx.vesting_account.key != treasury.key
            },
            Call::Unlock { ctx, .. } => ctx.to_account.key != treasury.key,
        }
    }

    /// Fractions that the call put up for sale.
    pub open spec fn funded(&self) -> nat {
        match *self {
            Call::Fund { amount, .. } => amount as nat,
            _ => 0,
        }
    }

    /// Fractions that the call took off sale.
    pub open spec fn defunded(&self) -> nat {
        match *self {
            Call::Defund { amount, .. } => amount as nat,
            _ => 0,
        }
    }

    /// Fractions that the call bought.
    pub open spec fn purchased(&self) -> nat {
        match *self {
            Call::Purchase { amount, .. } => amount as nat,
            _ => 0,
        }
    }
}

/// A call and how it ended: done, that is taken and carried out by the
/// ledger, or else failed, be it refused here or by the ledger.
pub struct Attempt {
    pub call: Call,
    pub done: bool,
}

impl Attempt {
    /// What the ledger carried out for the attempt: the call's transfers if
    /// it was done, nothing if it failed.
    pub open spec fn transfers(&self) -> Seq<Transfer> {
        if self.done {
            self.call.transfers()
        } else {
            Seq::empty()
        }
    }

    /// The presale as the attempt leaves it: as the call writes it if it was
    /// done, as it was if it failed.
    pub open spec fn presale_after(&self) -> PresaleAccount {
        if self.done {
            self.call.presale_after()
        } else {
            self.call.presale_before()
        }
    }

    /// Fractions that the attempt put up for sale.
    pub open spec fn funded(&self) -> nat {
        if self.done {
            self.call.funded()
        } else {
            0
        }
    }

    /// Fractions that the attempt took off sale.
    pub open spec fn defunded(&self) -> nat {
        if self.done {
            self.call.defunded()
        } else {
            0
        }
    }

    /// Fractions that the attempt bought.
    pub open spec fn purchased(&self) -> nat {
        if self.done {
            self.call.purchased()
        } else {
            0
        }
    }
}

/// `attempts` is what happened to a presale and its fraction treasury from
/// the given state on. Each call was shown the state that the attempt before
/// it left. One that was done was taken, kept the treasury apart, and had
/// its transfers carried out by the ledger; one that failed changed nothing.
pub open spec fn unfolds(
    presale: PresaleAccount,
    treasury: TokenAccount,
    attempts: Seq<Attempt>,
) -> bool
    decreases attempts.len(),
{
    attempts.len() > 0 ==> {
        &&& attempts[0].call.shows(presale, treasury)
        &&& attempts[0].done ==> {
            &&& attempts[0].call.taken()
            &&& attempts[0].call.keeps_apart(treasury)
            &&& treasury.covers_all(attempts[0].call.transfers())
        }
        &&& unfolds(
            attempts[0].presale_after(),
            treasury.after_all(attempts[0].transfers()),
            attempts.drop_first(),
        )
    }
}

/// In every attempt of `attempts` that was done, the fraction treasury was
/// none of the other accounts of the call.
pub open spec fn stand_alone(treasury: TokenAccount, attempts: Seq<Attempt>) -> bool
    decreases attempts.len(),
{
    attempts.len() > 0 ==> {
        &&& attempts[0].done ==> attempts[0].call.stands_alone(treasury)
        &&& stand_alone(treasury.after_all(attempts[0].transfers()), attempts.drop_first())
    }
}

/// The presale after `attempts`.
pub open spec fn presale_at_end(presale: PresaleAccount, attempts: Seq<Attempt>) -> PresaleAccount
    decreases attempts.len(),
{
    if attempts.len() == 0 {
        presale
    } else {
        presale_at_end(attempts[0].presale_after(), attempts.drop_first())
    }
}

/// The fraction treasury after `attempts`.
pub open spec fn treasury_at_end(treasury: TokenAccount, attempts: Seq<Attempt>) -> TokenAccount
    decreases attempts.len(),
{
    if attempts.len() == 0 {
        treasury
    } else {
        treasury_at_end(treasury.after_all(attempts[0].transfers()), attempts.drop_first())
    }
}

/// All fractions put up for sale by the fundings of `attempts` that were
/// done.
pub open spec fn total_funded(attempts: Seq<Attempt>) -> nat
    decreases attempts.len(),
{
    if attempts.len() == 0 {
        0
    } else {
        attempts[0].funded() + total_funded(attempts.drop_first())
    }
}

/// All fractions taken off sale by the defundings of `attempts` that were
/// done.
pub open spec fn total_defunded(attempts: Seq<Attempt>) -> nat
    decreases attempts.len(),
{
    if attempts.len() == 0 {
        0
    } else {
        attempts[0].defunded() + total_defunded(attempts.drop_first())
    }
}

/// All fractions bought by the purchases of `attempts` that were done.
pub open spec fn total_purchased(attempts: Seq<Attempt>) -> nat
    decreases attempts.len(),
{
    if attempts.len() == 0 {
        0
    } else {
        attempts[0].purchased() + total_purchased(attempts.drop_first())
    }
}

/// One transfer carried out is that transfer applied.
proof fn lemma_one_transfer(account: TokenAccount, t: Transfer)
    ensures
        account.covers_all(seq![t]) == account.covers(t),
        account.after_all(seq![t]) == account.after(t),
{
    let ts = seq![t];
    assert(ts.drop_first() =~= Seq::<Transfer>::empty());
    assert(account.after(t).covers_all(ts.drop_first()));
    assert(account.after(t).after_all(ts.drop_first()) == account.after(t));
}

/// Three transfers carried out are the three applied in order.
proof fn lemma_three_transfers(account: TokenAccount, a: Transfer, b: Transfer, c: Transfer)
    ensures
        account.covers_all(seq![a, b, c]) == (account.covers(a) && account.after(a).covers(b)
            && account.after(a).after(b).covers(c)),
        account.after_all(seq![a, b, c]) == account.after(a).after(b).after(c),
{
    let ts = seq![a, b, c];
    assert(ts.drop_first() =~= seq![b, c]);
    assert(seq![b, c].drop_first() =~= seq![c]);
    lemma_one_transfer(account.after(a).after(b), c);
    assert(account.after(a).covers_all(seq![b, c]) == (account.after(a).covers(b)
        && account.after(a).after(b).covers_all(seq![c])));
    assert(account.after(a).after_all(seq![b, c]) == account.after(a).after(b).after_all(seq![c]));
}

/// What one call that was done does to the count of fractions sold and to
/// the treasury: the count grows by what was bought, and count and balance
/// together grow by no more than what was funded less what was defunded; by
/// exactly that much where the treasury stands alone.
proof fn lemma_one_call(presale: PresaleAccount, treasury: TokenAccount, call: Call)
    requires
        call.shows(presale, treasury),
        call.taken(),
        call.keeps_apart(treasury),
        treasury.covers_all(call.transfers()),
    ensures
        call.presale_after().info.fractions_sold == presale.info.fractions_sold
            + call.purchased(),
        call.presale_after().info.fractions_sold + treasury.after_all(call.transfers()).amount
            <= presale.info.fractions_sold + treasury.amount + call.funded() - call.defunded(),
        call.stands_alone(treasury) ==> call.presale_after().info.fractions_sold
            + treasury.after_all(call.transfers()).amount == presale.info.fractions_sold
            + treasury.amount + call.funded() - call.defunded(),
        call.presale_after().info.follows(presale.info),
        call.presale_after().key == presale.key,
{
    match call {
        Call::Fund { ctx, pda_bump, amount } => {
            lemma_one_transfer(treasury, ctx.funding(amount));
        },
        Call::Defund { ctx, pda_bump, amount } => {
            lemma_one_transfer(treasury, ctx.defunding(pda_bump, amount));
        },
        Call::Start { ctx, now } => {
            assert(treasury.after_all(Seq::<Transfer>::empty()) == treasury);
        },
        Call::Collect { ctx, pda_bump } => {
            if ctx.payment_treasury.amount > 0 {
                lemma_one_transfer(treasury, ctx.collection(pda_bump));
            } else {
                assert(treasury.after_all(Seq::<Transfer>::empty()) == treasury);
            }
        },
        Call::OpenLock { ctx, vesting_pda_bump } => {
            assert(treasury.after_all(Seq::<Transfer>::empty()) == treasury);
        },
        Call::Unlock { ctx, vesting_pda_bump, now } => {
            lemma_one_transfer(treasury, ctx.release(vesting_pda_bump));
        },
        Call::Purchase { ctx, presale_pda_bump, vesting_pda_bump, amount, now } => {
            lemma_three_transfers(
                treasury,
                ctx.access_transfer(),
                ctx.payment_transfer(amount),
                ctx.fraction_transfer(presale_pda_bump, amount),
            );
        },
    }
}

/// What one attempt, done or failed, does to the count of fractions sold and
/// to the treasury.
proof fn lemma_one_attempt(presale: PresaleAccount, treasury: TokenAccount, attempt: Attempt)
    requires
        attempt.call.shows(presale, treasury),
        attempt.done ==> {
            &&& attempt.call.taken()
            &&& attempt.call.keeps_apart(treasury)
            &&& treasury.covers_all(attempt.call.transfers())
        },
    ensures
        attempt.presale_after().info.fractions_sold == presale.info.fractions_sold
            + attempt.purchased(),
        attempt.presale_after().info.fractions_sold + treasury.after_all(
            attempt.transfers(),
        ).amount <= presale.info.fractions_sold + treasury.amount + attempt.funded()
            - attempt.defunded(),
        (attempt.done ==> attempt.call.stands_alone(treasury))
            ==> attempt.presale_after().info.fractions_sold + treasury.after_all(
            attempt.transfers(),
        ).amount == presale.info.fractions_sold + treasury.amount + attempt.funded()
            - attempt.defunded(),
        attempt.presale_after().info.follows(presale.info),
        attempt.presale_after().key == presale.key,
{
    if attempt.done {
        lemma_one_call(presale, treasury, attempt.call);
    } else {
        assert(treasury.after_all(Seq::<Transfer>::empty()) == treasury);
    }
}

/// Over any run of attempts, done or failed, the count of fractions sold
/// grows by exactly what was bought, and the count and the treasury's balance
/// together grow by no more than what was funded less what was defunded. The
/// presale keeps its terms throughout, stays started once started, and stays
/// where it is.
pub proof fn lemma_sales_are_backed(
    presale: PresaleAccount,
    treasury: TokenAccount,
    attempts: Seq<Attempt>,
)
    requires
        unfolds(presale, treasury, attempts),
    ensures
        presale_at_end(presale, attempts).info.fractions_sold == presale.info.fractions_sold
            + total_purchased(attempts),
        presale_at_end(presale, attempts).info.fractions_sold + treasury_at_end(
            treasury,
            attempts,
        ).amount <= presale.info.fractions_sold + treasury.amount + total_funded(attempts)
            - total_defunded(attempts),
        presale_at_end(presale, attempts).info.follows(presale.info),
        presale_at_end(presale, attempts).key == presale.key,
    decreases attempts.len(),
{
    if attempts.len() > 0 {
        lemma_one_attempt(presale, treasury, attempts[0]);
        lemma_sales_are_backed(
            attempts[0].presale_after(),
            treasury.after_all(attempts[0].transfers()),
            attempts.drop_first(),
        );
    }
}

/// Over any run of attempts, done or failed, in which the fraction treasury
/// stands alone, the count of fractions sold and the treasury's balance
/// together grow by exactly what was funded less what was defunded: every
/// attempt keeps that sum, and the treasury is credited by fundings only.
pub proof fn lemma_sales_are_conserved(
    presale: PresaleAccount,
    treasury: TokenAccount,
    attempts: Seq<Attempt>,
)
    requires
        unfolds(presale, treasury, attempts),
        stand_alone(treasury, attempts),
    ensures
        presale_at_end(presale, attempts).info.fractions_sold + treasury_at_end(
            treasury,
            attempts,
        ).amount == presale.info.fractions_sold + treasury.amount + total_funded(attempts)
            - total_defunded(attempts),
    decreases attempts.len(),
{
    if attempts.len() > 0 {
        lemma_one_attempt(presale, treasury, attempts[0]);
        lemma_sales_are_conserved(
            attempts[0].presale_after(),
            treasury.after_all(attempts[0].transfers()),
            attempts.drop_first(),
        );
    }
}

/// From the creation of a presale on, after any run of attempts, done or
/// failed, the fractions counted as sold are exactly the sum of the amounts
/// bought, and never more than the sum of the amounts funded less the sum of
/// the amounts defunded. Where the fraction treasury stands alone, the count
/// and the treasury's balance together are exactly that difference.
pub proof fn lemma_sold_equals_purchased_within_funded(
    creation: InitializePresale,
    pda_bump: u8,
    price: u64,
    max_amount: u64,
    presale_end: u64,
    vesting_end: u64,
    attempts: Seq<Attempt>,
)
    requires
        creation.violation(pda_bump) is None,
        unfolds(
            creation.allocated().after(
                price,
                max_amount,
                presale_end,
                vesting_end,
            ).presale_account,
            creation.allocated().after(
                price,
                max_amount,
                presale_end,
                vesting_end,
            ).fraction_treasury,
            attempts,
        ),
    ensures
        ({
            let created = creation.allocated().after(price, max_amount, presale_end, vesting_end);
            let sold = presale_at_end(created.presale_account, attempts).info.fractions_sold;
            let left = treasury_at_end(created.fraction_treasury, attempts).amount;
            &&& sold == total_purchased(attempts)
            &&& sold <= total_funded(attempts) - total_defunded(attempts)
            &&& stand_alone(created.fraction_treasury, attempts) ==> sold + left == total_funded(
                attempts,
            ) - total_defunded(attempts)
        }),
{
    let created = creation.allocated().after(price, max_amount, presale_end, vesting_end);
    lemma_sales_are_backed(created.presale_account, created.fraction_treasury, attempts);
    if stand_alone(created.fraction_treasury, attempts) {
        lemma_sales_are_conserved(created.presale_account, created.fraction_treasury, attempts);
    }
}

/// A presale is created well formed: with no start time, and selling one
/// asset for another.
pub proof fn lemma_created_presale_is_well_formed(
    creation: InitializePresale,
    pda_bump: u8,
    price: u64,
    max_amount: u64,
    presale_end: u64,
    vesting_end: u64,
)
    requires
        creation.violation(pda_bump) is None,
    ensures
        creation.allocated().after(
            price,
            max_amount,
            presale_end,
            vesting_end,
        ).presale_account.info.wf(),
{
}

/// Every call that is taken leaves a well-formed presale well formed.
pub proof fn lemma_call_keeps_presale_well_formed(
    presale: PresaleAccount,
    treasury: TokenAccount,
    call: Call,
)
    requires
        presale.info.wf(),
        call.shows(presale, treasury),
        call.taken(),
    ensures
        call.presale_after().info.wf(),
{
}

/// A presale starts once. Where a start was taken, a later start that is
/// shown the presale as the first left it is refused, for the accounts or
/// else as already started, and leaves everything as it was: the start time
/// is still that of the first.
pub proof fn lemma_presale_starts_once(
    first: StartPresale,
    now: u64,
    second: StartPresale,
    later: u64,
)
    requires
        verdict(first.violation(), first.broken()) is None,
        second.presale_account == first.after(now).presale_account,
    ensures
        second.broken() == Some(PresaleError::PresaleAlreadyStarted),
        verdict(second.violation(), second.broken()) is Some,
        second.violation() is None ==> verdict(second.violation(), second.broken()) == Some(
            Rejection::Presale(PresaleError::PresaleAlreadyStarted),
        ),
        second.outcome(later) == second,
        second.outcome(later).presale_account.info.presale_start == now,
{
}

/// A purchase of nothing is refused as such, whatever else the call is
/// shown; with accounts in order that is the answer of the whole operation.
pub proof fn lemma_purchase_of_nothing_is_refused(
    ctx: PurchaseFractions,
    presale_pda_bump: u8,
    vesting_pda_bump: u8,
    now: u64,
)
    ensures
        ctx.broken(0, now) == Some(PresaleError::AmountIsZero),
        verdict(ctx.violation(presale_pda_bump, vesting_pda_bump), ctx.broken(0, now)) is Some,
        ctx.violation(presale_pda_bump, vesting_pda_bump) is None ==> verdict(
            ctx.violation(presale_pda_bump, vesting_pda_bump),
            ctx.broken(0, now),
        ) == Some(Rejection::Presale(PresaleError::AmountIsZero)),
{
}

/// With something locked, an unlock is refused as too early before the end
/// of vesting and is taken from then on; with nothing locked it is refused as
/// empty at any time.
pub proof fn lemma_unlock_waits_for_vesting(ctx: UnlockFractions, now: u64)
    ensures
        ctx.vesting_account.amount > 0 && now < ctx.presale_account.info.vesting_end
            ==> ctx.broken(now) == Some(PresaleError::VestingPeriodNotFinished),
        ctx.vesting_account.amount > 0 && now >= ctx.presale_account.info.vesting_end
            ==> ctx.broken(now) is None,
        ctx.vesting_account.amount == 0 ==> ctx.broken(now) == Some(
            PresaleError::VestingAccountIsEmpty,
        ),
{
}

/// An unlock drains the lock, once. Where an unlock was taken and carried
/// out to another account than the locked balance itself, the locked balance
/// is zero. A later unlock that is shown it so, at any time, is refused, for
/// the accounts or else as empty; it asks nothing of the ledger, so that the
/// destination keeps its balance.
pub proof fn lemma_unlock_drains_once(
    first: UnlockFractions,
    vesting_pda_bump: u8,
    now: u64,
    second: UnlockFractions,
    second_bump: u8,
    later: u64,
)
    requires
        first.broken(now) is None,
        first.to_account.key != first.vesting_account.key,
        second.vesting_account == first.vesting_account.after(first.release(vesting_pda_bump)),
    ensures
        first.vesting_account.covers(first.release(vesting_pda_bump)),
        second.vesting_account.amount == 0,
        second.broken(later) == Some(PresaleError::VestingAccountIsEmpty),
        verdict(second.violation(second_bump), second.broken(later)) is Some,
        second.violation(second_bump) is None ==> verdict(
            second.violation(second_bump),
            second.broken(later),
        ) == Some(Rejection::Presale(PresaleError::VestingAccountIsEmpty)),
        second.asked(second_bump, later) == Seq::<Transfer>::empty(),
        second.to_account.after_all(second.asked(second_bump, later)) == second.to_account,
{
}

/// The destination of an unlock is another account than the locked balance,
/// unless the buyer is the lock's own derived authority: with accounts in
/// order the destination is the buyer's and the locked balance is the
/// lock's, and one account is shown in one state.
pub proof fn lemma_destination_is_not_the_locked_balance(
    ctx: UnlockFractions,
    vesting_pda_bump: u8,
)
    requires
        ctx.violation(vesting_pda_bump) is None,
        ctx.signer.key != ctx.user_vesting_pda.key,
        ctx.to_account.key == ctx.vesting_account.key ==> ctx.to_account == ctx.vesting_account,
    ensures
        ctx.to_account.key != ctx.vesting_account.key,
{
}

/// A lock that was opened is known again. A purchase or an unlock by the same
/// buyer in the same presale, under the bump of the opening, that is shown
/// the lock and the locked balance as the opening left them, finds the lock
/// a record of this protocol at the address of the buyer's vesting authority,
/// bound to the buyer and to the locked balance, and finds the locked balance
/// empty, the lock's, and of the asset of the fraction treasury, where that
/// treasury holds the asset that the presale sells.
pub proof fn lemma_opened_lock_is_known_again(
    opening: InitVesting,
    vesting_pda_bump: u8,
    purchase: PurchaseFractions,
    unlock: UnlockFractions,
)
    requires
        opening.violation(vesting_pda_bump) is None,
        opening.lock_is_derived(vesting_pda_bump),
        purchase.presale_account == opening.allocated().after().presale_account,
        purchase.signer.key == opening.signer.key,
        purchase.user_vesting_pda == opening.allocated().after().user_vesting_pda,
        purchase.vesting_account == opening.allocated().after().vesting_account,
        purchase.fraction_treasury.mint == purchase.presale_account.info.fraction_mint,
        unlock.presale_account == opening.allocated().after().presale_account,
        unlock.signer.key == opening.signer.key,
        unlock.user_vesting_pda == opening.allocated().after().user_vesting_pda,
        unlock.vesting_account == opening.allocated().after().vesting_account,
        unlock.fraction_treasury.mint == unlock.presale_account.info.fraction_mint,
    ensures
        purchase.records_are_ours(),
        purchase.vesting_account.mint == purchase.fraction_treasury.mint,
        purchase.vesting_account.owner == purchase.user_vesting_pda.key,
        purchase.vesting_account.amount == 0,
        purchase.lock_is_bound(),
        vesting_authority_of(
            purchase.signer.key,
            purchase.presale_account.key,
            program_id(),
            vesting_pda_bump,
        ) == Some(purchase.user_vesting_pda.key@),
        unlock.records_are_ours(),
        unlock.vesting_account.mint == unlock.fraction_treasury.mint,
        unlock.vesting_account.owner == unlock.user_vesting_pda.key,
        unlock.lock_is_bound(),
        vesting_authority_of(
            unlock.signer.key,
            unlock.presale_account.key,
            program_id(),
            vesting_pda_bump,
        ) == Some(unlock.user_vesting_pda.key@),
{
}

/// A buyer has one lock in a presale. Where the opening of a lock was taken,
/// a later opening for the same buyer in the same presale is refused, if the
/// place that the first one took is shown to it as taken: either it is given
/// that place, which is in use, or another, which is not the buyer's place.
pub proof fn lemma_second_lock_is_refused(
    first: InitVesting,
    first_bump: u8,
    second: InitVesting,
    second_bump: u8,
)
    requires
        first.violation(first_bump) is None,
        second.signer.key == first.signer.key,
        second.presale_account.key == first.presale_account.key,
        second.user_vesting_pda.key == first.user_vesting_pda.key ==> second.user_vesting_pda.owner
            == first.allocated().after().user_vesting_pda.owner,
    ensures
        second.violation(second_bump) is Some,
        verdict(second.violation(second_bump), None) matches Some(Rejection::Binding(_)),
{
    lemma_program_is_not_system();
    if second.user_vesting_pda.key != first.user_vesting_pda.key {
        crate::address::lemma_address_by_bytes(
            second.user_vesting_pda.key,
            first.user_vesting_pda.key,
        );
    }
}

/// A collection from an empty payment treasury is taken and asks nothing of
/// the ledger, so that every balance stays as it is.
pub proof fn lemma_empty_collection_moves_nothing(
    ctx: CollectFunds,
    pda_bump: u8,
    account: TokenAccount,
)
    requires
        ctx.payment_treasury.amount == 0,
    ensures
        ctx.transfers(pda_bump) == Seq::<Transfer>::empty(),
        account.covers_all(ctx.transfers(pda_bump)),
        account.after_all(ctx.transfers(pda_bump)) == account,
{
}

/// A fraction treasury that is not the one the presale records is refused by
/// every operation that is given one, as a failure of the accounts: no rule
/// is consulted, nothing is asked of the ledger and nothing changes.
pub proof fn lemma_foreign_fraction_treasury_is_refused(
    funding: AddFractions,
    defunding: RemoveFractions,
    opening: InitVesting,
    purchase: PurchaseFractions,
    unlock: UnlockFractions,
    pda_bump: u8,
    vesting_pda_bump: u8,
    broken: Option<PresaleError>,
)
    ensures
        funding.fraction_treasury.key != funding.presale_account.info.fraction_treasury ==> verdict(
            funding.violation(pda_bump),
            broken,
        ) matches Some(Rejection::Binding(_)),
        defunding.fraction_treasury.key != defunding.presale_account.info.fraction_treasury
            ==> verdict(defunding.violation(pda_bump), broken) matches Some(Rejection::Binding(_)),
        opening.fraction_treasury.key != opening.presale_account.info.fraction_treasury
            ==> verdict(opening.violation(vesting_pda_bump), broken) matches Some(
            Rejection::Binding(_),
        ),
        purchase.fraction_treasury.key != purchase.presale_account.info.fraction_treasury
            ==> verdict(purchase.violation(pda_bump, vesting_pda_bump), broken) matches Some(
            Rejection::Binding(_),
        ),
        unlock.fraction_treasury.key != unlock.presale_account.info.fraction_treasury ==> verdict(
            unlock.violation(vesting_pda_bump),
            broken,
        ) matches Some(Rejection::Binding(_)),
{
}

} // verus!
