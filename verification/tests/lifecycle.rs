use anchor_lang::prelude::Pubkey;
use fraction_presale::account::{id, system_id, PresaleAccount, Signer, TokenAccount, VestingAccount};
use fraction_presale::address::Address;
use fraction_presale::errors::{PresaleError, Rejection};
use fraction_presale::instructions::{
    AddFractions, CollectFunds, InitVesting, InitializePresale, PurchaseFractions,
    RemoveFractions, StartPresale, UnlockFractions,
};
use fraction_presale::state::{PresaleInfo, VestingInfo};
use fraction_presale::transfer::{Authorizer, Transfer};
use fraction_presale::{
    add_fractions_for_sale, collect_funds, init_vesting_account, initialize_presale,
    purchase_fractions, remove_fractions_for_sale, start_presale, unlock_fractions,
};

fn key(n: u8) -> Address {
    Address::new([n; 32])
}

fn derive(seeds: &[&[u8]]) -> (Address, u8) {
    let program = Pubkey::new_from_array(id().bytes);
    let (k, bump) = Pubkey::find_program_address(seeds, &program);
    (Address::new(k.to_bytes()), bump)
}

/// Everything on the ledger that the presale touches.
struct Ledger {
    presale: PresaleAccount,
    lock: VestingAccount,
    presale_pda: Address,
    presale_bump: u8,
    vesting_bump: u8,
    fraction_treasury: TokenAccount,
    payment_treasury: TokenAccount,
    access_treasury: TokenAccount,
    authority_fractions: TokenAccount,
    authority_payments: TokenAccount,
    buyer_payments: TokenAccount,
    buyer_access: TokenAccount,
    buyer_fractions: TokenAccount,
    buyer_vesting: TokenAccount,
}

impl Ledger {
    fn carry_out(&mut self, ts: &[Transfer]) {
        for t in ts {
            for account in [
                &mut self.fraction_treasury,
                &mut self.payment_treasury,
                &mut self.access_treasury,
                &mut self.authority_fractions,
                &mut self.authority_payments,
                &mut self.buyer_payments,
                &mut self.buyer_access,
                &mut self.buyer_fractions,
                &mut self.buyer_vesting,
            ] {
                assert!(account.settle(t));
            }
        }
    }

    fn authority(&self) -> Signer {
        Signer { key: key(2), is_signer: true }
    }

    fn buyer(&self) -> Signer {
        Signer { key: key(3), is_signer: true }
    }

    fn fund(&mut self, amount: u64) -> Result<(), Rejection> {
        let ctx = AddFractions {
            presale_account: self.presale,
            fraction_treasury: self.fraction_treasury,
            payment_treasury: self.payment_treasury,
            from_account: self.authority_fractions,
            presale_pda: self.presale_pda,
            authority: self.authority(),
        };
        let ts = add_fractions_for_sale(&ctx, self.presale_bump, amount)?;
        self.carry_out(&ts);
        Ok(())
    }

    fn defund(&mut self, amount: u64) -> Result<(), Rejection> {
        let ctx = RemoveFractions {
            presale_account: self.presale,
            fraction_treasury: self.fraction_treasury,
            payment_treasury: self.payment_treasury,
            to_account: self.authority_fractions,
            presale_pda: self.presale_pda,
            authority: self.authority(),
        };
        let ts = remove_fractions_for_sale(&ctx, self.presale_bump, amount)?;
        self.carry_out(&ts);
        Ok(())
    }

    fn start(&mut self, now: i64) -> Result<(), Rejection> {
        let mut ctx = StartPresale { presale_account: self.presale, authority: self.authority() };
        start_presale(&mut ctx, now)?;
        self.presale = ctx.presale_account;
        Ok(())
    }

    fn open_lock(&mut self) -> Result<(), Rejection> {
        let mut ctx = InitVesting {
            presale_account: self.presale,
            fraction_treasury: self.fraction_treasury,
            payment_treasury: self.payment_treasury,
            vesting_account: self.buyer_vesting,
            user_vesting_pda: self.lock,
            fraction_mint: key(10),
            signer: self.buyer(),
        };
        init_vesting_account(&mut ctx, self.vesting_bump)?;
        self.lock = ctx.user_vesting_pda;
        self.buyer_vesting = ctx.vesting_account;
        Ok(())
    }

    fn buy(&mut self, amount: u64, now: i64) -> Result<(), Rejection> {
        let mut ctx = PurchaseFractions {
            presale_account: self.presale,
            fraction_treasury: self.fraction_treasury,
            payment_treasury: self.payment_treasury,
            access_treasury: self.access_treasury,
            from_account: self.buyer_payments,
            vesting_account: self.buyer_vesting,
            user_vesting_pda: self.lock,
            presale_pda: self.presale_pda,
            access_account: self.buyer_access,
            signer: self.buyer(),
        };
        let ts = purchase_fractions(&mut ctx, self.presale_bump, self.vesting_bump, amount, now)?;
        self.carry_out(&ts);
        self.presale = ctx.presale_account;
        Ok(())
    }

    fn collect(&mut self) -> Result<usize, Rejection> {
        let ctx = CollectFunds {
            presale_account: self.presale,
            payment_treasury: self.payment_treasury,
            to_account: self.authority_payments,
            presale_pda: self.presale_pda,
            authority: self.authority(),
        };
        let ts = collect_funds(&ctx, self.presale_bump)?;
        self.carry_out(&ts);
        Ok(ts.len())
    }

    fn unlock(&mut self, now: i64) -> Result<(), Rejection> {
        let ctx = UnlockFractions {
            presale_account: self.presale,
            fraction_treasury: self.fraction_treasury,
            payment_treasury: self.payment_treasury,
            to_account: self.buyer_fractions,
            vesting_account: self.buyer_vesting,
            user_vesting_pda: self.lock,
            signer: self.buyer(),
        };
        let ts = unlock_fractions(&ctx, self.vesting_bump, now)?;
        self.carry_out(&ts);
        Ok(())
    }
}

fn blank() -> PresaleInfo {
    PresaleInfo {
        fraction_treasury: key(0),
        payment_treasury: key(0),
        access_treasury: key(0),
        authority: key(0),
        fractions_sold: 0,
        fraction_mint: key(0),
        payment_mint: key(0),
        access_mint: key(0),
        price: 0,
        max_amount: 0,
        presale_start: 0,
        started: false,
        presale_end: 0,
        vesting_end: 0,
    }
}

fn created(price: u64, max_amount: u64) -> Ledger {
    let (presale_pda, presale_bump) = derive(&[b"presale", &[1u8; 32], &id().bytes]);
    let (place, vesting_bump) = derive(&[b"vesting", &[3u8; 32], &[1u8; 32], &id().bytes]);
    let empty = |at: u8| TokenAccount { key: key(at), mint: key(0), owner: key(0), amount: 0 };
    let mut ctx = InitializePresale {
        presale_account: PresaleAccount { key: key(1), owner: system_id(), info: blank() },
        access_treasury: empty(22),
        fraction_treasury: empty(20),
        payment_treasury: empty(21),
        presale_pda,
        fraction_mint: key(10),
        payment_mint: key(11),
        access_mint: key(12),
        authority: Signer { key: key(2), is_signer: true },
    };
    initialize_presale(&mut ctx, presale_bump, price, max_amount, 2_000, 3_000).unwrap();
    Ledger {
        presale: ctx.presale_account,
        lock: VestingAccount {
            key: place,
            owner: system_id(),
            info: VestingInfo { signer: key(0), vesting_account: key(0) },
        },
        presale_pda,
        presale_bump,
        vesting_bump,
        fraction_treasury: ctx.fraction_treasury,
        payment_treasury: ctx.payment_treasury,
        access_treasury: ctx.access_treasury,
        authority_fractions: TokenAccount { key: key(30), mint: key(10), owner: key(2), amount: 1_000 },
        authority_payments: TokenAccount { key: key(31), mint: key(11), owner: key(2), amount: 0 },
        buyer_payments: TokenAccount { key: key(40), mint: key(11), owner: key(3), amount: 10_000 },
        buyer_access: TokenAccount { key: key(41), mint: key(12), owner: key(3), amount: 3 },
        buyer_fractions: TokenAccount { key: key(42), mint: key(10), owner: key(3), amount: 0 },
        buyer_vesting: empty(43),
    }
}

#[test]
fn a_presale_from_creation_to_unlock() {
    let mut l = created(2_000_000_000, 100);
    assert_eq!(l.presale.owner, id());
    assert_eq!(l.fraction_treasury.owner, l.presale_pda);

    l.fund(300).unwrap();
    l.defund(100).unwrap();
    assert_eq!(l.fraction_treasury.amount, 200);
    assert_eq!(l.authority_fractions.amount, 800);

    l.open_lock().unwrap();
    assert_eq!(l.buy(5, 1_500), Err(Rejection::Presale(PresaleError::PresaleHasNotStarted)));
    l.start(1_000).unwrap();
    assert_eq!(l.presale.info.presale_start, 1_000);

    l.buy(5, 1_500).unwrap();
    l.buy(100, 1_600).unwrap();
    assert_eq!(l.presale.info.fractions_sold, 105);
    assert_eq!(l.fraction_treasury.amount, 95);
    assert_eq!(l.buyer_vesting.amount, 105);
    assert_eq!(l.buyer_payments.amount, 10_000 - 10 - 200);
    assert_eq!(l.payment_treasury.amount, 210);
    assert_eq!(l.buyer_access.amount, 1);
    assert_eq!(l.access_treasury.amount, 2);

    l.buy(1, 1_700).unwrap();
    assert_eq!(l.buy(1, 1_800), Err(Rejection::Presale(PresaleError::MissingAccessToken)));
    assert_eq!(l.presale.info.fractions_sold, 106);

    assert_eq!(l.collect(), Ok(1));
    assert_eq!(l.authority_payments.amount, 212);
    assert_eq!(l.payment_treasury.amount, 0);
    assert_eq!(l.collect(), Ok(0));
    assert_eq!(l.authority_payments.amount, 212);

    assert_eq!(l.unlock(2_999), Err(Rejection::Presale(PresaleError::VestingPeriodNotFinished)));
    l.unlock(3_000).unwrap();
    assert_eq!(l.buyer_vesting.amount, 0);
    assert_eq!(l.buyer_fractions.amount, 106);
    assert_eq!(l.unlock(3_001), Err(Rejection::Presale(PresaleError::VestingAccountIsEmpty)));
}

#[test]
fn sold_is_what_was_bought_and_within_what_was_funded() {
    let mut l = created(1_000_000_000, 50);
    l.buyer_access.amount = 100;
    l.open_lock().unwrap();
    l.start(10).unwrap();
    let mut funded: u64 = 0;
    let mut defunded: u64 = 0;
    let mut bought: u64 = 0;
    for round in 1..=20u64 {
        if l.fund(round * 3).is_ok() {
            funded += round * 3;
        }
        if l.buy(round * 2, 100).is_ok() {
            bought += round * 2;
        }
        if round % 4 == 0 && l.defund(round).is_ok() {
            defunded += round;
        }
        assert_eq!(l.presale.info.fractions_sold, bought);
        assert!(bought <= funded - defunded);
        assert_eq!(bought + l.fraction_treasury.amount, funded - defunded);
    }
    assert!(bought > 0 && defunded > 0);
}

#[test]
fn the_terms_of_a_presale_never_change() {
    let mut l = created(2_000_000_000, 100);
    let terms = l.presale.info;
    l.fund(300).unwrap();
    l.open_lock().unwrap();
    l.start(1_000).unwrap();
    l.buy(5, 1_500).unwrap();
    l.defund(10).unwrap();
    l.collect().unwrap();
    l.unlock(3_000).unwrap();
    assert_eq!(
        l.presale.info,
        PresaleInfo { started: true, presale_start: 1_000, fractions_sold: 5, ..terms }
    );
}

#[test]
fn a_refused_transfer_leaves_the_balance_alone() {
    let mut account = TokenAccount { key: key(1), mint: key(10), owner: key(2), amount: 5 };
    let out = Transfer {
        from: key(1),
        to: key(9),
        authority: key(2),
        amount: 6,
        authorizer: Authorizer::Owner,
    };
    assert!(!account.settle(&out));
    assert_eq!(account.amount, 5);
    let full = Transfer { from: key(9), to: key(1), amount: u64::MAX, ..out };
    assert!(!account.settle(&full));
    assert_eq!(account.amount, 5);
    let to_itself = Transfer { from: key(1), to: key(1), amount: 5, ..out };
    assert!(account.settle(&to_itself));
    assert_eq!(account.amount, 5);
    let too_much_to_itself = Transfer { amount: 6, ..to_itself };
    assert!(!account.settle(&too_much_to_itself));
    let elsewhere = Transfer { from: key(8), to: key(9), ..out };
    assert!(account.settle(&elsewhere));
    assert_eq!(account.amount, 5);
    assert!(account.settle(&Transfer { amount: 5, ..out }));
    assert_eq!(account.amount, 0);
}
