//! What the borrowing protocol's operations keep of a position: borrows stay
//! below the loan-to-value limit, withdrawals leave the borrows covered, the
//! protocol's totals move with the positions, and a repayment undoes a
//! borrow.
use vstd::prelude::*;
use crate::pubkey::Pubkey;
use crate::cbs_protocol::{
    credit, deposit_fits, deposited_config, deposited_total, deposited_user, repay_target,
    sol_deposit_recorded, sol_deposited, total_borrowed_of, with_total_borrowed, Config,
    cleared, liquidation_transfers, push_nonzero, with_deposited_total,
    borrow_done, borrow_fits, borrow_target, borrowed_of, borrowed_value, collateral_price, collateral_value,
    held, lp_price, with_borrowed, with_held, withdraw_limit, withdraw_sol_done, withdraw_sol_fits,
    withdraw_target, withdraw_token_done, withdraw_token_fits, within_ltv, valuation_fits, BorrowLpToken,
    Collateral, ErrorCode, LpToken, Prices, UserAccount, WithdrawSOL, WithdrawToken, DOMINATOR, LTV,
};

verus! {

/// Setting the borrowed amount of `t` to `v` changes the debt's value by the
/// change in that amount at `t`'s price, and leaves the collateral alone.
pub proof fn lemma_with_borrowed_value(u: UserAccount, p: Prices, t: LpToken, v: u64)
    ensures
        borrowed_value(with_borrowed(u, t, v), p) == borrowed_value(u, p) + lp_price(p, t) * v - lp_price(p, t)
            * borrowed_of(u, t),
        collateral_value(with_borrowed(u, t, v), p) == collateral_value(u, p),
{
}

/// A borrow that goes through leaves the collateral as it was, adds exactly
/// the value lent to the debt, and keeps the debt strictly below `LTV`
/// percent of the collateral.
pub proof fn borrow_stays_within_ltv(
    pre: BorrowLpToken,
    post: BorrowLpToken,
    amount: u64,
    p: Prices,
    program_authority: Option<Pubkey>,
    r: Result<(), ErrorCode>,
)
    requires
        borrow_fits(pre.user_account, pre.config, p, pre.collateral_mint, amount),
        borrow_done(pre, post, amount, p, program_authority, r),
        r is Ok,
    ensures
        borrow_target(pre.config, pre.collateral_mint) is Some,
        collateral_value(post.user_account, p) == collateral_value(pre.user_account, p),
        borrowed_value(post.user_account, p) == borrowed_value(pre.user_account, p) + amount * lp_price(
            p,
            borrow_target(pre.config, pre.collateral_mint)->0,
        ),
        borrowed_value(post.user_account, p) < collateral_value(post.user_account, p) * LTV / (DOMINATOR as int),
{
    let t = borrow_target(pre.config, pre.collateral_mint)->0;
    let u = pre.user_account;
    let b = borrowed_of(u, t);
    lemma_with_borrowed_value(u, p, t, (b + amount) as u64);
    vstd::arithmetic::mul::lemma_mul_is_distributive_add(lp_price(p, t) as int, b as int, amount as int);
    vstd::arithmetic::mul::lemma_mul_is_commutative(lp_price(p, t) as int, amount as int);
}

/// Setting the deposited amount of `a` to `v` changes the collateral's value
/// by the change in that amount at `a`'s price, and leaves the debt alone.
pub proof fn lemma_with_held_value(u: UserAccount, p: Prices, a: Collateral, v: u64)
    ensures
        collateral_value(with_held(u, a, v), p) == collateral_value(u, p) + collateral_price(p, a) * v
            - collateral_price(p, a) * held(u, a),
        borrowed_value(with_held(u, a, v), p) == borrowed_value(u, p),
{
}

/// Taking `amount` units priced `price` out of a covered position, where
/// `amount` is at most its withdrawal limit at that price, leaves collateral
/// worth at least what its borrows need at `LTV`.
proof fn lemma_within_limit(u: UserAccount, p: Prices, price: u128, amount: u64)
    requires
        valuation_fits(u, p),
        within_ltv(u, p),
        price != 0,
        amount <= (withdraw_limit(u, p, price) as u64),
    ensures
        collateral_value(u, p) - price * amount >= borrowed_value(u, p) * DOMINATOR / (LTV as int),
{
    let c = collateral_value(u, p);
    let b = borrowed_value(u, p);
    let reserve = b * DOMINATOR / (LTV as int);
    vstd::arithmetic::div_mod::lemma_div_is_ordered(b * DOMINATOR, c * LTV, LTV as int);
    vstd::arithmetic::mul::lemma_mul_is_commutative(c, LTV as int);
    vstd::arithmetic::div_mod::lemma_div_multiples_vanish(c, LTV as int);
    assert(reserve <= c);
    let free = c - reserve;
    let limit = withdraw_limit(u, p, price);
    assert(limit == free / (price as int));
    vstd::arithmetic::div_mod::lemma_div_pos_is_pos(free, price as int);
    if limit <= u64::MAX {
        assert((limit as u64) == limit);
    }
    assert(amount <= limit);
    vstd::arithmetic::div_mod::lemma_fundamental_div_mod(free, price as int);
    vstd::arithmetic::div_mod::lemma_mod_pos_bound(free, price as int);
    assert(price * amount <= free) by (nonlinear_arith)
        requires
            amount <= limit,
            0 <= amount,
            0 < price,
            free == price * limit + free % (price as int),
            0 <= free % (price as int),
    ;
}

/// A SOL withdrawal that goes through leaves the debt as it was, takes
/// exactly the value withdrawn off the collateral, and leaves collateral worth
/// at least what the borrows need at `LTV`.
pub proof fn withdraw_sol_keeps_borrows_covered(
    pre: WithdrawSOL,
    post: WithdrawSOL,
    amount: u64,
    p: Prices,
    r: Result<(), ErrorCode>,
)
    requires
        withdraw_sol_fits(pre.user_account, pre.config, p, amount),
        withdraw_sol_done(pre, post, amount, p, r),
        r is Ok,
    ensures
        borrowed_value(post.user_account, p) == borrowed_value(pre.user_account, p),
        collateral_value(post.user_account, p) == collateral_value(pre.user_account, p) - p.sol * amount,
        collateral_value(post.user_account, p) >= borrowed_value(post.user_account, p) * DOMINATOR
            / (LTV as int),
{
    let u = pre.user_account;
    lemma_within_limit(u, p, p.sol, amount);
    vstd::arithmetic::mul::lemma_mul_is_distributive_sub(p.sol as int, u.sol_amount as int, amount as int);
}

/// A token withdrawal that goes through leaves the debt as it was, takes
/// exactly the value withdrawn off the collateral, and leaves collateral worth
/// at least what the borrows need at `LTV`.
pub proof fn withdraw_token_keeps_borrows_covered(
    pre: WithdrawToken,
    post: WithdrawToken,
    amount: u64,
    p: Prices,
    program_authority: Option<Pubkey>,
    r: Result<(), ErrorCode>,
)
    requires
        withdraw_token_fits(pre.user_account, pre.config, p, pre.dest_mint, amount),
        withdraw_token_done(pre, post, amount, p, program_authority, r),
        r is Ok,
    ensures
        withdraw_target(pre.config, pre.dest_mint) is Some,
        amount <= held(pre.user_account, withdraw_target(pre.config, pre.dest_mint)->0),
        borrowed_value(post.user_account, p) == borrowed_value(pre.user_account, p),
        collateral_value(post.user_account, p) == collateral_value(pre.user_account, p) - collateral_price(
            p,
            withdraw_target(pre.config, pre.dest_mint)->0,
        ) * amount,
        collateral_value(post.user_account, p) >= borrowed_value(post.user_account, p) * DOMINATOR
            / (LTV as int),
{
    let u = pre.user_account;
    let a = withdraw_target(pre.config, pre.dest_mint)->0;
    let price = collateral_price(p, a);
    lemma_within_limit(u, p, price, amount);
    lemma_with_held_value(u, p, a, (held(u, a) - amount) as u64);
    vstd::arithmetic::mul::lemma_mul_is_distributive_sub(price as int, held(u, a) as int, amount as int);
}

/// The protocol's totals less one position's amounts are the same before and
/// after: whatever the position gained or lost, the totals gained or lost
/// too, asset by asset.
pub open spec fn books_move_together(u0: UserAccount, c0: Config, u1: UserAccount, c1: Config) -> bool {
    &&& forall|a: Collateral| #[trigger] deposited_total(c1, a) - held(u1, a)
        == deposited_total(c0, a) - held(u0, a)
    &&& c1.total_deposited_sol - u1.sol_amount == c0.total_deposited_sol - u0.sol_amount
    &&& forall|t: LpToken| #[trigger] total_borrowed_of(c1, t) - borrowed_of(u1, t)
        == total_borrowed_of(c0, t) - borrowed_of(u0, t)
}

/// A token deposit raises the position's amounts and the protocol's totals
/// alike.
pub proof fn deposit_moves_books_together(u: UserAccount, c: Config, mint: Pubkey, amount: u64)
    requires
        deposit_fits(u, c, mint, amount),
    ensures
        books_move_together(u, c, deposited_user(u, c, mint, amount), deposited_config(c, mint, amount)),
{
    reveal(credit);
    let u1 = deposited_user(u, c, mint, amount);
    let c1 = deposited_config(c, mint, amount);
    assert forall|a: Collateral| #[trigger] deposited_total(c1, a) - held(u1, a) == deposited_total(c, a) - held(u, a) by {
        match a {
            Collateral::Usdc => {},
            Collateral::Msol => {},
            Collateral::Eth => {},
            Collateral::Btc => {},
            Collateral::Ust => {},
            Collateral::Srm => {},
            Collateral::Scnsol => {},
            Collateral::Stsol => {},
            Collateral::Usdt => {},
            Collateral::Lpbtc => {},
            Collateral::Lpeth => {},
            Collateral::Lpusd => {},
            Collateral::Lpsol => {},
        }
    }
}

/// A SOL deposit raises the position's SOL and the protocol's SOL total
/// alike.
pub proof fn deposit_sol_moves_books_together(u: UserAccount, c: Config, amount: u64)
    requires
        u.sol_amount + amount <= u64::MAX,
        c.total_deposited_sol + amount <= u64::MAX,
    ensures
        books_move_together(u, c, sol_deposited(u, amount), sol_deposit_recorded(c, amount)),
{
}

/// A borrow that goes through raises the position's debt and the protocol's
/// borrowed total alike.
pub proof fn borrow_moves_books_together(
    pre: BorrowLpToken,
    post: BorrowLpToken,
    amount: u64,
    p: Prices,
    program_authority: Option<Pubkey>,
    r: Result<(), ErrorCode>,
)
    requires
        borrow_fits(pre.user_account, pre.config, p, pre.collateral_mint, amount),
        borrow_done(pre, post, amount, p, program_authority, r),
    ensures
        books_move_together(pre.user_account, pre.config, post.user_account, post.config),
{
}

/// A SOL withdrawal that goes through lowers the position's SOL and the
/// protocol's SOL total alike.
pub proof fn withdraw_sol_moves_books_together(
    pre: WithdrawSOL,
    post: WithdrawSOL,
    amount: u64,
    p: Prices,
    r: Result<(), ErrorCode>,
)
    requires
        withdraw_sol_fits(pre.user_account, pre.config, p, amount),
        withdraw_sol_done(pre, post, amount, p, r),
    ensures
        books_move_together(pre.user_account, pre.config, post.user_account, post.config),
{
    if r is Ok {
        lemma_within_limit(pre.user_account, p, p.sol, amount);
    }
}

/// A token withdrawal that goes through lowers the position's amount and the
/// protocol's total of that token alike.
pub proof fn withdraw_token_moves_books_together(
    pre: WithdrawToken,
    post: WithdrawToken,
    amount: u64,
    p: Prices,
    program_authority: Option<Pubkey>,
    r: Result<(), ErrorCode>,
)
    requires
        withdraw_token_fits(pre.user_account, pre.config, p, pre.dest_mint, amount),
        withdraw_token_done(pre, post, amount, p, program_authority, r),
    ensures
        books_move_together(pre.user_account, pre.config, post.user_account, post.config),
{
    let u0 = pre.user_account;
    let c0 = pre.config;
    let u1 = post.user_account;
    let c1 = post.config;
    assert forall|a: Collateral| #[trigger] deposited_total(c1, a) - held(u1, a) == deposited_total(c0, a) - held(u0, a) by {
        match a {
            Collateral::Usdc => {},
            Collateral::Msol => {},
            Collateral::Eth => {},
            Collateral::Btc => {},
            Collateral::Ust => {},
            Collateral::Srm => {},
            Collateral::Scnsol => {},
            Collateral::Stsol => {},
            Collateral::Usdt => {},
            Collateral::Lpbtc => {},
            Collateral::Lpeth => {},
            Collateral::Lpusd => {},
            Collateral::Lpsol => {},
        }
    }
}

/// A repayment lowers the position's debt and the protocol's borrowed total
/// of the repaid token alike.
pub proof fn repay_moves_books_together(u: UserAccount, c: Config, t: LpToken, amount: u64)
    requires
        amount <= borrowed_of(u, t),
        amount <= total_borrowed_of(c, t),
    ensures
        books_move_together(
            u,
            c,
            with_borrowed(u, t, (borrowed_of(u, t) - amount) as u64),
            with_total_borrowed(c, t, (total_borrowed_of(c, t) - amount) as u64),
        ),
{
}

/// Repaying what a borrow lent, in the same token, gives back the position
/// and configuration the borrow started from.
pub proof fn repay_undoes_borrow(u: UserAccount, c: Config, t: LpToken, amount: u64)
    requires
        borrowed_of(u, t) + amount <= u64::MAX,
        total_borrowed_of(c, t) + amount <= u64::MAX,
    ensures
        ({
            let u1 = with_borrowed(u, t, (borrowed_of(u, t) + amount) as u64);
            let c1 = with_total_borrowed(c, t, (total_borrowed_of(c, t) + amount) as u64);
            &&& with_borrowed(u1, t, (borrowed_of(u1, t) - amount) as u64) == u
            &&& with_total_borrowed(c1, t, (total_borrowed_of(c1, t) - amount) as u64) == c
        }),
{
}

/// `s` lists, once each and with the amount held, exactly the assets of
/// `done` that the position holds some of.
pub open spec fn lists_holdings(u: UserAccount, s: Seq<(Collateral, u64)>, done: Set<Collateral>) -> bool {
    &&& forall|i: int| 0 <= i < s.len() ==> {
        &&& s[i].1 == held(u, s[i].0)
        &&& s[i].1 > 0
        &&& done.contains(s[i].0)
    }
    &&& forall|i: int, j: int| 0 <= i < j < s.len() ==> s[i].0 != s[j].0
    &&& forall|a: Collateral| done.contains(a) && held(u, a) > 0 ==> exists|i: int| 0 <= i < s.len() && s[i].0 == a
}

/// Appending a further asset's holding keeps the list exact.
proof fn lemma_push_holding(u: UserAccount, s: Seq<(Collateral, u64)>, done: Set<Collateral>, a: Collateral)
    requires
        lists_holdings(u, s, done),
        !done.contains(a),
    ensures
        lists_holdings(u, push_nonzero(s, a, held(u, a)), done.insert(a)),
{
    let s1 = push_nonzero(s, a, held(u, a));
    let done1 = done.insert(a);
    assert forall|b: Collateral| done1.contains(b) && held(u, b) > 0 implies exists|i: int|
        0 <= i < s1.len() && s1[i].0 == b by {
        if b == a {
            assert(s1[s.len() as int].0 == b);
        } else {
            let i = choose|i: int| 0 <= i < s.len() && s[i].0 == b;
            assert(s1[i].0 == b);
        }
    }
}

/// A liquidation hands over every token the position holds some of, once,
/// with exactly the amount held, and nothing else; the emptied position is
/// worth nothing and owes nothing at any prices.
pub proof fn liquidation_hands_over_holdings(u: UserAccount, p: Prices)
    ensures
        ({
            let s = liquidation_transfers(u);
            &&& forall|i: int| 0 <= i < s.len() ==> s[i].1 == held(u, s[i].0) && s[i].1 > 0
            &&& forall|i: int, j: int| 0 <= i < j < s.len() ==> s[i].0 != s[j].0
            &&& forall|a: Collateral| held(u, a) > 0 ==> exists|i: int| 0 <= i < s.len() && s[i].0 == a
        }),
        collateral_value(cleared(u), p) == 0,
        borrowed_value(cleared(u), p) == 0,
{
    let s0 = Seq::<(Collateral, u64)>::empty();
    let d0 = Set::<Collateral>::empty();
    let s1 = push_nonzero(s0, Collateral::Lpusd, held(u, Collateral::Lpusd));
    let d1 = d0.insert(Collateral::Lpusd);
    lemma_push_holding(u, s0, d0, Collateral::Lpusd);
    let s2 = push_nonzero(s1, Collateral::Lpsol, held(u, Collateral::Lpsol));
    let d2 = d1.insert(Collateral::Lpsol);
    lemma_push_holding(u, s1, d1, Collateral::Lpsol);
    let s3 = push_nonzero(s2, Collateral::Lpbtc, held(u, Collateral::Lpbtc));
    let d3 = d2.insert(Collateral::Lpbtc);
    lemma_push_holding(u, s2, d2, Collateral::Lpbtc);
    let s4 = push_nonzero(s3, Collateral::Lpeth, held(u, Collateral::Lpeth));
    let d4 = d3.insert(Collateral::Lpeth);
    lemma_push_holding(u, s3, d3, Collateral::Lpeth);
    let s5 = push_nonzero(s4, Collateral::Msol, held(u, Collateral::Msol));
    let d5 = d4.insert(Collateral::Msol);
    lemma_push_holding(u, s4, d4, Collateral::Msol);
    let s6 = push_nonzero(s5, Collateral::Btc, held(u, Collateral::Btc));
    let d6 = d5.insert(Collateral::Btc);
    lemma_push_holding(u, s5, d5, Collateral::Btc);
    let s7 = push_nonzero(s6, Collateral::Usdc, held(u, Collateral::Usdc));
    let d7 = d6.insert(Collateral::Usdc);
    lemma_push_holding(u, s6, d6, Collateral::Usdc);
    let s8 = push_nonzero(s7, Collateral::Eth, held(u, Collateral::Eth));
    let d8 = d7.insert(Collateral::Eth);
    lemma_push_holding(u, s7, d7, Collateral::Eth);
    let s9 = push_nonzero(s8, Collateral::Ust, held(u, Collateral::Ust));
    let d9 = d8.insert(Collateral::Ust);
    lemma_push_holding(u, s8, d8, Collateral::Ust);
    let s10 = push_nonzero(s9, Collateral::Srm, held(u, Collateral::Srm));
    let d10 = d9.insert(Collateral::Srm);
    lemma_push_holding(u, s9, d9, Collateral::Srm);
    let s11 = push_nonzero(s10, Collateral::Scnsol, held(u, Collateral::Scnsol));
    let d11 = d10.insert(Collateral::Scnsol);
    lemma_push_holding(u, s10, d10, Collateral::Scnsol);
    let s12 = push_nonzero(s11, Collateral::Stsol, held(u, Collateral::Stsol));
    let d12 = d11.insert(Collateral::Stsol);
    lemma_push_holding(u, s11, d11, Collateral::Stsol);
    let s13 = push_nonzero(s12, Collateral::Usdt, held(u, Collateral::Usdt));
    let d13 = d12.insert(Collateral::Usdt);
    lemma_push_holding(u, s12, d12, Collateral::Usdt);
    assert(s13 == liquidation_transfers(u));
    assert forall|a: Collateral| d13.contains(a) by {
        match a {
            Collateral::Usdc => {},
            Collateral::Msol => {},
            Collateral::Eth => {},
            Collateral::Btc => {},
            Collateral::Ust => {},
            Collateral::Srm => {},
            Collateral::Scnsol => {},
            Collateral::Stsol => {},
            Collateral::Usdt => {},
            Collateral::Lpbtc => {},
            Collateral::Lpeth => {},
            Collateral::Lpusd => {},
            Collateral::Lpsol => {},
        }
    }
    assert forall|a: Collateral| held(u, a) > 0 implies exists|i: int| 0 <= i < s13.len() && s13[i].0 == a by {
        assert(d13.contains(a));
    }
}

/// The configured mint of a collateral token.
pub open spec fn mint_of(c: Config, a: Collateral) -> Pubkey {
    match a {
        Collateral::Usdc => c.usdc_mint,
        Collateral::Msol => c.msol_mint,
        Collateral::Eth => c.eth_mint,
        Collateral::Btc => c.btc_mint,
        Collateral::Ust => c.ust_mint,
        Collateral::Srm => c.srm_mint,
        Collateral::Scnsol => c.scnsol_mint,
        Collateral::Stsol => c.stsol_mint,
        Collateral::Usdt => c.usdt_mint,
        Collateral::Lpbtc => c.lpbtc_mint,
        Collateral::Lpeth => c.lpeth_mint,
        Collateral::Lpusd => c.lpusd_mint,
        Collateral::Lpsol => c.lpsol_mint,
    }
}

/// No two collateral tokens share a configured mint.
pub open spec fn mints_distinct(c: Config) -> bool {
    forall|a: Collateral, b: Collateral| a != b ==> #[trigger] mint_of(c, a) != #[trigger] mint_of(c, b)
}

/// Withdrawing what a deposit just credited, in the same token, gives back
/// the position and the totals the deposit started from (where no two
/// collateral tokens share a mint).
pub proof fn withdrawal_undoes_deposit(u: UserAccount, c: Config, a: Collateral, amount: u64)
    requires
        mints_distinct(c),
        deposit_fits(u, c, mint_of(c, a), amount),
    ensures
        ({
            let m = mint_of(c, a);
            let u1 = deposited_user(u, c, m, amount);
            let c1 = deposited_config(c, m, amount);
            &&& withdraw_target(c1, m) == Some(a)
            &&& with_held(u1, a, (held(u1, a) - amount) as u64) == u
            &&& with_deposited_total(c1, a, (deposited_total(c1, a) - amount) as u64) == c
        }),
{
    reveal(credit);
    let m = mint_of(c, a);
    assert(mint_of(c, a) == m);
    assert(mint_of(c, Collateral::Usdc) == m <==> a == Collateral::Usdc);
    assert(mint_of(c, Collateral::Msol) == m <==> a == Collateral::Msol);
    assert(mint_of(c, Collateral::Eth) == m <==> a == Collateral::Eth);
    assert(mint_of(c, Collateral::Btc) == m <==> a == Collateral::Btc);
    assert(mint_of(c, Collateral::Ust) == m <==> a == Collateral::Ust);
    assert(mint_of(c, Collateral::Srm) == m <==> a == Collateral::Srm);
    assert(mint_of(c, Collateral::Scnsol) == m <==> a == Collateral::Scnsol);
    assert(mint_of(c, Collateral::Stsol) == m <==> a == Collateral::Stsol);
    assert(mint_of(c, Collateral::Usdt) == m <==> a == Collateral::Usdt);
    assert(mint_of(c, Collateral::Lpbtc) == m <==> a == Collateral::Lpbtc);
    assert(mint_of(c, Collateral::Lpeth) == m <==> a == Collateral::Lpeth);
    assert(mint_of(c, Collateral::Lpusd) == m <==> a == Collateral::Lpusd);
    assert(mint_of(c, Collateral::Lpsol) == m <==> a == Collateral::Lpsol);
}

} // verus!
