use vstd::prelude::*;

use crate::call_value::TxInput;
use crate::ledger::{
    balance_of, dct_balance_of, dct_transfer_ok, dct_transferred, last_nonce_of, nft_created,
    AccountView, LedgerView,
};
use crate::tx::{
    call_began, call_committed, call_reverted, dct_transfers_applied, ledger_step, MockView,
};

verus! {

/// A committed call from `a` to a distinct `b` that carries `v` native units
/// and no token: `a` ends with `v` less, `b` with `v` more, every other
/// balance is unchanged, so the sum of all balances is kept.
pub proof fn law_committed_transfer(s0: MockView, input: TxInput, s1: MockView, s2: MockView)
    requires
        input.from@ != input.to@,
        input.dct_values@.len() == 0,
        call_began(s0, input, s1),
        call_committed(s1, s2),
    ensures
        balance_of(s2.ledger, input.from@) == balance_of(s0.ledger, input.from@) - input.moax_value,
        balance_of(s2.ledger, input.to@) == balance_of(s0.ledger, input.to@) + input.moax_value,
        balance_of(s2.ledger, input.from@) + balance_of(s2.ledger, input.to@) == balance_of(
            s0.ledger,
            input.from@,
        ) + balance_of(s0.ledger, input.to@),
        forall|c: Seq<u8>|
            c != input.from@ && c != input.to@ ==> balance_of(s2.ledger, c) == balance_of(
                s0.ledger,
                c,
            ),
{
    assert(input.transfers().len() == 0);
    assert(forall|m: LedgerView|
        dct_transfers_applied(m, input.from@, input.to@, input.transfers()) == Some(m));
}

/// Opening a frame, changing the ledger in any way, and reverting leaves the
/// ledger (balances, tokens, storage) and the frames exactly as before.
pub proof fn law_revert_restores(
    s0: MockView,
    input: TxInput,
    s1: MockView,
    s2: MockView,
    s3: MockView,
)
    requires
        call_began(s0, input, s1),
        ledger_step(s1, s2),
        call_reverted(s2, s3),
    ensures
        s3 == s0,
{
    assert(s3.saved =~= s0.saved);
    assert(s3.frames =~= s0.frames);
}

/// An inner frame's commit is provisional: when the enclosing frame reverts
/// afterwards, the inner frame's changes are undone with its own.
pub proof fn law_inner_commit_provisional(
    s0: MockView,
    outer: TxInput,
    s1: MockView,
    inner: TxInput,
    s2: MockView,
    s3: MockView,
    s4: MockView,
    s5: MockView,
    s6: MockView,
)
    requires
        call_began(s0, outer, s1),
        call_began(s1, inner, s2),
        ledger_step(s2, s3),
        call_committed(s3, s4),
        ledger_step(s4, s5),
        call_reverted(s5, s6),
    ensures
        s6 == s0,
{
    assert(s4.saved =~= s1.saved);
    assert(s4.frames =~= s1.frames);
    assert(s6.saved =~= s0.saved);
    assert(s6.frames =~= s0.frames);
}

/// NFT nonces of one (address, token) pair start at 1 and grow by one with
/// each creation for that pair, whatever is created for other pairs between.
pub proof fn law_nft_nonces(
    s0: LedgerView,
    a: Seq<u8>,
    t: Seq<u8>,
    amount: u128,
    attributes: Seq<u8>,
    other_a: Seq<u8>,
    other_t: Seq<u8>,
    other_amount: u128,
    other_attributes: Seq<u8>,
)
    requires
        last_nonce_of(s0, a, t) < u64::MAX,
        other_a != a || other_t != t,
    ensures
        last_nonce_of(Map::<Seq<u8>, AccountView>::empty(), a, t) == 0,
        last_nonce_of(nft_created(s0, a, t, amount, attributes), a, t) == last_nonce_of(s0, a, t)
            + 1,
        last_nonce_of(nft_created(s0, other_a, other_t, other_amount, other_attributes), a, t)
            == last_nonce_of(s0, a, t),
{
}

/// A token transfer of `v` units of (`t`, `n`) between distinct accounts
/// debits the sender by `v`, credits the receiver by `v`, and leaves every
/// other holding of any token as it was.
pub proof fn law_token_transfer(
    m: LedgerView,
    from: Seq<u8>,
    to: Seq<u8>,
    t: Seq<u8>,
    n: u64,
    v: u128,
)
    requires
        from != to,
        dct_transfer_ok(m, from, to, t, n, v),
    ensures
        dct_balance_of(dct_transferred(m, from, to, t, n, v), from, t, n) == dct_balance_of(
            m,
            from,
            t,
            n,
        ) - v,
        dct_balance_of(dct_transferred(m, from, to, t, n, v), to, t, n) == dct_balance_of(
            m,
            to,
            t,
            n,
        ) + v,
        forall|c: Seq<u8>, t2: Seq<u8>, n2: u64|
            (c != from && c != to) || t2 != t || n2 != n ==> dct_balance_of(
                dct_transferred(m, from, to, t, n, v),
                c,
                t2,
                n2,
            ) == dct_balance_of(m, c, t2, n2),
{
}

} // verus!
