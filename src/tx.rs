use vstd::prelude::*;

use vstd::string::StringSliceAdditionalSpecFns;

use crate::call_value::{TokenTransferView, TxInput, TxPanic};
use crate::ledger::{
    balance_of, dct_transfer_ok, dct_transferred, moax_transfer_ok, moax_transferred, AccountView, Ledger,
    LedgerError, LedgerView,
};

verus! {

/// Status code of a failure raised by the ledger during a call.
pub const EXECUTION_FAILED_STATUS: u64 = 10;

/// The terminal outcome that contract logic reports for its frame.
#[derive(Clone, Copy, Debug, PartialEq, Eq, Structural)]
pub enum StateChange {
    Commit,
    Revert,
}

/// Block context that contract logic can read.
#[derive(Clone, Copy, Debug, PartialEq, Eq, Structural)]
pub struct BlockInfo {
    pub epoch: u64,
    pub nonce: u64,
    pub timestamp: u64,
    pub round: u64,
}

/// The observable state of the simulator: the live ledger, the ledger as it
/// was when each open frame began (outermost first), and the open frames.
pub struct MockView {
    pub ledger: LedgerView,
    pub saved: Seq<LedgerView>,
    pub frames: Seq<TxInput>,
    pub block: BlockInfo,
}

/// The ledger after the token transfers `ts` from `from` to `to`, made in
/// order, or `None` when one of them cannot be made.
pub open spec fn dct_transfers_applied(
    m: LedgerView,
    from: Seq<u8>,
    to: Seq<u8>,
    ts: Seq<TokenTransferView>,
) -> Option<LedgerView>
    decreases ts.len(),
{
    if ts.len() == 0 {
        Some(m)
    } else {
        match dct_transfers_applied(m, from, to, ts.drop_last()) {
            Some(m1) => {
                let t = ts.last();
                if dct_transfer_ok(m1, from, to, t.token_identifier, t.nonce, t.value) {
                    Some(dct_transferred(m1, from, to, t.token_identifier, t.nonce, t.value))
                } else {
                    None
                }
            },
            None => None,
        }
    }
}

/// The ledger once the value a call carries has moved from caller to
/// target: native value first, then each token transfer in order.
pub open spec fn call_transfers_applied(m: LedgerView, input: TxInput) -> Option<LedgerView> {
    if input.moax_value == 0 {
        dct_transfers_applied(m, input.from@, input.to@, input.transfers())
    } else if moax_transfer_ok(m, input.from@, input.to@, input.moax_value) {
        dct_transfers_applied(
            moax_transferred(m, input.from@, input.to@, input.moax_value),
            input.from@,
            input.to@,
            input.transfers(),
        )
    } else {
        None
    }
}

/// A frame for `input` was opened on `pre`, giving `post`.
pub open spec fn call_began(pre: MockView, input: TxInput, post: MockView) -> bool {
    &&& call_transfers_applied(pre.ledger, input) == Some(post.ledger)
    &&& post.saved == pre.saved.push(pre.ledger)
    &&& post.frames == pre.frames.push(input)
    &&& post.block == pre.block
}

/// The innermost frame of `pre` committed: its effects stay, provisionally
/// while an enclosing frame is open.
pub open spec fn call_committed(pre: MockView, post: MockView) -> bool {
    &&& pre.saved.len() > 0
    &&& post.ledger == pre.ledger
    &&& post.saved == pre.saved.drop_last()
    &&& post.frames == pre.frames.drop_last()
    &&& post.block == pre.block
}

/// The innermost frame of `pre` reverted: the ledger is back to what it was
/// when that frame began.
pub open spec fn call_reverted(pre: MockView, post: MockView) -> bool {
    &&& pre.saved.len() > 0
    &&& post.ledger == pre.saved.last()
    &&& post.saved == pre.saved.drop_last()
    &&& post.frames == pre.frames.drop_last()
    &&& post.block == pre.block
}

/// Contract logic changed the ledger only: the frames are as they were.
pub open spec fn ledger_step(pre: MockView, post: MockView) -> bool {
    &&& post.saved == pre.saved
    &&& post.frames == pre.frames
    &&& post.block == pre.block
}

/// The in-process blockchain: a ledger, the block context, and the stack of
/// open call frames with the snapshot taken when each began.
pub struct BlockchainMock {
    ledger: Ledger,
    block: BlockInfo,
    snapshots: Vec<Ledger>,
    frames: Vec<TxInput>,
}

pub const INSUFFICIENT_FUNDS_MESSAGE: &'static str = "insufficient funds";

pub const BALANCE_OVERFLOW_MESSAGE: &'static str = "balance overflow";

pub const ACCOUNT_EXISTS_MESSAGE: &'static str = "account already exists";

pub const ROLE_VIOLATION_MESSAGE: &'static str = "action is not allowed";

pub const NONCE_OVERFLOW_MESSAGE: &'static str = "nonce overflow";

/// The message reported for a ledger failure.
pub open spec fn failure_message(e: LedgerError) -> Seq<u8> {
    match e {
        LedgerError::InsufficientFunds => INSUFFICIENT_FUNDS_MESSAGE.spec_bytes(),
        LedgerError::BalanceOverflow => BALANCE_OVERFLOW_MESSAGE.spec_bytes(),
        LedgerError::AccountExists => ACCOUNT_EXISTS_MESSAGE.spec_bytes(),
        LedgerError::RoleViolation => ROLE_VIOLATION_MESSAGE.spec_bytes(),
        LedgerError::NonceOverflow => NONCE_OVERFLOW_MESSAGE.spec_bytes(),
    }
}

/// Converts a ledger failure into the failure of the call it happened in.
pub fn panic_of(e: LedgerError) -> (r: TxPanic)
    ensures
        r.status == EXECUTION_FAILED_STATUS,
        r.message@ == failure_message(e),
{
    let message = match e {
        LedgerError::InsufficientFunds => INSUFFICIENT_FUNDS_MESSAGE,
        LedgerError::BalanceOverflow => BALANCE_OVERFLOW_MESSAGE,
        LedgerError::AccountExists => ACCOUNT_EXISTS_MESSAGE,
        LedgerError::RoleViolation => ROLE_VIOLATION_MESSAGE,
        LedgerError::NonceOverflow => NONCE_OVERFLOW_MESSAGE,
    };
    TxPanic { status: EXECUTION_FAILED_STATUS, message: message.as_bytes_vec() }
}

impl BlockchainMock {
    pub closed spec fn saved(&self) -> Seq<LedgerView> {
        self.snapshots@.map_values(|l: Ledger| l@)
    }

    pub closed spec fn frames(&self) -> Seq<TxInput> {
        self.frames@
    }

    pub closed spec fn view(&self) -> MockView {
        MockView { ledger: self.ledger@, saved: self.saved(), frames: self.frames(), block: self.block }
    }

    pub closed spec fn wf(&self) -> bool {
        &&& self.ledger.wf()
        &&& self.snapshots@.len() == self.frames@.len()
        &&& forall|i: int| 0 <= i < self.snapshots@.len() ==> (#[trigger] self.snapshots@[i]).wf()
    }

    pub fn new() -> (r: BlockchainMock)
        ensures
            r.wf(),
            r.view().ledger == Map::<Seq<u8>, AccountView>::empty(),
            r.view().saved.len() == 0,
            r.view().frames.len() == 0,
            r.view().block == (BlockInfo { epoch: 0, nonce: 0, timestamp: 0, round: 0 }),
    {
        let r = BlockchainMock {
            ledger: Ledger::new(),
            block: BlockInfo { epoch: 0, nonce: 0, timestamp: 0, round: 0 },
            snapshots: Vec::new(),
            frames: Vec::new(),
        };
        assert(r.saved() =~= Seq::<LedgerView>::empty());
        r
    }

    pub fn ledger(&self) -> (r: &Ledger)
        requires
            self.wf(),
        ensures
            r.wf(),
            r@ == self.view().ledger,
    {
        &self.ledger
    }

    /// The live ledger, for contract logic and the test driver to change.
    pub fn ledger_mut(&mut self) -> (r: &mut Ledger)
        requires
            old(self).wf(),
        ensures
            r.wf(),
            r@ == old(self).view().ledger,
            final(r).wf() ==> final(self).wf(),
            final(self).view() == (MockView { ledger: final(r)@, ..old(self).view() }),
    {
        &mut self.ledger
    }

    pub fn block_info(&self) -> (r: BlockInfo)
        ensures
            r == self.view().block,
    {
        self.block
    }

    /// Sets the block context read by contract logic.
    pub fn set_block_info(&mut self, block: BlockInfo)
        ensures
            final(self).view() == (MockView { block, ..old(self).view() }),
            old(self).wf() ==> final(self).wf(),
    {
        self.block = block;
    }

    /// Number of open call frames.
    pub fn depth(&self) -> (r: usize)
        requires
            self.wf(),
        ensures
            r == self.view().frames.len(),
            r == self.view().saved.len(),
    {
        self.frames.len()
    }

    /// Input of the innermost open frame, which the call-value accessors read.
    pub fn current_input(&self) -> (r: &TxInput)
        requires
            self.wf(),
            self.view().frames.len() > 0,
        ensures
            *r == self.view().frames.last(),
    {
        &self.frames[self.frames.len() - 1]
    }

    fn apply_dct_transfers(ledger: &mut Ledger, input: &TxInput) -> (r: Result<(), LedgerError>)
        requires
            old(ledger).wf(),
        ensures
            final(ledger).wf(),
            r is Ok ==> dct_transfers_applied(old(ledger)@, input.from@, input.to@, input.transfers())
                == Some(final(ledger)@),
            r is Err ==> dct_transfers_applied(old(ledger)@, input.from@, input.to@, input.transfers())
                is None,
            r is Err ==> r == Err::<(), LedgerError>(LedgerError::InsufficientFunds) || r == Err::<
                (),
                LedgerError,
            >(LedgerError::BalanceOverflow),
    {
        let ghost m0 = old(ledger)@;
        let mut i: usize = 0;
        while i < input.dct_values.len()
            invariant
                ledger.wf(),
                m0 == old(ledger)@,
                i <= input.dct_values@.len(),
                dct_transfers_applied(m0, input.from@, input.to@, input.transfers().take(i as int))
                    == Some(ledger@),
            decreases input.dct_values@.len() - i,
        {
            let t = &input.dct_values[i];
            let ghost ts = input.transfers().take(i as int + 1);
            assert(ts.drop_last() =~= input.transfers().take(i as int));
            assert(ts.last() == t@);
            let res = ledger.transfer_dct(&input.from, &input.to, &t.token_identifier, t.nonce, t.value);
            if res.is_err() {
                proof {
                    assert(!dct_transfer_ok(ledger@, input.from@, input.to@, t@.token_identifier, t@.nonce, t@.value));
                    assert(dct_transfers_applied(m0, input.from@, input.to@, ts) is None);
                    lemma_failed_prefix(m0, input.from@, input.to@, input.transfers(), i as int + 1);
                }
                return res;
            }
            i = i + 1;
        }
        assert(input.transfers().take(i as int) =~= input.transfers());
        Ok(())
    }

    /// Opens a frame for `input`: snapshots the ledger, then moves the value
    /// the call carries from caller to target. When a transfer cannot be
    /// made nothing changes and the failure is returned.
    pub fn begin_call(&mut self, input: TxInput) -> (r: Result<(), TxPanic>)
        requires
            old(self).wf(),
        ensures
            final(self).wf(),
            r is Ok <==> call_transfers_applied(old(self).view().ledger, input) is Some,
            r is Ok ==> call_began(old(self).view(), input, final(self).view()),
            r is Err ==> final(self).view() == old(self).view(),
            r matches Err(p) ==> p.status == EXECUTION_FAILED_STATUS && (p.message@
                == failure_message(LedgerError::InsufficientFunds) || p.message@
                == failure_message(LedgerError::BalanceOverflow)),
            input.moax_value > balance_of(old(self).view().ledger, input.from@) ==> (r matches Err(p)
                && p.message@ == failure_message(LedgerError::InsufficientFunds)),
    {
        let snapshot = self.ledger.snapshot();
        if input.moax_value > 0 {
            match self.ledger.transfer_moax(&input.from, &input.to, input.moax_value) {
                Ok(()) => {},
                Err(e) => {
                    return Err(panic_of(e));
                },
            }
        }
        match Self::apply_dct_transfers(&mut self.ledger, &input) {
            Ok(()) => {},
            Err(e) => {
                self.ledger = snapshot;
                return Err(panic_of(e));
            },
        }
        self.snapshots.push(snapshot);
        self.frames.push(input);
        proof {
            assert(self.saved() =~= old(self).saved().push(old(self).ledger@));
        }
        Ok(())
    }

    /// Closes the innermost frame keeping its effects.
    pub fn commit_call(&mut self)
        requires
            old(self).wf(),
            old(self).view().frames.len() > 0,
        ensures
            final(self).wf(),
            call_committed(old(self).view(), final(self).view()),
    {
        self.snapshots.pop();
        self.frames.pop();
        proof {
            assert(self.saved() =~= old(self).saved().drop_last());
        }
    }

    /// Closes the innermost frame undoing everything since it began.
    pub fn revert_call(&mut self)
        requires
            old(self).wf(),
            old(self).view().frames.len() > 0,
        ensures
            final(self).wf(),
            call_reverted(old(self).view(), final(self).view()),
    {
        match self.snapshots.pop() {
            Some(l) => {
                self.ledger = l;
            },
            None => {},
        }
        self.frames.pop();
        proof {
            assert(self.saved() =~= old(self).saved().drop_last());
        }
    }

    /// Closes the innermost frame with the outcome its logic reported.
    pub fn end_call(&mut self, change: StateChange)
        requires
            old(self).wf(),
            old(self).view().frames.len() > 0,
        ensures
            final(self).wf(),
            change == StateChange::Commit ==> call_committed(old(self).view(), final(self).view()),
            change == StateChange::Revert ==> call_reverted(old(self).view(), final(self).view()),
    {
        match change {
            StateChange::Commit => self.commit_call(),
            StateChange::Revert => self.revert_call(),
        }
    }

    /// Fail-fast path: undoes every open frame, back to the ledger as it was
    /// before the outermost one began, and hands the failure on to the driver.
    pub fn abort_transaction(&mut self, p: TxPanic) -> (r: TxPanic)
        requires
            old(self).wf(),
        ensures
            final(self).wf(),
            r == p,
            final(self).view().frames.len() == 0,
            final(self).view().saved.len() == 0,
            old(self).view().saved.len() > 0 ==> final(self).view().ledger
                == old(self).view().saved[0],
            old(self).view().saved.len() == 0 ==> final(self).view().ledger
                == old(self).view().ledger,
            final(self).view().block == old(self).view().block,
    {
        if self.snapshots.len() > 0 {
            let l = self.snapshots.swap_remove(0);
            self.ledger = l;
        }
        self.snapshots.clear();
        self.frames.clear();
        proof {
            assert(self.saved() =~= Seq::<LedgerView>::empty());
        }
        p
    }
}

/// Once one transfer of a prefix fails, the whole sequence fails.
proof fn lemma_failed_prefix(
    m: LedgerView,
    from: Seq<u8>,
    to: Seq<u8>,
    ts: Seq<TokenTransferView>,
    k: int,
)
    requires
        0 <= k <= ts.len(),
        dct_transfers_applied(m, from, to, ts.take(k)) is None,
    ensures
        dct_transfers_applied(m, from, to, ts) is None,
    decreases ts.len() - k,
{
    if k < ts.len() {
        let next = ts.take(k + 1);
        assert(next.drop_last() =~= ts.take(k));
        lemma_failed_prefix(m, from, to, ts, k + 1);
    } else {
        assert(ts.take(k) =~= ts);
    }
}

} // verus!
