use vstd::prelude::*;

use crate::keyed::{bytes_equal, Duplicate, KeyedVec};

verus! {

/// The local roles an account may hold for one token.
#[derive(Clone, Copy, Debug, PartialEq, Eq, Structural)]
pub struct RoleSet {
    pub mint: bool,
    pub burn: bool,
    pub nft_create: bool,
    pub nft_add_quantity: bool,
    pub nft_burn: bool,
}

impl RoleSet {
    pub fn none() -> (r: RoleSet)
        ensures
            r == RoleSet::empty(),
    {
        RoleSet { mint: false, burn: false, nft_create: false, nft_add_quantity: false, nft_burn: false }
    }

    pub open spec fn empty() -> RoleSet {
        RoleSet { mint: false, burn: false, nft_create: false, nft_add_quantity: false, nft_burn: false }
    }
}

/// Failures of ledger operations.
#[derive(Clone, Copy, Debug, PartialEq, Eq, Structural)]
pub enum LedgerError {
    InsufficientFunds,
    BalanceOverflow,
    AccountExists,
    RoleViolation,
    NonceOverflow,
}

/// One unit (fungible when its nonce is 0) held by an account.
pub struct TokenInstance {
    pub amount: u128,
    pub attributes: Vec<u8>,
}

pub struct TokenInstanceView {
    pub amount: u128,
    pub attributes: Seq<u8>,
}

impl View for TokenInstance {
    type V = TokenInstanceView;

    open spec fn view(&self) -> TokenInstanceView {
        TokenInstanceView { amount: self.amount, attributes: self.attributes@ }
    }
}

impl Duplicate for TokenInstance {
    open spec fn inv(&self) -> bool {
        true
    }

    fn duplicate(&self) -> (r: TokenInstance) {
        TokenInstance { amount: self.amount, attributes: self.attributes.duplicate() }
    }
}

/// What an account holds of one token identifier.
pub struct TokenData {
    pub roles: RoleSet,
    pub last_nonce: u64,
    pub instances: KeyedVec<u64, TokenInstance>,
}

pub struct TokenDataView {
    pub roles: RoleSet,
    pub last_nonce: u64,
    pub instances: Map<u64, TokenInstanceView>,
}

impl View for TokenData {
    type V = TokenDataView;

    open spec fn view(&self) -> TokenDataView {
        TokenDataView { roles: self.roles, last_nonce: self.last_nonce, instances: self.instances@ }
    }
}

impl Duplicate for TokenData {
    open spec fn inv(&self) -> bool {
        self.instances.wf()
    }

    fn duplicate(&self) -> (r: TokenData) {
        TokenData {
            roles: self.roles,
            last_nonce: self.last_nonce,
            instances: self.instances.duplicate_map(),
        }
    }
}

/// The state of one address.
pub struct Account {
    pub nonce: u64,
    pub balance: u128,
    pub username: Vec<u8>,
    pub code: Vec<u8>,
    pub owner: Vec<u8>,
    pub storage: KeyedVec<Vec<u8>, Vec<u8>>,
    pub tokens: KeyedVec<Vec<u8>, TokenData>,
}

pub struct AccountView {
    pub nonce: u64,
    pub balance: u128,
    pub username: Seq<u8>,
    pub code: Seq<u8>,
    pub owner: Seq<u8>,
    pub storage: Map<Seq<u8>, Seq<u8>>,
    pub tokens: Map<Seq<u8>, TokenDataView>,
}

impl View for Account {
    type V = AccountView;

    open spec fn view(&self) -> AccountView {
        AccountView {
            nonce: self.nonce,
            balance: self.balance,
            username: self.username@,
            code: self.code@,
            owner: self.owner@,
            storage: self.storage@,
            tokens: self.tokens@,
        }
    }
}

impl Duplicate for Account {
    open spec fn inv(&self) -> bool {
        self.storage.wf() && self.tokens.wf()
    }

    fn duplicate(&self) -> (r: Account) {
        Account {
            nonce: self.nonce,
            balance: self.balance,
            username: self.username.duplicate(),
            code: self.code.duplicate(),
            owner: self.owner.duplicate(),
            storage: self.storage.duplicate_map(),
            tokens: self.tokens.duplicate_map(),
        }
    }
}

/// What the ledger holds: the state of each address that was referenced.
pub type LedgerView = Map<Seq<u8>, AccountView>;

pub open spec fn empty_token_view() -> TokenDataView {
    TokenDataView { roles: RoleSet::empty(), last_nonce: 0, instances: Map::empty() }
}

pub open spec fn empty_instance_view() -> TokenInstanceView {
    TokenInstanceView { amount: 0, attributes: Seq::empty() }
}

pub open spec fn empty_account_view() -> AccountView {
    AccountView {
        nonce: 0,
        balance: 0,
        username: Seq::empty(),
        code: Seq::empty(),
        owner: Seq::empty(),
        storage: Map::empty(),
        tokens: Map::empty(),
    }
}

/// The account at `a`, or the state of an address never referenced.
pub open spec fn account_or_empty(m: LedgerView, a: Seq<u8>) -> AccountView {
    if m.contains_key(a) {
        m[a]
    } else {
        empty_account_view()
    }
}

pub open spec fn token_or_empty(acc: AccountView, t: Seq<u8>) -> TokenDataView {
    if acc.tokens.contains_key(t) {
        acc.tokens[t]
    } else {
        empty_token_view()
    }
}

pub open spec fn instance_or_empty(td: TokenDataView, n: u64) -> TokenInstanceView {
    if td.instances.contains_key(n) {
        td.instances[n]
    } else {
        empty_instance_view()
    }
}

pub open spec fn balance_of(m: LedgerView, a: Seq<u8>) -> u128 {
    account_or_empty(m, a).balance
}

pub open spec fn dct_balance_of(
    m: LedgerView,
    a: Seq<u8>,
    t: Seq<u8>,
    n: u64,
) -> u128 {
    instance_or_empty(token_or_empty(account_or_empty(m, a), t), n).amount
}

pub open spec fn roles_of(m: LedgerView, a: Seq<u8>, t: Seq<u8>) -> RoleSet {
    token_or_empty(account_or_empty(m, a), t).roles
}

pub open spec fn storage_of(m: LedgerView, a: Seq<u8>, k: Seq<u8>) -> Seq<u8> {
    let acc = account_or_empty(m, a);
    if acc.storage.contains_key(k) {
        acc.storage[k]
    } else {
        Seq::empty()
    }
}

/// The ledger with the native balance of `a` set to `v`.
pub open spec fn with_balance(m: LedgerView, a: Seq<u8>, v: u128) -> LedgerView {
    m.insert(a, AccountView { balance: v, ..account_or_empty(m, a) })
}

/// The ledger with token data `td` for token `t` of account `a`.
pub open spec fn with_token(
    m: LedgerView,
    a: Seq<u8>,
    t: Seq<u8>,
    td: TokenDataView,
) -> LedgerView {
    let acc = account_or_empty(m, a);
    m.insert(a, AccountView { tokens: acc.tokens.insert(t, td), ..acc })
}

/// The ledger with instance `inst` at nonce `n` of token `t` of account `a`.
pub open spec fn with_instance(
    m: LedgerView,
    a: Seq<u8>,
    t: Seq<u8>,
    n: u64,
    inst: TokenInstanceView,
) -> LedgerView {
    let td = token_or_empty(account_or_empty(m, a), t);
    with_token(m, a, t, TokenDataView { instances: td.instances.insert(n, inst), ..td })
}

/// The ledger with the amount of (`t`, `n`) held by `a` set to `v`.
pub open spec fn with_dct_balance(
    m: LedgerView,
    a: Seq<u8>,
    t: Seq<u8>,
    n: u64,
    v: u128,
) -> LedgerView {
    let inst = instance_or_empty(token_or_empty(account_or_empty(m, a), t), n);
    with_instance(m, a, t, n, TokenInstanceView { amount: v, ..inst })
}

pub open spec fn with_storage(
    m: LedgerView,
    a: Seq<u8>,
    k: Seq<u8>,
    v: Seq<u8>,
) -> LedgerView {
    let acc = account_or_empty(m, a);
    m.insert(a, AccountView { storage: acc.storage.insert(k, v), ..acc })
}

pub open spec fn last_nonce_of(m: LedgerView, a: Seq<u8>, t: Seq<u8>) -> u64 {
    token_or_empty(account_or_empty(m, a), t).last_nonce
}

/// The ledger after a new instance of `t` is created for `a` at the next nonce.
pub open spec fn nft_created(
    m: LedgerView,
    a: Seq<u8>,
    t: Seq<u8>,
    amount: u128,
    attributes: Seq<u8>,
) -> LedgerView {
    let td = token_or_empty(account_or_empty(m, a), t);
    let nonce = (td.last_nonce + 1) as u64;
    with_token(
        m,
        a,
        t,
        TokenDataView {
            last_nonce: nonce,
            instances: td.instances.insert(
                nonce,
                TokenInstanceView { amount, attributes },
            ),
            ..td
        },
    )
}

/// Whether a native transfer can be made: funds suffice and the target
/// balance stays in range.
pub open spec fn moax_transfer_ok(m: LedgerView, from: Seq<u8>, to: Seq<u8>, v: u128) -> bool {
    &&& v <= balance_of(m, from)
    &&& (from == to || balance_of(m, to) + v <= u128::MAX)
}

/// The ledger after `v` native units moved from `from` to `to`.
pub open spec fn moax_transferred(m: LedgerView, from: Seq<u8>, to: Seq<u8>, v: u128) -> LedgerView {
    if from == to {
        m
    } else {
        let m1 = with_balance(m, from, (balance_of(m, from) - v) as u128);
        with_balance(m1, to, (balance_of(m, to) + v) as u128)
    }
}

/// Whether a token transfer can be made: funds suffice and the target
/// amount stays in range.
pub open spec fn dct_transfer_ok(
    m: LedgerView,
    from: Seq<u8>,
    to: Seq<u8>,
    t: Seq<u8>,
    n: u64,
    v: u128,
) -> bool {
    &&& v <= dct_balance_of(m, from, t, n)
    &&& (from == to || dct_balance_of(m, to, t, n) + v <= u128::MAX)
}

/// The ledger after `v` units of (`t`, `n`) moved from `from` to `to`.
pub open spec fn dct_transferred(
    m: LedgerView,
    from: Seq<u8>,
    to: Seq<u8>,
    t: Seq<u8>,
    n: u64,
    v: u128,
) -> LedgerView {
    if from == to {
        m
    } else {
        let m1 = with_dct_balance(m, from, t, n, (dct_balance_of(m, from, t, n) - v) as u128);
        with_dct_balance(m1, to, t, n, (dct_balance_of(m, to, t, n) + v) as u128)
    }
}

/// The role needed to mint units of a token under nonce `n`.
pub open spec fn may_mint(roles: RoleSet, n: u64) -> bool {
    if n == 0 {
        roles.mint
    } else {
        roles.nft_add_quantity
    }
}

/// The role needed to burn units of a token under nonce `n`.
pub open spec fn may_burn(roles: RoleSet, n: u64) -> bool {
    if n == 0 {
        roles.burn
    } else {
        roles.nft_burn
    }
}

impl Account {
    pub fn empty() -> (r: Account)
        ensures
            r.inv(),
            r@ == empty_account_view(),
    {
        Account {
            nonce: 0,
            balance: 0,
            username: Vec::new(),
            code: Vec::new(),
            owner: Vec::new(),
            storage: KeyedVec::new(),
            tokens: KeyedVec::new(),
        }
    }

    /// Removes the data of token `t` and hands it back (empty data if absent).
    fn take_token(&mut self, t: &Vec<u8>) -> (r: TokenData)
        requires
            old(self).inv(),
        ensures
            final(self).inv(),
            r.inv(),
            r@ == token_or_empty(old(self)@, t@),
            final(self)@ == (AccountView { tokens: old(self)@.tokens.remove(t@), ..old(self)@ }),
    {
        match self.tokens.take(t) {
            Some(td) => td,
            None => TokenData { roles: RoleSet::none(), last_nonce: 0, instances: KeyedVec::new() },
        }
    }
}

impl TokenData {
    fn take_instance(&mut self, n: u64) -> (r: TokenInstance)
        requires
            old(self).inv(),
        ensures
            final(self).inv(),
            r@ == instance_or_empty(old(self)@, n),
            final(self)@ == (TokenDataView {
                instances: old(self)@.instances.remove(n),
                ..old(self)@
            }),
    {
        match self.instances.take(&n) {
            Some(inst) => inst,
            None => TokenInstance { amount: 0, attributes: Vec::new() },
        }
    }
}

/// Every account of the simulated chain, by address.
pub struct Ledger {
    accounts: KeyedVec<Vec<u8>, Account>,
}

impl View for Ledger {
    type V = LedgerView;

    closed spec fn view(&self) -> LedgerView {
        self.accounts@
    }
}

impl Ledger {
    pub closed spec fn wf(&self) -> bool {
        self.accounts.wf()
    }

    pub fn new() -> (r: Ledger)
        ensures
            r.wf(),
            r@ == Map::<Seq<u8>, AccountView>::empty(),
    {
        Ledger { accounts: KeyedVec::new() }
    }

    /// A copy of the whole ledger, used as a snapshot.
    pub fn snapshot(&self) -> (r: Ledger)
        requires
            self.wf(),
        ensures
            r.wf(),
            r@ == self@,
    {
        Ledger { accounts: self.accounts.duplicate_map() }
    }

    fn take_account(&mut self, a: &Vec<u8>) -> (r: Account)
        requires
            old(self).wf(),
        ensures
            final(self).wf(),
            r.inv(),
            r@ == account_or_empty(old(self)@, a@),
            final(self)@ == old(self)@.remove(a@),
    {
        match self.accounts.take(a) {
            Some(acc) => acc,
            None => Account::empty(),
        }
    }

    fn put_account(&mut self, a: &Vec<u8>, acc: Account)
        requires
            old(self).wf(),
            acc.inv(),
        ensures
            final(self).wf(),
            final(self)@ == old(self)@.insert(a@, acc@),
    {
        self.accounts.insert(a.duplicate(), acc);
    }

    pub fn account_exists(&self, a: &Vec<u8>) -> (r: bool)
        requires
            self.wf(),
        ensures
            r == self@.contains_key(a@),
    {
        self.accounts.contains(a)
    }

    /// Creates a user account holding `balance`.
    pub fn create_user_account(&mut self, a: &Vec<u8>, balance: u128) -> (r: Result<
        (),
        LedgerError,
    >)
        requires
            old(self).wf(),
        ensures
            final(self).wf(),
            old(self)@.contains_key(a@) ==> r == Err::<(), LedgerError>(LedgerError::AccountExists)
                && final(self)@ == old(self)@,
            !old(self)@.contains_key(a@) ==> r is Ok && final(self)@ == old(self)@.insert(
                a@,
                AccountView { balance, ..empty_account_view() },
            ),
    {
        if self.accounts.contains(a) {
            return Err(LedgerError::AccountExists);
        }
        let mut acc = Account::empty();
        acc.balance = balance;
        self.put_account(a, acc);
        Ok(())
    }

    /// Deploys contract `code` at `a`, owned by `owner`. Deploying again over
    /// a contract replaces its code; over a user account it is refused.
    pub fn create_sc_account(
        &mut self,
        a: &Vec<u8>,
        balance: u128,
        owner: &Vec<u8>,
        code: &Vec<u8>,
    ) -> (r: Result<(), LedgerError>)
        requires
            old(self).wf(),
        ensures
            final(self).wf(),
            !old(self)@.contains_key(a@) ==> r is Ok && final(self)@ == old(self)@.insert(
                a@,
                AccountView { balance, code: code@, owner: owner@, ..empty_account_view() },
            ),
            old(self)@.contains_key(a@) && old(self)@[a@].code.len() > 0 ==> r is Ok
                && final(self)@ == old(self)@.insert(a@, AccountView { code: code@, ..old(self)@[a@] }),
            old(self)@.contains_key(a@) && old(self)@[a@].code.len() == 0 ==> r == Err::<
                (),
                LedgerError,
            >(LedgerError::AccountExists) && final(self)@ == old(self)@,
    {
        match self.accounts.get(a) {
            Some(acc) => {
                if acc.code.len() == 0 {
                    return Err(LedgerError::AccountExists);
                }
            },
            None => {},
        }
        let mut acc = self.take_account(a);
        if acc.code.len() == 0 {
            acc.balance = balance;
            acc.owner = owner.duplicate();
        }
        acc.code = code.duplicate();
        self.put_account(a, acc);
        proof {
            if old(self)@.contains_key(a@) {
                assert(self@ =~= old(self)@.insert(a@, AccountView { code: code@, ..old(self)@[a@] }));
            }
        }
        Ok(())
    }

    pub fn get_balance(&self, a: &Vec<u8>) -> (r: u128)
        requires
            self.wf(),
        ensures
            r == balance_of(self@, a@),
    {
        match self.accounts.get(a) {
            Some(acc) => acc.balance,
            None => 0,
        }
    }

    /// Sets the native balance of `a`, creating the account if needed.
    pub fn set_balance(&mut self, a: &Vec<u8>, v: u128)
        requires
            old(self).wf(),
        ensures
            final(self).wf(),
            final(self)@ == with_balance(old(self)@, a@, v),
    {
        let mut acc = self.take_account(a);
        acc.balance = v;
        self.put_account(a, acc);
        proof {
            assert(self@ =~= with_balance(old(self)@, a@, v));
        }
    }

    pub fn add_to_balance(&mut self, a: &Vec<u8>, v: u128) -> (r: Result<(), LedgerError>)
        requires
            old(self).wf(),
        ensures
            final(self).wf(),
            balance_of(old(self)@, a@) + v <= u128::MAX ==> r is Ok && final(self)@
                == with_balance(old(self)@, a@, (balance_of(old(self)@, a@) + v) as u128),
            balance_of(old(self)@, a@) + v > u128::MAX ==> r == Err::<(), LedgerError>(
                LedgerError::BalanceOverflow,
            ) && final(self)@ == old(self)@,
    {
        let b = self.get_balance(a);
        if b > u128::MAX - v {
            return Err(LedgerError::BalanceOverflow);
        }
        self.set_balance(a, b + v);
        Ok(())
    }

    pub fn subtract_from_balance(&mut self, a: &Vec<u8>, v: u128) -> (r: Result<(), LedgerError>)
        requires
            old(self).wf(),
        ensures
            final(self).wf(),
            v <= balance_of(old(self)@, a@) ==> r is Ok && final(self)@ == with_balance(
                old(self)@,
                a@,
                (balance_of(old(self)@, a@) - v) as u128,
            ),
            v > balance_of(old(self)@, a@) ==> r == Err::<(), LedgerError>(
                LedgerError::InsufficientFunds,
            ) && final(self)@ == old(self)@,
    {
        let b = self.get_balance(a);
        if v > b {
            return Err(LedgerError::InsufficientFunds);
        }
        self.set_balance(a, b - v);
        Ok(())
    }

    /// Moves `v` native units from `from` to `to`.
    pub fn transfer_moax(&mut self, from: &Vec<u8>, to: &Vec<u8>, v: u128) -> (r: Result<
        (),
        LedgerError,
    >)
        requires
            old(self).wf(),
        ensures
            final(self).wf(),
            r is Ok <==> moax_transfer_ok(old(self)@, from@, to@, v),
            r is Ok ==> final(self)@ == moax_transferred(old(self)@, from@, to@, v),
            v > balance_of(old(self)@, from@) ==> r == Err::<(), LedgerError>(
                LedgerError::InsufficientFunds,
            ),
            v <= balance_of(old(self)@, from@) && r is Err ==> r == Err::<(), LedgerError>(
                LedgerError::BalanceOverflow,
            ),
            r is Err ==> final(self)@ == old(self)@,
    {
        let fb = self.get_balance(from);
        if v > fb {
            return Err(LedgerError::InsufficientFunds);
        }
        if bytes_equal(from, to) {
            return Ok(());
        }
        let tb = self.get_balance(to);
        if tb > u128::MAX - v {
            return Err(LedgerError::BalanceOverflow);
        }
        self.set_balance(from, fb - v);
        self.set_balance(to, tb + v);
        Ok(())
    }

    pub fn get_dct_balance(&self, a: &Vec<u8>, t: &Vec<u8>, n: u64) -> (r: u128)
        requires
            self.wf(),
        ensures
            r == dct_balance_of(self@, a@, t@, n),
    {
        match self.accounts.get(a) {
            Some(acc) => match acc.tokens.get(t) {
                Some(td) => match td.instances.get(&n) {
                    Some(inst) => inst.amount,
                    None => 0,
                },
                None => 0,
            },
            None => 0,
        }
    }

    pub fn get_roles(&self, a: &Vec<u8>, t: &Vec<u8>) -> (r: RoleSet)
        requires
            self.wf(),
        ensures
            r == roles_of(self@, a@, t@),
    {
        match self.accounts.get(a) {
            Some(acc) => match acc.tokens.get(t) {
                Some(td) => td.roles,
                None => RoleSet::none(),
            },
            None => RoleSet::none(),
        }
    }

    /// Sets the amount of token `t` with nonce `n` held by `a`.
    pub fn set_dct_balance(&mut self, a: &Vec<u8>, t: &Vec<u8>, n: u64, v: u128)
        requires
            old(self).wf(),
        ensures
            final(self).wf(),
            final(self)@ == with_dct_balance(old(self)@, a@, t@, n, v),
    {
        let ghost acc0 = account_or_empty(self@, a@);
        let ghost td0 = token_or_empty(acc0, t@);
        let mut acc = self.take_account(a);
        let mut td = acc.take_token(t);
        let mut inst = td.take_instance(n);
        inst.amount = v;
        td.instances.insert(n, inst);
        assert(td@.instances =~= td0.instances.insert(n, inst@));
        acc.tokens.insert(t.duplicate(), td);
        assert(acc@.tokens =~= acc0.tokens.insert(t@, td@));
        self.put_account(a, acc);
        proof {
            assert(self@ =~= with_dct_balance(old(self)@, a@, t@, n, v));
        }
    }

    pub fn add_dct_balance(&mut self, a: &Vec<u8>, t: &Vec<u8>, n: u64, v: u128) -> (r: Result<
        (),
        LedgerError,
    >)
        requires
            old(self).wf(),
        ensures
            final(self).wf(),
            dct_balance_of(old(self)@, a@, t@, n) + v <= u128::MAX ==> r is Ok && final(self)@
                == with_dct_balance(
                old(self)@,
                a@,
                t@,
                n,
                (dct_balance_of(old(self)@, a@, t@, n) + v) as u128,
            ),
            dct_balance_of(old(self)@, a@, t@, n) + v > u128::MAX ==> r == Err::<(), LedgerError>(
                LedgerError::BalanceOverflow,
            ) && final(self)@ == old(self)@,
    {
        let b = self.get_dct_balance(a, t, n);
        if b > u128::MAX - v {
            return Err(LedgerError::BalanceOverflow);
        }
        self.set_dct_balance(a, t, n, b + v);
        Ok(())
    }

    pub fn subtract_dct_balance(&mut self, a: &Vec<u8>, t: &Vec<u8>, n: u64, v: u128) -> (r:
        Result<(), LedgerError>)
        requires
            old(self).wf(),
        ensures
            final(self).wf(),
            v <= dct_balance_of(old(self)@, a@, t@, n) ==> r is Ok && final(self)@
                == with_dct_balance(
                old(self)@,
                a@,
                t@,
                n,
                (dct_balance_of(old(self)@, a@, t@, n) - v) as u128,
            ),
            v > dct_balance_of(old(self)@, a@, t@, n) ==> r == Err::<(), LedgerError>(
                LedgerError::InsufficientFunds,
            ) && final(self)@ == old(self)@,
    {
        let b = self.get_dct_balance(a, t, n);
        if v > b {
            return Err(LedgerError::InsufficientFunds);
        }
        self.set_dct_balance(a, t, n, b - v);
        Ok(())
    }

    /// Moves `v` units of (`t`, `n`) from `from` to `to`.
    pub fn transfer_dct(
        &mut self,
        from: &Vec<u8>,
        to: &Vec<u8>,
        t: &Vec<u8>,
        n: u64,
        v: u128,
    ) -> (r: Result<(), LedgerError>)
        requires
            old(self).wf(),
        ensures
            final(self).wf(),
            r is Ok <==> dct_transfer_ok(old(self)@, from@, to@, t@, n, v),
            r is Ok ==> final(self)@ == dct_transferred(old(self)@, from@, to@, t@, n, v),
            v > dct_balance_of(old(self)@, from@, t@, n) ==> r == Err::<(), LedgerError>(
                LedgerError::InsufficientFunds,
            ),
            r is Err ==> final(self)@ == old(self)@,
            v <= dct_balance_of(old(self)@, from@, t@, n) && r is Err ==> r == Err::<(), LedgerError>(
                LedgerError::BalanceOverflow,
            ),
    {
        let fb = self.get_dct_balance(from, t, n);
        if v > fb {
            return Err(LedgerError::InsufficientFunds);
        }
        if bytes_equal(from, to) {
            return Ok(());
        }
        let tb = self.get_dct_balance(to, t, n);
        if tb > u128::MAX - v {
            return Err(LedgerError::BalanceOverflow);
        }
        self.set_dct_balance(from, t, n, fb - v);
        self.set_dct_balance(to, t, n, tb + v);
        Ok(())
    }

    /// Grants `a` exactly the roles `roles` for token `t`.
    pub fn set_roles(&mut self, a: &Vec<u8>, t: &Vec<u8>, roles: RoleSet)
        requires
            old(self).wf(),
        ensures
            final(self).wf(),
            final(self)@ == with_token(
                old(self)@,
                a@,
                t@,
                TokenDataView { roles, ..token_or_empty(account_or_empty(old(self)@, a@), t@) },
            ),
    {
        let ghost acc0 = account_or_empty(self@, a@);
        let mut acc = self.take_account(a);
        let mut td = acc.take_token(t);
        td.roles = roles;
        acc.tokens.insert(t.duplicate(), td);
        assert(acc@.tokens =~= acc0.tokens.insert(t@, td@));
        self.put_account(a, acc);
        proof {
            assert(self@ =~= with_token(
                old(self)@,
                a@,
                t@,
                TokenDataView { roles, ..token_or_empty(account_or_empty(old(self)@, a@), t@) },
            ));
        }
    }

    /// Creates a new instance of token `t` for `a`, under the next nonce of
    /// that (address, token) pair, and returns the nonce.
    pub fn create_nft(&mut self, a: &Vec<u8>, t: &Vec<u8>, amount: u128, attributes: &Vec<u8>) -> (r:
        Result<u64, LedgerError>)
        requires
            old(self).wf(),
        ensures
            final(self).wf(),
            !roles_of(old(self)@, a@, t@).nft_create ==> r == Err::<u64, LedgerError>(
                LedgerError::RoleViolation,
            ),
            roles_of(old(self)@, a@, t@).nft_create && last_nonce_of(old(self)@, a@, t@) == u64::MAX
                ==> r == Err::<u64, LedgerError>(LedgerError::NonceOverflow),
            r is Err ==> final(self)@ == old(self)@,
            roles_of(old(self)@, a@, t@).nft_create && last_nonce_of(old(self)@, a@, t@) < u64::MAX
                ==> r == Ok::<u64, LedgerError>((last_nonce_of(old(self)@, a@, t@) + 1) as u64)
                && final(self)@ == nft_created(old(self)@, a@, t@, amount, attributes@),
    {
        let roles = self.get_roles(a, t);
        if !roles.nft_create {
            return Err(LedgerError::RoleViolation);
        }
        let ghost acc0 = account_or_empty(self@, a@);
        let ghost td0 = token_or_empty(acc0, t@);
        if self.last_nonce(a, t) == u64::MAX {
            return Err(LedgerError::NonceOverflow);
        }
        let mut acc = self.take_account(a);
        let mut td = acc.take_token(t);
        let nonce = td.last_nonce + 1;
        td.last_nonce = nonce;
        td.instances.insert(nonce, TokenInstance { amount, attributes: attributes.duplicate() });
        assert(td@.instances =~= td0.instances.insert(nonce, TokenInstanceView { amount, attributes: attributes@ }));
        acc.tokens.insert(t.duplicate(), td);
        assert(acc@.tokens =~= acc0.tokens.insert(t@, td@));
        self.put_account(a, acc);
        proof {
            assert(self@ =~= nft_created(old(self)@, a@, t@, amount, attributes@));
        }
        Ok(nonce)
    }

    pub fn last_nonce(&self, a: &Vec<u8>, t: &Vec<u8>) -> (r: u64)
        requires
            self.wf(),
        ensures
            r == last_nonce_of(self@, a@, t@),
    {
        match self.accounts.get(a) {
            Some(acc) => match acc.tokens.get(t) {
                Some(td) => td.last_nonce,
                None => 0,
            },
            None => 0,
        }
    }

    /// The value stored under `k` by `a` (empty when never set).
    pub fn get_storage(&self, a: &Vec<u8>, k: &Vec<u8>) -> (r: Vec<u8>)
        requires
            self.wf(),
        ensures
            r@ == storage_of(self@, a@, k@),
    {
        match self.accounts.get(a) {
            Some(acc) => match acc.storage.get(k) {
                Some(v) => v.duplicate(),
                None => Vec::new(),
            },
            None => Vec::new(),
        }
    }

    pub fn set_storage(&mut self, a: &Vec<u8>, k: &Vec<u8>, v: &Vec<u8>)
        requires
            old(self).wf(),
        ensures
            final(self).wf(),
            final(self)@ == with_storage(old(self)@, a@, k@, v@),
    {
        let ghost acc0 = account_or_empty(self@, a@);
        let mut acc = self.take_account(a);
        acc.storage.insert(k.duplicate(), v.duplicate());
        assert(acc@.storage =~= acc0.storage.insert(k@, v@));
        self.put_account(a, acc);
        proof {
            assert(self@ =~= with_storage(old(self)@, a@, k@, v@));
        }
    }

    /// Mints `v` units of (`t`, `n`) for `a`, which must hold the mint role
    /// (for nonce 0) or the quantity-adding role (for an NFT nonce).
    pub fn local_mint(&mut self, a: &Vec<u8>, t: &Vec<u8>, n: u64, v: u128) -> (r: Result<
        (),
        LedgerError,
    >)
        requires
            old(self).wf(),
        ensures
            final(self).wf(),
            !may_mint(roles_of(old(self)@, a@, t@), n) ==> r == Err::<(), LedgerError>(
                LedgerError::RoleViolation,
            ) && final(self)@ == old(self)@,
            may_mint(roles_of(old(self)@, a@, t@), n) && dct_balance_of(old(self)@, a@, t@, n) + v
                <= u128::MAX ==> r is Ok && final(self)@ == with_dct_balance(
                old(self)@,
                a@,
                t@,
                n,
                (dct_balance_of(old(self)@, a@, t@, n) + v) as u128,
            ),
            may_mint(roles_of(old(self)@, a@, t@), n) && dct_balance_of(old(self)@, a@, t@, n) + v
                > u128::MAX ==> r == Err::<(), LedgerError>(LedgerError::BalanceOverflow)
                && final(self)@ == old(self)@,
    {
        let roles = self.get_roles(a, t);
        if !(if n == 0 { roles.mint } else { roles.nft_add_quantity }) {
            return Err(LedgerError::RoleViolation);
        }
        self.add_dct_balance(a, t, n, v)
    }

    /// Burns `v` units of (`t`, `n`) held by `a`, which must hold the burn role
    /// (for nonce 0) or the NFT burn role.
    pub fn local_burn(&mut self, a: &Vec<u8>, t: &Vec<u8>, n: u64, v: u128) -> (r: Result<
        (),
        LedgerError,
    >)
        requires
            old(self).wf(),
        ensures
            final(self).wf(),
            !may_burn(roles_of(old(self)@, a@, t@), n) ==> r == Err::<(), LedgerError>(
                LedgerError::RoleViolation,
            ) && final(self)@ == old(self)@,
            may_burn(roles_of(old(self)@, a@, t@), n) && v <= dct_balance_of(old(self)@, a@, t@, n) ==> r is Ok
                && final(self)@ == with_dct_balance(
                old(self)@,
                a@,
                t@,
                n,
                (dct_balance_of(old(self)@, a@, t@, n) - v) as u128,
            ),
            may_burn(roles_of(old(self)@, a@, t@), n) && v > dct_balance_of(old(self)@, a@, t@, n) ==> r
                == Err::<(), LedgerError>(LedgerError::InsufficientFunds) && final(self)@
                == old(self)@,
    {
        let roles = self.get_roles(a, t);
        if !(if n == 0 { roles.burn } else { roles.nft_burn }) {
            return Err(LedgerError::RoleViolation);
        }
        self.subtract_dct_balance(a, t, n, v)
    }

    pub fn get_nonce(&self, a: &Vec<u8>) -> (r: u64)
        requires
            self.wf(),
        ensures
            r == account_or_empty(self@, a@).nonce,
    {
        match self.accounts.get(a) {
            Some(acc) => acc.nonce,
            None => 0,
        }
    }

    pub fn set_nonce(&mut self, a: &Vec<u8>, nonce: u64)
        requires
            old(self).wf(),
        ensures
            final(self).wf(),
            final(self)@ == old(self)@.insert(a@, AccountView { nonce, ..account_or_empty(old(self)@, a@) }),
    {
        let mut acc = self.take_account(a);
        acc.nonce = nonce;
        self.put_account(a, acc);
        proof {
            assert(self@ =~= old(self)@.insert(a@, AccountView { nonce, ..account_or_empty(old(self)@, a@) }));
        }
    }

    pub fn get_username(&self, a: &Vec<u8>) -> (r: Vec<u8>)
        requires
            self.wf(),
        ensures
            r@ == account_or_empty(self@, a@).username,
    {
        match self.accounts.get(a) {
            Some(acc) => acc.username.duplicate(),
            None => Vec::new(),
        }
    }

    pub fn set_username(&mut self, a: &Vec<u8>, username: &Vec<u8>)
        requires
            old(self).wf(),
        ensures
            final(self).wf(),
            final(self)@ == old(self)@.insert(
                a@,
                AccountView { username: username@, ..account_or_empty(old(self)@, a@) },
            ),
    {
        let mut acc = self.take_account(a);
        acc.username = username.duplicate();
        self.put_account(a, acc);
        proof {
            assert(self@ =~= old(self)@.insert(
                a@,
                AccountView { username: username@, ..account_or_empty(old(self)@, a@) },
            ));
        }
    }

    pub fn get_code(&self, a: &Vec<u8>) -> (r: Vec<u8>)
        requires
            self.wf(),
        ensures
            r@ == account_or_empty(self@, a@).code,
    {
        match self.accounts.get(a) {
            Some(acc) => acc.code.duplicate(),
            None => Vec::new(),
        }
    }

    pub fn get_owner(&self, a: &Vec<u8>) -> (r: Vec<u8>)
        requires
            self.wf(),
        ensures
            r@ == account_or_empty(self@, a@).owner,
    {
        match self.accounts.get(a) {
            Some(acc) => acc.owner.duplicate(),
            None => Vec::new(),
        }
    }

    /// Sets amount and attributes of the instance (`t`, `n`) held by `a`.
    pub fn set_nft_balance(&mut self, a: &Vec<u8>, t: &Vec<u8>, n: u64, v: u128, attributes: &Vec<u8>)
        requires
            old(self).wf(),
        ensures
            final(self).wf(),
            final(self)@ == with_instance(
                old(self)@,
                a@,
                t@,
                n,
                TokenInstanceView { amount: v, attributes: attributes@ },
            ),
    {
        let ghost acc0 = account_or_empty(self@, a@);
        let ghost td0 = token_or_empty(acc0, t@);
        let mut acc = self.take_account(a);
        let mut td = acc.take_token(t);
        let inst = TokenInstance { amount: v, attributes: attributes.duplicate() };
        td.instances.insert(n, inst);
        assert(td@.instances =~= td0.instances.insert(n, inst@));
        acc.tokens.insert(t.duplicate(), td);
        assert(acc@.tokens =~= acc0.tokens.insert(t@, td@));
        self.put_account(a, acc);
        proof {
            assert(self@ =~= with_instance(
                old(self)@,
                a@,
                t@,
                n,
                TokenInstanceView { amount: v, attributes: attributes@ },
            ));
        }
    }

    /// Attributes of the instance (`t`, `n`) held by `a` (empty when absent).
    pub fn get_nft_attributes(&self, a: &Vec<u8>, t: &Vec<u8>, n: u64) -> (r: Vec<u8>)
        requires
            self.wf(),
        ensures
            r@ == instance_or_empty(token_or_empty(account_or_empty(self@, a@), t@), n).attributes,
    {
        match self.accounts.get(a) {
            Some(acc) => match acc.tokens.get(t) {
                Some(td) => match td.instances.get(&n) {
                    Some(inst) => inst.attributes.duplicate(),
                    None => Vec::new(),
                },
                None => Vec::new(),
            },
            None => Vec::new(),
        }
    }
}

} // verus!
