//! The protocol's state, its mathematical model and its invariant.
use vstd::prelude::*;
use vstd::string::StringExecFns;
use crate::errors::ContractError;
use crate::types::{
    Address, ContractInfo, Event, Invoice, InvoiceStatus, Merchant, Role, Subscription,
    SubscriptionPlan, Transfer,
};

verus! {

/// Basis points in a whole: a fee of `FEE_DENOMINATOR` takes everything.
pub const FEE_DENOMINATOR: i128 = 10_000;

/// How long after full payment an invoice can be refunded, in seconds.
pub const MAX_REFUND_DURATION: u64 = 604_800;

/// The value stored last for `k` in a log of key/value entries.
pub open spec fn latest<K, V>(entries: Seq<(K, V)>, k: K) -> Option<V>
    decreases entries.len(),
{
    if entries.len() == 0 {
        None
    } else if entries.last().0 == k {
        Some(entries.last().1)
    } else {
        latest(entries.drop_last(), k)
    }
}

/// `s` with `x` added at the end, unless already there.
pub open spec fn with_item<T>(s: Seq<T>, x: T) -> Seq<T> {
    if s.contains(x) {
        s
    } else {
        s.push(x)
    }
}

/// `s` without any occurrence of `x`.
pub open spec fn without_item<T>(s: Seq<T>, x: T) -> Seq<T> {
    s.filter(|y: T| y != x)
}

/// Outcome of an entry point: with an error `err` it returns that error and
/// leaves the state `before` as it was; without one it succeeds and the state
/// becomes `next`.
pub open spec fn step<T>(
    r: Result<T, ContractError>,
    err: Option<ContractError>,
    before: ShadeView,
    after: ShadeView,
    next: ShadeView,
) -> bool {
    match err {
        Some(e) => r == Err::<T, ContractError>(e) && after == before,
        None => r is Ok && after == next,
    }
}

/// Whether an invoice's amounts lie in range and agree with its status.
pub open spec fn invoice_consistent(inv: Invoice) -> bool {
    &&& inv.amount > 0
    &&& 0 <= inv.amount_paid <= inv.amount
    &&& 0 <= inv.amount_refunded <= inv.amount
    &&& 0 <= inv.fees_paid <= inv.amount_paid
    &&& match inv.status {
        InvoiceStatus::Pending | InvoiceStatus::Cancelled => inv.amount_paid == 0
            && inv.amount_refunded == 0,
        InvoiceStatus::PartiallyPaid => 0 < inv.amount_paid < inv.amount && inv.amount_refunded
            == 0,
        InvoiceStatus::Paid => inv.amount_paid == inv.amount && inv.amount_refunded == 0,
        InvoiceStatus::PartiallyRefunded => inv.amount_paid == inv.amount && 0
            < inv.amount_refunded < inv.amount,
        InvoiceStatus::Refunded => inv.amount_paid == inv.amount && inv.amount_refunded
            == inv.amount,
    }
    &&& (inv.payer is Some <==> inv.amount_paid > 0)
    &&& (inv.date_paid is Some <==> inv.amount_paid == inv.amount)
}

/// The protocol's state as mathematical values.
pub struct ShadeView {
    pub contract: Address,
    pub info: Option<ContractInfo>,
    pub pending_admin: Option<Address>,
    pub paused: bool,
    pub accepted_tokens: Seq<Address>,
    pub token_fees: Seq<(Address, i128)>,
    pub account_wasm_hash: Option<[u8; 32]>,
    pub roles: Seq<(Address, Role)>,
    pub merchants: Seq<Merchant>,
    pub merchant_keys: Seq<(Address, [u8; 32])>,
    pub merchant_accounts: Seq<Option<Address>>,
    pub used_nonces: Seq<(Address, [u8; 32])>,
    pub invoices: Seq<Invoice>,
    pub plans: Seq<SubscriptionPlan>,
    pub subscriptions: Seq<Subscription>,
    pub events: Seq<Event>,
    pub transfers: Seq<Transfer>,
}

impl ShadeView {
    /// The stored administrator.
    pub open spec fn admin(self) -> Option<Address> {
        match self.info {
            Some(i) => Some(i.admin),
            None => None,
        }
    }

    /// Why `caller` may not act as administrator, if it may not.
    pub open spec fn admin_error(self, caller: Address) -> Option<ContractError> {
        match self.info {
            None => Some(ContractError::NotInitialized),
            Some(i) => if i.admin == caller {
                None
            } else {
                Some(ContractError::NotAuthorized)
            },
        }
    }

    /// Why a mutating entry point may not run now, if it may not.
    pub open spec fn pause_error(self) -> Option<ContractError> {
        if self.paused {
            Some(ContractError::ContractPaused)
        } else {
            None
        }
    }

    /// Why `caller` may not run an administrative entry point that the pause
    /// gates, if it may not.
    pub open spec fn gated_admin_error(self, caller: Address) -> Option<ContractError> {
        if self.paused {
            Some(ContractError::ContractPaused)
        } else {
            self.admin_error(caller)
        }
    }

    /// Whether `user` holds `role`; the administrator alone holds `Admin`.
    pub open spec fn has_role(self, user: Address, role: Role) -> bool {
        match role {
            Role::Admin => self.admin() == Some(user),
            _ => self.roles.contains((user, role)),
        }
    }

    /// The fee in basis points configured for `token`; 0 when unset.
    pub open spec fn fee_of(self, token: Address) -> i128 {
        match latest(self.token_fees, token) {
            Some(f) => f,
            None => 0,
        }
    }

    /// The Ed25519 public key registered for `merchant`.
    pub open spec fn merchant_key(self, merchant: Address) -> Option<[u8; 32]> {
        latest(self.merchant_keys, merchant)
    }

    /// Whether `a` is a registered merchant's address.
    pub open spec fn is_merchant(self, a: Address) -> bool {
        exists|i: int| 0 <= i < self.merchants.len() && #[trigger] self.merchants[i].address == a
    }

    /// The position of the merchant registered under `a`.
    pub open spec fn merchant_index(self, a: Address) -> int {
        choose|i: int| 0 <= i < self.merchants.len() && #[trigger] self.merchants[i].address == a
    }

    /// The id of the merchant registered under `a`.
    pub open spec fn merchant_id(self, a: Address) -> Option<u64> {
        if self.is_merchant(a) {
            Some(self.merchants[self.merchant_index(a)].id)
        } else {
            None
        }
    }

    /// Whether `id` names a registered merchant.
    pub open spec fn merchant_exists(self, id: u64) -> bool {
        1 <= id <= self.merchants.len()
    }

    /// The merchant with id `id`.
    pub open spec fn merchant(self, id: u64) -> Merchant {
        self.merchants[id - 1]
    }

    /// The merchant account bound to merchant `id`.
    pub open spec fn merchant_account(self, id: u64) -> Option<Address> {
        if self.merchant_exists(id) {
            self.merchant_accounts[id - 1]
        } else {
            None
        }
    }

    /// Whether `nonce` has been consumed for `merchant`.
    pub open spec fn nonce_used(self, merchant: Address, nonce: [u8; 32]) -> bool {
        self.used_nonces.contains((merchant, nonce))
    }

    /// Whether `id` names an invoice.
    pub open spec fn invoice_exists(self, id: u64) -> bool {
        1 <= id <= self.invoices.len()
    }

    /// The invoice with id `id`.
    pub open spec fn invoice(self, id: u64) -> Invoice {
        self.invoices[id - 1]
    }

    /// Whether `id` names a plan.
    pub open spec fn plan_exists(self, id: u64) -> bool {
        1 <= id <= self.plans.len()
    }

    /// The plan with id `id`.
    pub open spec fn plan(self, id: u64) -> SubscriptionPlan {
        self.plans[id - 1]
    }

    /// Whether `id` names a subscription.
    pub open spec fn subscription_exists(self, id: u64) -> bool {
        1 <= id <= self.subscriptions.len()
    }

    /// The subscription with id `id`.
    pub open spec fn subscription(self, id: u64) -> Subscription {
        self.subscriptions[id - 1]
    }

    /// Whether `t` can follow `self`: the counters never go down, and the
    /// consumed nonces, the events and the required token movements are only
    /// ever extended.
    pub open spec fn evolves_to(self, t: ShadeView) -> bool {
        &&& self.merchants.len() <= t.merchants.len()
        &&& self.invoices.len() <= t.invoices.len()
        &&& self.plans.len() <= t.plans.len()
        &&& self.subscriptions.len() <= t.subscriptions.len()
        &&& self.used_nonces.len() <= t.used_nonces.len()
        &&& forall|i: int| 0 <= i < self.used_nonces.len() ==> t.used_nonces[i] == #[trigger] self.used_nonces[i]
        &&& self.events.len() <= t.events.len()
        &&& forall|i: int| 0 <= i < self.events.len() ==> t.events[i] == #[trigger] self.events[i]
        &&& self.transfers.len() <= t.transfers.len()
        &&& forall|i: int| 0 <= i < self.transfers.len() ==> t.transfers[i] == #[trigger] self.transfers[i]
    }

    /// The invariant that every entry point preserves.
    pub open spec fn wf(self) -> bool {
        &&& forall|i: int| 0 <= i < self.merchants.len() ==> (#[trigger] self.merchants[i]).id == i + 1
        &&& forall|i: int, j: int|
            0 <= i < self.merchants.len() && 0 <= j < self.merchants.len() && i != j
                ==> (#[trigger] self.merchants[i]).address != (#[trigger] self.merchants[j]).address
        &&& self.merchant_accounts.len() == self.merchants.len()
        &&& forall|i: int|
            0 <= i < self.invoices.len() ==> {
                &&& (#[trigger] self.invoices[i]).id == i + 1
                &&& invoice_consistent(self.invoices[i])
                &&& self.merchant_exists(self.invoices[i].merchant_id)
            }
        &&& forall|i: int|
            0 <= i < self.plans.len() ==> {
                &&& (#[trigger] self.plans[i]).id == i + 1
                &&& self.plans[i].amount > 0
                &&& self.plans[i].interval > 0
                &&& self.merchant_exists(self.plans[i].merchant_id)
                &&& self.merchant(self.plans[i].merchant_id).address == self.plans[i].merchant
            }
        &&& forall|i: int|
            0 <= i < self.subscriptions.len() ==> {
                &&& (#[trigger] self.subscriptions[i]).id == i + 1
                &&& self.plan_exists(self.subscriptions[i].plan_id)
                &&& self.subscriptions[i].merchant_id == self.plan(
                    self.subscriptions[i].plan_id,
                ).merchant_id
            }
        &&& forall|i: int|
            0 <= i < self.token_fees.len() ==> 0 <= (#[trigger] self.token_fees[i]).1
                <= FEE_DENOMINATOR
    }
}

/// The protocol's state: what the contract keeps in persistent storage,
/// with the events it has emitted and the token movements it has required.
///
/// Ids of merchants, invoices, plans and subscriptions start at 1 and are
/// positions in their lists plus one; the counters are the lists' lengths.
pub struct Shade {
    /// This contract's own address, which receives protocol fees.
    pub contract: Address,
    pub info: Option<ContractInfo>,
    pub pending_admin: Option<Address>,
    pub paused: bool,
    pub accepted_tokens: Vec<Address>,
    /// Fees in basis points; the entry stored last for a token holds.
    pub token_fees: Vec<(Address, i128)>,
    pub account_wasm_hash: Option<[u8; 32]>,
    pub roles: Vec<(Address, Role)>,
    pub merchants: Vec<Merchant>,
    /// Merchant public keys; the entry stored last for an address holds.
    pub merchant_keys: Vec<(Address, [u8; 32])>,
    /// The merchant account of merchant `id` at position `id - 1`.
    pub merchant_accounts: Vec<Option<Address>>,
    pub used_nonces: Vec<(Address, [u8; 32])>,
    pub invoices: Vec<Invoice>,
    pub plans: Vec<SubscriptionPlan>,
    pub subscriptions: Vec<Subscription>,
    pub events: Vec<Event>,
    pub transfers: Vec<Transfer>,
}

impl View for Shade {
    type V = ShadeView;

    open spec fn view(&self) -> ShadeView {
        ShadeView {
            contract: self.contract,
            info: self.info,
            pending_admin: self.pending_admin,
            paused: self.paused,
            accepted_tokens: self.accepted_tokens@,
            token_fees: self.token_fees@,
            account_wasm_hash: self.account_wasm_hash,
            roles: self.roles@,
            merchants: self.merchants@,
            merchant_keys: self.merchant_keys@,
            merchant_accounts: self.merchant_accounts@,
            used_nonces: self.used_nonces@,
            invoices: self.invoices@,
            plans: self.plans@,
            subscriptions: self.subscriptions@,
            events: self.events@,
            transfers: self.transfers@,
        }
    }
}

/// Every fee that a well-formed state holds lies within `[0, 10_000]`.
pub proof fn lemma_fee_in_range(s: ShadeView, token: Address)
    requires
        s.wf(),
    ensures
        0 <= s.fee_of(token) <= FEE_DENOMINATOR,
{
    lemma_latest_fee_in_range(s.token_fees, token);
}

proof fn lemma_latest_fee_in_range(fees: Seq<(Address, i128)>, token: Address)
    requires
        forall|i: int| 0 <= i < fees.len() ==> 0 <= (#[trigger] fees[i]).1 <= FEE_DENOMINATOR,
    ensures
        latest(fees, token) matches Some(f) ==> 0 <= f <= FEE_DENOMINATOR,
    decreases fees.len(),
{
    if fees.len() > 0 {
        assert(fees.last() == fees[fees.len() - 1]);
        let rest = fees.drop_last();
        assert forall|i: int| 0 <= i < rest.len() implies 0 <= (#[trigger] rest[i]).1 <= FEE_DENOMINATOR by {
            assert(rest[i] == fees[i]);
        }
        lemma_latest_fee_in_range(rest, token);
    }
}

/// Whether two 32-byte strings are equal.
pub fn same_bytes(a: &[u8; 32], b: &[u8; 32]) -> (r: bool)
    ensures
        r == (*a == *b),
{
    let mut i: usize = 0;
    while i < 32
        invariant
            0 <= i <= 32,
            forall|j: int| 0 <= j < i ==> a[j] == b[j],
        decreases 32 - i,
    {
        if a[i] != b[i] {
            return false;
        }
        i = i + 1;
    }
    assert(a@ =~= b@);
    assert(*a == *b);
    true
}

impl Shade {
    /// A contract at address `contract` with nothing stored.
    pub fn new(contract: Address) -> (r: Shade)
        ensures
            r@.wf(),
            r@.contract == contract,
            r@.info is None,
            r@.pending_admin is None,
            !r@.paused,
            r@.accepted_tokens.len() == 0,
            r@.token_fees.len() == 0,
            r@.account_wasm_hash is None,
            r@.roles.len() == 0,
            r@.merchants.len() == 0,
            r@.merchant_keys.len() == 0,
            r@.merchant_accounts.len() == 0,
            r@.used_nonces.len() == 0,
            r@.invoices.len() == 0,
            r@.plans.len() == 0,
            r@.subscriptions.len() == 0,
            r@.events.len() == 0,
            r@.transfers.len() == 0,
    {
        Shade {
            contract,
            info: None,
            pending_admin: None,
            paused: false,
            accepted_tokens: Vec::new(),
            token_fees: Vec::new(),
            account_wasm_hash: None,
            roles: Vec::new(),
            merchants: Vec::new(),
            merchant_keys: Vec::new(),
            merchant_accounts: Vec::new(),
            used_nonces: Vec::new(),
            invoices: Vec::new(),
            plans: Vec::new(),
            subscriptions: Vec::new(),
            events: Vec::new(),
            transfers: Vec::new(),
        }
    }

    /// A greeting followed by `to`.
    pub fn hello_world(to: String) -> (r: Vec<String>)
        ensures
            r@.len() == 2,
            r@[0]@ == "Hello World"@,
            r@[1] == to,
    {
        let mut r: Vec<String> = Vec::new();
        r.push(String::from_str("Hello World"));
        r.push(to);
        r
    }

    /// Fails unless `caller` is the administrator.
    pub(crate) fn check_admin(&self, caller: &Address) -> (r: Result<(), ContractError>)
        ensures
            r == match self@.admin_error(*caller) {
                Some(e) => Err(e),
                None => Ok(()),
            },
    {
        match &self.info {
            None => Err(ContractError::NotInitialized),
            Some(info) => if info.admin == *caller {
                Ok(())
            } else {
                Err(ContractError::NotAuthorized)
            },
        }
    }

    /// The fee in basis points for `token`; 0 when unset.
    pub(crate) fn fee_bps(&self, token: &Address) -> (r: i128)
        ensures
            r == self@.fee_of(*token),
    {
        let mut i: usize = self.token_fees.len();
        assert(self.token_fees@.take(i as int) =~= self.token_fees@);
        while i > 0
            invariant
                0 <= i <= self.token_fees@.len(),
                latest(self.token_fees@, *token) == latest(self.token_fees@.take(i as int), *token),
            decreases i,
        {
            assert(self.token_fees@.take(i as int).drop_last() =~= self.token_fees@.take(i - 1));
            if self.token_fees[i - 1].0 == *token {
                return self.token_fees[i - 1].1;
            }
            i = i - 1;
        }
        0
    }

    /// The public key registered for `merchant`.
    pub(crate) fn find_key(&self, merchant: &Address) -> (r: Option<[u8; 32]>)
        ensures
            r == self@.merchant_key(*merchant),
    {
        let mut i: usize = self.merchant_keys.len();
        assert(self.merchant_keys@.take(i as int) =~= self.merchant_keys@);
        while i > 0
            invariant
                0 <= i <= self.merchant_keys@.len(),
                latest(self.merchant_keys@, *merchant) == latest(
                    self.merchant_keys@.take(i as int),
                    *merchant,
                ),
            decreases i,
        {
            assert(self.merchant_keys@.take(i as int).drop_last() =~= self.merchant_keys@.take(
                i - 1,
            ));
            if self.merchant_keys[i - 1].0 == *merchant {
                return Some(self.merchant_keys[i - 1].1);
            }
            i = i - 1;
        }
        None
    }

    /// The id of the merchant registered under `a`.
    pub(crate) fn find_merchant(&self, a: &Address) -> (r: Option<u64>)
        requires
            self@.wf(),
        ensures
            r == self@.merchant_id(*a),
            r matches Some(id) ==> self@.merchant_exists(id) && self@.merchant(id).address == *a,
    {
        let mut i: usize = 0;
        while i < self.merchants.len()
            invariant
                0 <= i <= self.merchants@.len(),
                self@.wf(),
                forall|j: int| 0 <= j < i ==> self.merchants@[j].address != *a,
            decreases self.merchants@.len() - i,
        {
            if self.merchants[i].address == *a {
                proof {
                    let k = self@.merchant_index(*a);
                    assert(self@.merchants[i as int].address == *a);
                    assert(self@.is_merchant(*a));
                    assert(self@.merchants[k].address == *a);
                    assert(k == i);
                    assert(self@.merchants[i as int].id == i + 1);
                }
                return Some(self.merchants[i].id);
            }
            i = i + 1;
        }
        None
    }

    /// Whether `token` is accepted for payment.
    pub(crate) fn token_accepted(&self, token: &Address) -> (r: bool)
        ensures
            r == self@.accepted_tokens.contains(*token),
    {
        let mut i: usize = 0;
        while i < self.accepted_tokens.len()
            invariant
                0 <= i <= self.accepted_tokens@.len(),
                forall|j: int| 0 <= j < i ==> self.accepted_tokens@[j] != *token,
            decreases self.accepted_tokens@.len() - i,
        {
            if self.accepted_tokens[i] == *token {
                return true;
            }
            i = i + 1;
        }
        false
    }

    /// Whether `nonce` has been consumed for `merchant`.
    pub(crate) fn nonce_seen(&self, merchant: &Address, nonce: &[u8; 32]) -> (r: bool)
        ensures
            r == self@.nonce_used(*merchant, *nonce),
    {
        let mut i: usize = 0;
        while i < self.used_nonces.len()
            invariant
                0 <= i <= self.used_nonces@.len(),
                forall|j: int| 0 <= j < i ==> self.used_nonces@[j] != (*merchant, *nonce),
            decreases self.used_nonces@.len() - i,
        {
            if self.used_nonces[i].0 == *merchant && same_bytes(&self.used_nonces[i].1, nonce) {
                assert(self.used_nonces@[i as int] == (*merchant, *nonce));
                return true;
            }
            i = i + 1;
        }
        false
    }

    /// Whether `user` holds `role`.
    pub fn has_role(&self, user: &Address, role: Role) -> (r: bool)
        ensures
            r == self@.has_role(*user, role),
    {
        match role {
            Role::Admin => match &self.info {
                Some(info) => info.admin == *user,
                None => false,
            },
            _ => {
                let mut i: usize = 0;
                while i < self.roles.len()
                    invariant
                        0 <= i <= self.roles@.len(),
                        role != Role::Admin,
                        forall|j: int| 0 <= j < i ==> self.roles@[j] != (*user, role),
                    decreases self.roles@.len() - i,
                {
                    if self.roles[i].0 == *user && self.roles[i].1 == role {
                        assert(self.roles@[i as int] == (*user, role));
                        return true;
                    }
                    i = i + 1;
                }
                false
            },
        }
    }
}

} // verus!
