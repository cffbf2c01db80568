use vstd::prelude::*;

verus! {

/// What an address designates on the ledger.
#[derive(Clone, Copy, Debug, PartialEq, Eq, Structural)]
pub enum AddressKind {
    /// An account, named by its Ed25519 public key.
    Account,
    /// A contract, named by its 32-byte contract id.
    Contract,
}

/// A ledger address: its kind and the 32 bytes that name it.
#[derive(Clone, Copy, Debug)]
pub struct Address {
    pub kind: AddressKind,
    pub key: [u8; 32],
}

impl Address {
    /// An account address for the given public key.
    pub fn account(key: [u8; 32]) -> (r: Address)
        ensures
            r.kind == AddressKind::Account,
            r.key == key,
    {
        Address { kind: AddressKind::Account, key }
    }

    /// A contract address for the given contract id.
    pub fn contract(key: [u8; 32]) -> (r: Address)
        ensures
            r.kind == AddressKind::Contract,
            r.key == key,
    {
        Address { kind: AddressKind::Contract, key }
    }

    /// Whether two addresses are the same.
    pub fn same(&self, other: &Address) -> (r: bool)
        ensures
            r == (*self == *other),
    {
        if self.kind != other.kind {
            return false;
        }
        let mut i: usize = 0;
        while i < 32
            invariant
                0 <= i <= 32,
                forall|j: int| 0 <= j < i ==> self.key[j] == other.key[j],
            decreases 32 - i,
        {
            if self.key[i] != other.key[i] {
                return false;
            }
            i = i + 1;
        }
        assert(self.key@ =~= other.key@);
        assert(self.key == other.key);
        true
    }
}

impl PartialEq for Address {
    fn eq(&self, other: &Address) -> (r: bool) {
        self.same(other)
    }
}

impl vstd::std_specs::cmp::PartialEqSpecImpl for Address {
    open spec fn obeys_eq_spec() -> bool {
        true
    }

    open spec fn eq_spec(&self, other: &Address) -> bool {
        *self == *other
    }
}

impl Eq for Address {}

/// Lifecycle of an invoice.
#[derive(Clone, Copy, Debug, PartialEq, Eq, Structural)]
pub enum InvoiceStatus {
    Pending,
    Paid,
    Cancelled,
    Refunded,
    PartiallyRefunded,
    PartiallyPaid,
}

impl InvoiceStatus {
    /// The stable numeric encoding of the status.
    pub open spec fn spec_code(self) -> u32 {
        match self {
            InvoiceStatus::Pending => 0,
            InvoiceStatus::Paid => 1,
            InvoiceStatus::Cancelled => 2,
            InvoiceStatus::Refunded => 3,
            InvoiceStatus::PartiallyRefunded => 4,
            InvoiceStatus::PartiallyPaid => 5,
        }
    }

    /// The stable numeric encoding of the status.
    pub fn code(&self) -> (r: u32)
        ensures
            r == self.spec_code(),
    {
        match self {
            InvoiceStatus::Pending => 0,
            InvoiceStatus::Paid => 1,
            InvoiceStatus::Cancelled => 2,
            InvoiceStatus::Refunded => 3,
            InvoiceStatus::PartiallyRefunded => 4,
            InvoiceStatus::PartiallyPaid => 5,
        }
    }
}

/// Administrative roles.
#[derive(Clone, Copy, Debug, PartialEq, Eq, Structural)]
pub enum Role {
    Admin,
    Manager,
    Operator,
}

/// Lifecycle of a subscription.
#[derive(Clone, Copy, Debug, PartialEq, Eq, Structural)]
pub enum SubscriptionStatus {
    Active,
    Cancelled,
}

impl SubscriptionStatus {
    /// The stable numeric encoding of the status.
    pub open spec fn spec_code(self) -> u32 {
        match self {
            SubscriptionStatus::Active => 0,
            SubscriptionStatus::Cancelled => 1,
        }
    }

    /// The stable numeric encoding of the status.
    pub fn code(&self) -> (r: u32)
        ensures
            r == self.spec_code(),
    {
        match self {
            SubscriptionStatus::Active => 0,
            SubscriptionStatus::Cancelled => 1,
        }
    }
}

/// The administrator and the time the contract was initialised.
#[derive(Clone, Copy, Debug)]
pub struct ContractInfo {
    pub admin: Address,
    pub timestamp: u64,
}

/// A registered merchant; ids start at 1.
#[derive(Clone, Copy, Debug)]
pub struct Merchant {
    pub id: u64,
    pub address: Address,
    pub active: bool,
    pub verified: bool,
    pub date_registered: u64,
}

/// An invoice; ids start at 1.
#[derive(Clone, Debug)]
pub struct Invoice {
    pub id: u64,
    pub description: String,
    pub amount: i128,
    pub token: Address,
    pub status: InvoiceStatus,
    pub merchant_id: u64,
    pub payer: Option<Address>,
    pub date_created: u64,
    pub date_paid: Option<u64>,
    pub amount_paid: i128,
    pub amount_refunded: i128,
    /// Protocol fees taken from the payments towards the invoice.
    pub fees_paid: i128,
    pub expires_at: Option<u64>,
}

impl Invoice {
    /// Whether `other` holds the same values as `self`.
    pub open spec fn same_as(&self, other: &Invoice) -> bool {
        &&& self.id == other.id
        &&& self.description@ == other.description@
        &&& self.amount == other.amount
        &&& self.token == other.token
        &&& self.status == other.status
        &&& self.merchant_id == other.merchant_id
        &&& self.payer == other.payer
        &&& self.date_created == other.date_created
        &&& self.date_paid == other.date_paid
        &&& self.amount_paid == other.amount_paid
        &&& self.amount_refunded == other.amount_refunded
        &&& self.fees_paid == other.fees_paid
        &&& self.expires_at == other.expires_at
    }

    /// A copy of the invoice.
    pub fn duplicate(&self) -> (r: Invoice)
        ensures
            r.same_as(self),
    {
        Invoice {
            id: self.id,
            description: self.description.clone(),
            amount: self.amount,
            token: self.token,
            status: self.status,
            merchant_id: self.merchant_id,
            payer: self.payer,
            date_created: self.date_created,
            date_paid: self.date_paid,
            amount_paid: self.amount_paid,
            amount_refunded: self.amount_refunded,
            fees_paid: self.fees_paid,
            expires_at: self.expires_at,
        }
    }
}

/// Selects merchants by their flags; `None` matches either value.
#[derive(Clone, Copy, Debug)]
pub struct MerchantFilter {
    pub is_active: Option<bool>,
    pub is_verified: Option<bool>,
}

/// Selects invoices; each `None` leaves its criterion out.
#[derive(Clone, Copy, Debug)]
pub struct InvoiceFilter {
    /// The status's numeric encoding.
    pub status: Option<u32>,
    pub merchant: Option<Address>,
    pub min_amount: Option<u128>,
    pub max_amount: Option<u128>,
    pub start_date: Option<u64>,
    pub end_date: Option<u64>,
}

/// A recurring billing plan created by a merchant; ids start at 1.
#[derive(Clone, Debug)]
pub struct SubscriptionPlan {
    pub id: u64,
    pub merchant_id: u64,
    /// The merchant's address.
    pub merchant: Address,
    pub description: String,
    pub token: Address,
    /// Amount charged per interval, in token base units.
    pub amount: i128,
    /// Billing interval in seconds.
    pub interval: u64,
    /// Whether the plan accepts new subscribers.
    pub active: bool,
}

/// A customer's subscription to a plan; ids start at 1.
#[derive(Clone, Copy, Debug)]
pub struct Subscription {
    pub id: u64,
    pub plan_id: u64,
    pub customer: Address,
    pub merchant_id: u64,
    pub status: SubscriptionStatus,
    pub date_created: u64,
    /// Ledger time of the last successful charge; 0 when never charged.
    pub last_charge_date: u64,
}

/// How a token movement is to be carried out.
#[derive(Clone, Copy, Debug, PartialEq, Eq, Structural)]
pub enum TransferKind {
    /// `token.transfer(from, to, amount)`, authorised by `from`.
    Direct,
    /// `token.transfer_from(contract, from, to, amount)`, drawn on the
    /// allowance that `from` granted to this contract.
    Allowance,
    /// `refund(token, amount, to)` on the merchant account contract `from`.
    EscrowRefund,
}

/// A token movement that an entry point requires.
#[derive(Clone, Copy, Debug)]
pub struct Transfer {
    pub kind: TransferKind,
    pub token: Address,
    pub from: Address,
    pub to: Address,
    pub amount: i128,
}

/// Events emitted by the entry points.
#[derive(Clone, Copy, Debug)]
pub enum Event {
    Initialized { admin: Address, timestamp: u64 },
    MerchantRegistered { merchant: Address, merchant_id: u64, timestamp: u64 },
    InvoiceCreated { invoice_id: u64, merchant: Address, amount: i128, token: Address },
    InvoicePaid {
        invoice_id: u64,
        merchant_id: u64,
        merchant_account: Address,
        payer: Address,
        amount: i128,
        fee: i128,
        token: Address,
        timestamp: u64,
    },
    InvoiceRefunded { invoice_id: u64, payer: Address, amount: i128, timestamp: u64 },
    InvoicePartiallyRefunded {
        invoice_id: u64,
        payer: Address,
        amount: i128,
        total_refunded: i128,
        timestamp: u64,
    },
    InvoiceCancelled { invoice_id: u64, merchant: Address, timestamp: u64 },
    InvoiceAmended {
        invoice_id: u64,
        merchant: Address,
        old_amount: i128,
        new_amount: i128,
        timestamp: u64,
    },
    NonceInvalidated { merchant: Address, nonce: [u8; 32], timestamp: u64 },
    SubscriptionPlanCreated {
        plan_id: u64,
        merchant: Address,
        token: Address,
        amount: i128,
        interval: u64,
        timestamp: u64,
    },
    Subscribed { subscription_id: u64, plan_id: u64, customer: Address, timestamp: u64 },
    SubscriptionCharged {
        subscription_id: u64,
        plan_id: u64,
        customer: Address,
        merchant: Address,
        amount: i128,
        fee: i128,
        token: Address,
        timestamp: u64,
    },
    SubscriptionCancelled { subscription_id: u64, caller: Address, timestamp: u64 },
}

} // verus!
