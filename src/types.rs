use vstd::prelude::*;

use crate::table::Table;

verus! {

/// Where a payment stands in its life.
#[derive(Clone, Copy, Debug, PartialEq, Eq, Structural)]
pub enum PaymentStatus {
    Pending,
    Confirmed,
    Refunded,
    Failed,
}

/// One ticket unit bought by a buyer.
///
/// `amount` is the price of one ticket; `platform_fee` and `organizer_amount`
/// are this ticket's share of the purchase's split.
#[derive(Debug)]
pub struct Payment {
    pub payment_id: String,
    pub event_id: String,
    pub buyer_address: String,
    pub ticket_tier_id: String,
    pub amount: i128,
    pub platform_fee: i128,
    pub organizer_amount: i128,
    pub status: PaymentStatus,
    pub transaction_hash: String,
    pub created_at: u64,
    pub confirmed_at: Option<u64>,
}

impl Clone for Payment {
    fn clone(&self) -> (r: Self)
        ensures
            r == *self,
    {
        Payment {
            payment_id: self.payment_id.clone(),
            event_id: self.event_id.clone(),
            buyer_address: self.buyer_address.clone(),
            ticket_tier_id: self.ticket_tier_id.clone(),
            amount: self.amount,
            platform_fee: self.platform_fee,
            organizer_amount: self.organizer_amount,
            status: self.status,
            transaction_hash: self.transaction_hash.clone(),
            created_at: self.created_at,
            confirmed_at: self.confirmed_at,
        }
    }
}

/// The escrow counters of one event: what is still owed to the organizer and
/// to the platform, and what the organizer has been paid out so far.
#[derive(Clone, Copy, Debug, PartialEq, Eq, Structural)]
pub struct EventBalance {
    pub organizer_amount: i128,
    pub platform_fee: i128,
    pub total_withdrawn: i128,
}

impl EventBalance {
    /// All three counters are non-negative.
    pub open spec fn wf(self) -> bool {
        self.organizer_amount >= 0 && self.platform_fee >= 0 && self.total_withdrawn >= 0
    }

    /// The balance of an event that has never been paid for.
    pub fn zero() -> (b: EventBalance)
        ensures
            b == (EventBalance { organizer_amount: 0, platform_fee: 0, total_withdrawn: 0 }),
    {
        EventBalance { organizer_amount: 0, platform_fee: 0, total_withdrawn: 0 }
    }
}

/// A step of a release plan: once `sales_threshold` units are sold,
/// `release_percent` basis points of the organizer's revenue may be paid out.
#[derive(Clone, Copy, Debug, PartialEq, Eq, Structural)]
pub struct Milestone {
    pub sales_threshold: i128,
    pub release_percent: u32,
}

/// Supply counters of an event.
#[derive(Clone, Copy, Debug, PartialEq, Eq, Structural)]
pub struct EventInventory {
    pub current_supply: i128,
    pub max_supply: i128,
}

/// Where an event's payments go and what fee the platform takes, in basis points.
#[derive(Debug)]
pub struct PaymentInfo {
    pub payment_address: String,
    pub platform_fee_percent: u32,
}

/// A priced ticket category of an event.
#[derive(Debug)]
pub struct TicketTier {
    pub name: String,
    pub price: i128,
    pub tier_limit: i128,
    pub current_sold: i128,
    pub is_refundable: bool,
}

impl Clone for TicketTier {
    fn clone(&self) -> (r: Self)
        ensures
            r == *self,
    {
        TicketTier {
            name: self.name.clone(),
            price: self.price,
            tier_limit: self.tier_limit,
            current_sold: self.current_sold,
            is_refundable: self.is_refundable,
        }
    }
}

/// What the event registry knows of an event.
pub struct EventInfo {
    pub event_id: String,
    pub organizer_address: String,
    pub payment_address: String,
    pub platform_fee_percent: u32,
    pub is_active: bool,
    pub created_at: u64,
    pub metadata_cid: String,
    pub max_supply: i128,
    pub current_supply: i128,
    pub milestone_plan: Option<Vec<Milestone>>,
    pub tiers: Table<TicketTier>,
}

impl EventInfo {
    /// The tier table is well formed.
    pub open spec fn wf(&self) -> bool {
        self.tiers.wf()
    }
}

/// The ways an operation of the payment contract can fail.
#[derive(Clone, Copy, Debug, PartialEq, Eq, Structural)]
pub enum TicketPaymentError {
    AlreadyInitialized,
    NotInitialized,
    InvalidAddress,
    TokenNotWhitelisted,
    ArithmeticError,
    EventNotFound,
    EventInactive,
    TierNotFound,
    InsufficientAllowance,
    TransferVerificationFailed,
    PaymentNotFound,
    /// A record already exists under the identifier of a ticket being bought.
    PaymentAlreadyExists,
    InvalidPaymentStatus,
    TicketNotRefundable,
    Unauthorized,
}

/// Published once, when the contract is configured.
#[derive(Debug)]
pub struct InitializationEvent {
    pub usdc_token: String,
    pub platform_wallet: String,
    pub event_registry: String,
}

/// Published when the contract's code is replaced.
#[derive(Debug)]
pub struct ContractUpgraded {
    pub old_wasm_hash: Vec<u8>,
    pub new_wasm_hash: Vec<u8>,
}

/// Published when a purchase has been recorded.
#[derive(Debug)]
pub struct PaymentProcessedEvent {
    pub payment_id: String,
    pub event_id: String,
    pub buyer_address: String,
    pub amount: i128,
    pub platform_fee: i128,
    pub timestamp: u64,
}

/// Published when a payment changes status.
#[derive(Debug)]
pub struct PaymentStatusChangedEvent {
    pub payment_id: String,
    pub old_status: PaymentStatus,
    pub new_status: PaymentStatus,
    pub transaction_hash: String,
    pub timestamp: u64,
}

/// Published when a ticket changes hands.
#[derive(Debug)]
pub struct TicketTransferredEvent {
    pub payment_id: String,
    pub from: String,
    pub to: String,
    pub transfer_fee: i128,
    pub timestamp: u64,
}

} // verus!
