use vstd::prelude::*;

use crate::escrow::{
    balance_ok, payout_of, plan_view, release_of, release_percent, revenue, step, EscrowStep,
};
use crate::index::{ids, push_unique, remove_id, with_id, without_id};
use crate::payment::{
    check_allowance, quote_payment, quote_spec, ticket_id, ticket_id_of, total_price,
    verify_transfer, PaymentQuote, PaymentRequest,
};
use crate::table::Table;
use crate::types::{
    ContractUpgraded, EventBalance, EventInfo, InitializationEvent, Payment,
    PaymentProcessedEvent, PaymentStatus, PaymentStatusChangedEvent, TicketPaymentError,
    TicketTransferredEvent,
};

verus! {

/// The characters of an optional string.
pub open spec fn opt_view(o: Option<String>) -> Option<Seq<char>> {
    match o {
        Some(s) => Some(s@),
        None => None,
    }
}

/// The balance of an event that has never been paid for.
pub open spec fn zero_balance() -> EventBalance {
    EventBalance { organizer_amount: 0, platform_fee: 0, total_withdrawn: 0 }
}

/// The payment ledger and escrow of the ticketing system, with its
/// configuration: admin, platform wallet, event registry, token whitelist and
/// per-event transfer fees.
///
/// Token movements and registry calls are made by the caller around each
/// operation; the operations take what those calls returned as arguments and
/// say what the caller has to do next through their results.
pub struct TicketPaymentContract {
    contract_address: String,
    wasm_hash: Vec<u8>,
    initialized: bool,
    admin: Option<String>,
    usdc_token: Option<String>,
    platform_wallet: Option<String>,
    event_registry: Option<String>,
    whitelist: Table<bool>,
    payments: Table<Payment>,
    balances: Table<EventBalance>,
    buyer_payments: Table<Vec<String>>,
    transfer_fees: Table<i128>,
}

impl TicketPaymentContract {
    /// The contract's own (holding) address.
    pub closed spec fn address(&self) -> Seq<char> {
        self.contract_address@
    }

    /// The hash of the code the contract runs.
    pub closed spec fn code_hash(&self) -> Seq<u8> {
        self.wasm_hash@
    }

    pub closed spec fn is_initialized(&self) -> bool {
        self.initialized
    }

    pub closed spec fn admin_of(&self) -> Option<Seq<char>> {
        opt_view(self.admin)
    }

    pub closed spec fn usdc_token_of(&self) -> Option<Seq<char>> {
        opt_view(self.usdc_token)
    }

    pub closed spec fn platform_wallet_of(&self) -> Option<Seq<char>> {
        opt_view(self.platform_wallet)
    }

    pub closed spec fn event_registry_of(&self) -> Option<Seq<char>> {
        opt_view(self.event_registry)
    }

    /// The tokens accepted for payment.
    pub closed spec fn allowed_tokens(&self) -> Set<Seq<char>> {
        Set::new(|t: Seq<char>| self.whitelist@.contains_key(t) && self.whitelist@[t])
    }

    /// Payment records by identifier.
    pub closed spec fn payments(&self) -> Map<Seq<char>, Payment> {
        self.payments@
    }

    /// Escrow balances by event; an event without an entry holds nothing.
    pub closed spec fn balances(&self) -> Map<Seq<char>, EventBalance> {
        self.balances@
    }

    /// The payment identifiers held by each buyer, in the order acquired.
    pub closed spec fn buyer_index(&self) -> Map<Seq<char>, Seq<Seq<char>>> {
        Map::new(
            |b: Seq<char>| self.buyer_payments@.contains_key(b),
            |b: Seq<char>| ids(self.buyer_payments@[b]@),
        )
    }

    /// Transfer fees by event; an event without an entry charges nothing.
    pub closed spec fn transfer_fees(&self) -> Map<Seq<char>, i128> {
        self.transfer_fees@
    }

    /// The tables are well formed, every balance is non-negative with a
    /// lifetime revenue that fits an `i128`, every transfer fee is
    /// non-negative, and an initialized contract has its whole configuration.
    pub closed spec fn wf(&self) -> bool {
        &&& self.whitelist.wf()
        &&& self.payments.wf()
        &&& self.balances.wf()
        &&& self.buyer_payments.wf()
        &&& self.transfer_fees.wf()
        &&& forall|e: Seq<char>| #[trigger]
            self.balances@.contains_key(e) ==> balance_ok(self.balances@[e])
        &&& forall|e: Seq<char>| #[trigger]
            self.transfer_fees@.contains_key(e) ==> self.transfer_fees@[e] >= 0
        &&& self.initialized ==> (self.admin is Some && self.usdc_token is Some
            && self.platform_wallet is Some && self.event_registry is Some)
    }

    /// The escrow balance of event `e`.
    pub open spec fn balance_of(&self, e: Seq<char>) -> EventBalance {
        if self.balances().contains_key(e) {
            self.balances()[e]
        } else {
            zero_balance()
        }
    }

    /// The payments held by buyer `b`.
    pub open spec fn buyer_payments_of(&self, b: Seq<char>) -> Seq<Seq<char>> {
        if self.buyer_index().contains_key(b) {
            self.buyer_index()[b]
        } else {
            Seq::empty()
        }
    }

    /// The fee charged for passing on a ticket of event `e`.
    pub open spec fn transfer_fee_of(&self, e: Seq<char>) -> i128 {
        if self.transfer_fees().contains_key(e) {
            self.transfer_fees()[e]
        } else {
            0
        }
    }

    /// `self` and `other` have the same address, code and configuration.
    pub open spec fn same_config(&self, other: &Self) -> bool {
        &&& self.address() == other.address()
        &&& self.code_hash() == other.code_hash()
        &&& self.is_initialized() == other.is_initialized()
        &&& self.admin_of() == other.admin_of()
        &&& self.usdc_token_of() == other.usdc_token_of()
        &&& self.platform_wallet_of() == other.platform_wallet_of()
        &&& self.event_registry_of() == other.event_registry_of()
        &&& self.allowed_tokens() == other.allowed_tokens()
    }

    /// `self` and `other` hold the same ledgers.
    pub open spec fn same_ledgers(&self, other: &Self) -> bool {
        &&& self.payments() == other.payments()
        &&& self.balances() == other.balances()
        &&& self.buyer_index() == other.buyer_index()
        &&& self.transfer_fees() == other.transfer_fees()
    }

    /// A contract at `contract_address`, running the code of `wasm_hash`,
    /// with empty ledgers and not yet configured.
    pub fn new(contract_address: String, wasm_hash: Vec<u8>) -> (c: Self)
        ensures
            c.wf(),
            c.address() == contract_address@,
            c.code_hash() == wasm_hash@,
            !c.is_initialized(),
            c.admin_of() is None,
            c.usdc_token_of() is None,
            c.platform_wallet_of() is None,
            c.event_registry_of() is None,
            c.allowed_tokens() == Set::<Seq<char>>::empty(),
            c.payments() == Map::<Seq<char>, Payment>::empty(),
            c.balances() == Map::<Seq<char>, EventBalance>::empty(),
            c.buyer_index() == Map::<Seq<char>, Seq<Seq<char>>>::empty(),
            c.transfer_fees() == Map::<Seq<char>, i128>::empty(),
    {
        let c = TicketPaymentContract {
            contract_address,
            wasm_hash,
            initialized: false,
            admin: None,
            usdc_token: None,
            platform_wallet: None,
            event_registry: None,
            whitelist: Table::new(),
            payments: Table::new(),
            balances: Table::new(),
            buyer_payments: Table::new(),
            transfer_fees: Table::new(),
        };
        assert(c.allowed_tokens() =~= Set::<Seq<char>>::empty());
        assert(c.buyer_index() =~= Map::<Seq<char>, Seq<Seq<char>>>::empty());
        c
    }
    /// Configures the contract once: admin, the default token (which becomes
    /// whitelisted), platform wallet and event registry. Fails
    /// `AlreadyInitialized` on a second call and `InvalidAddress` when any of
    /// the four is the contract's own address; nothing changes on failure.
    pub fn initialize(
        &mut self,
        admin: String,
        usdc_token: String,
        platform_wallet: String,
        event_registry: String,
    ) -> (r: Result<InitializationEvent, TicketPaymentError>)
        requires
            old(self).wf(),
        ensures
            final(self).wf(),
            old(self).is_initialized() ==> r == Err::<InitializationEvent, TicketPaymentError>(
                TicketPaymentError::AlreadyInitialized,
            ),
            !old(self).is_initialized() && (admin@ == old(self).address() || usdc_token@ == old(
                self,
            ).address() || platform_wallet@ == old(self).address() || event_registry@ == old(
                self,
            ).address()) ==> r == Err::<InitializationEvent, TicketPaymentError>(
                TicketPaymentError::InvalidAddress,
            ),
            !old(self).is_initialized() && admin@ != old(self).address() && usdc_token@ != old(
                self,
            ).address() && platform_wallet@ != old(self).address() && event_registry@ != old(
                self,
            ).address() ==> r is Ok,
            r is Err ==> *final(self) == *old(self),
            r matches Ok(ev) ==> {
                &&& !old(self).is_initialized()
                &&& admin@ != old(self).address()
                &&& usdc_token@ != old(self).address()
                &&& platform_wallet@ != old(self).address()
                &&& event_registry@ != old(self).address()
                &&& final(self).is_initialized()
                &&& final(self).admin_of() == Some(admin@)
                &&& final(self).usdc_token_of() == Some(usdc_token@)
                &&& final(self).platform_wallet_of() == Some(platform_wallet@)
                &&& final(self).event_registry_of() == Some(event_registry@)
                &&& final(self).allowed_tokens() == old(self).allowed_tokens().insert(usdc_token@)
                &&& final(self).address() == old(self).address()
                &&& final(self).code_hash() == old(self).code_hash()
                &&& final(self).same_ledgers(&*old(self))
                &&& ev.usdc_token@ == usdc_token@
                &&& ev.platform_wallet@ == platform_wallet@
                &&& ev.event_registry@ == event_registry@
            },
    {
        if self.initialized {
            return Err(TicketPaymentError::AlreadyInitialized);
        }
        if let Err(x) = self.validate_address(&admin) {
            return Err(x);
        }
        if let Err(x) = self.validate_address(&usdc_token) {
            return Err(x);
        }
        if let Err(x) = self.validate_address(&platform_wallet) {
            return Err(x);
        }
        if let Err(x) = self.validate_address(&event_registry) {
            return Err(x);
        }
        let ghost before = *self;
        self.admin = Some(admin);
        self.usdc_token = Some(usdc_token.clone());
        self.platform_wallet = Some(platform_wallet.clone());
        self.event_registry = Some(event_registry.clone());
        self.initialized = true;
        self.whitelist.insert(usdc_token.clone(), true);
        proof {
            assert(self.allowed_tokens() =~= before.allowed_tokens().insert(usdc_token@));
        }
        Ok(InitializationEvent { usdc_token, platform_wallet, event_registry })
    }

    /// An address the contract is configured with may not be its own.
    fn validate_address(&self, address: &String) -> (r: Result<(), TicketPaymentError>)
        ensures
            r == if address@ == self.address() {
                Err::<(), TicketPaymentError>(TicketPaymentError::InvalidAddress)
            } else {
                Ok(())
            },
    {
        if *address == self.contract_address {
            Err(TicketPaymentError::InvalidAddress)
        } else {
            Ok(())
        }
    }

    /// Replaces the contract's code; only the admin may do so.
    pub fn upgrade(&mut self, caller: &String, new_wasm_hash: Vec<u8>) -> (r: Result<
        ContractUpgraded,
        TicketPaymentError,
    >)
        requires
            old(self).wf(),
            old(self).is_initialized(),
        ensures
            final(self).wf(),
            Some(caller@) != old(self).admin_of() ==> r == Err::<
                ContractUpgraded,
                TicketPaymentError,
            >(TicketPaymentError::Unauthorized) && *final(self) == *old(self),
            Some(caller@) == old(self).admin_of() ==> r is Ok,
            r matches Ok(ev) ==> {
                &&& ev.old_wasm_hash@ == old(self).code_hash()
                &&& ev.new_wasm_hash@ == new_wasm_hash@
                &&& final(self).code_hash() == new_wasm_hash@
                &&& final(self).address() == old(self).address()
                &&& final(self).is_initialized()
                &&& final(self).admin_of() == old(self).admin_of()
                &&& final(self).usdc_token_of() == old(self).usdc_token_of()
                &&& final(self).platform_wallet_of() == old(self).platform_wallet_of()
                &&& final(self).event_registry_of() == old(self).event_registry_of()
                &&& final(self).allowed_tokens() == old(self).allowed_tokens()
                &&& final(self).same_ledgers(&*old(self))
            },
    {
        if !self.is_admin(caller) {
            return Err(TicketPaymentError::Unauthorized);
        }
        let old_wasm_hash = self.wasm_hash.clone();
        let installed = new_wasm_hash.clone();
        proof {
            assert(old_wasm_hash@ =~= self.wasm_hash@);
            assert(installed@ =~= new_wasm_hash@);
        }
        self.wasm_hash = installed;
        Ok(ContractUpgraded { old_wasm_hash, new_wasm_hash })
    }

    fn is_admin(&self, caller: &String) -> (r: bool)
        ensures
            r == (Some(caller@) == self.admin_of()),
    {
        match &self.admin {
            Some(a) => *a == *caller,
            None => false,
        }
    }

    /// Whitelists `token`; only the admin may do so.
    pub fn add_token(&mut self, caller: &String, token: String) -> (r: Result<
        (),
        TicketPaymentError,
    >)
        requires
            old(self).wf(),
            old(self).is_initialized(),
        ensures
            final(self).wf(),
            Some(caller@) != old(self).admin_of() ==> r == Err::<(), TicketPaymentError>(
                TicketPaymentError::Unauthorized,
            ) && *final(self) == *old(self),
            Some(caller@) == old(self).admin_of() ==> r is Ok && final(self).allowed_tokens()
                == old(self).allowed_tokens().insert(token@),
            final(self).same_ledgers(&*old(self)),
            final(self).address() == old(self).address(),
            final(self).code_hash() == old(self).code_hash(),
            final(self).is_initialized(),
            final(self).admin_of() == old(self).admin_of(),
            final(self).usdc_token_of() == old(self).usdc_token_of(),
            final(self).platform_wallet_of() == old(self).platform_wallet_of(),
            final(self).event_registry_of() == old(self).event_registry_of(),
    {
        if !self.is_admin(caller) {
            return Err(TicketPaymentError::Unauthorized);
        }
        let ghost before = *self;
        let ghost t = token@;
        self.whitelist.insert(token, true);
        proof {
            assert(self.allowed_tokens() =~= before.allowed_tokens().insert(t));
        }
        Ok(())
    }

    /// Takes `token` off the whitelist; only the admin may do so.
    pub fn remove_token(&mut self, caller: &String, token: String) -> (r: Result<
        (),
        TicketPaymentError,
    >)
        requires
            old(self).wf(),
            old(self).is_initialized(),
        ensures
            final(self).wf(),
            Some(caller@) != old(self).admin_of() ==> r == Err::<(), TicketPaymentError>(
                TicketPaymentError::Unauthorized,
            ) && *final(self) == *old(self),
            Some(caller@) == old(self).admin_of() ==> r is Ok && final(self).allowed_tokens()
                == old(self).allowed_tokens().remove(token@),
            final(self).same_ledgers(&*old(self)),
            final(self).address() == old(self).address(),
            final(self).code_hash() == old(self).code_hash(),
            final(self).is_initialized(),
            final(self).admin_of() == old(self).admin_of(),
            final(self).usdc_token_of() == old(self).usdc_token_of(),
            final(self).platform_wallet_of() == old(self).platform_wallet_of(),
            final(self).event_registry_of() == old(self).event_registry_of(),
    {
        if !self.is_admin(caller) {
            return Err(TicketPaymentError::Unauthorized);
        }
        let ghost before = *self;
        let ghost t = token@;
        self.whitelist.insert(token, false);
        proof {
            assert(self.allowed_tokens() =~= before.allowed_tokens().remove(t));
        }
        Ok(())
    }

    /// Whether `token` is accepted for payment.
    pub fn is_token_allowed(&self, token: &String) -> (r: bool)
        requires
            self.wf(),
        ensures
            r == self.allowed_tokens().contains(token@),
    {
        match self.whitelist.get(token) {
            Some(b) => *b,
            None => false,
        }
    }
}

/// Whether `id` names one of the first `n` tickets of a purchase of
/// `quantity` tickets recorded under `base`.
pub open spec fn is_ticket_of(base: Seq<char>, quantity: nat, n: nat, id: Seq<char>) -> bool {
    exists|i: nat| i < n && id == #[trigger] ticket_id_of(base, i, quantity)
}

/// A buyer's list after the first `n` tickets of a purchase were added to it.
pub open spec fn with_tickets(l: Seq<Seq<char>>, base: Seq<char>, quantity: nat, n: nat) -> Seq<
    Seq<char>,
>
    decreases n,
{
    if n == 0 {
        l
    } else {
        with_id(with_tickets(l, base, quantity, (n - 1) as nat), ticket_id_of(base, (n - 1) as nat, quantity))
    }
}

/// `p` is the pending record of ticket `id` of purchase `req`, split by `q`,
/// made at `now`: each ticket carries the price of one unit and an equal
/// share of the fee and of the organizer's amount, rounded down.
pub open spec fn is_pending_ticket(
    p: Payment,
    id: Seq<char>,
    req: &PaymentRequest,
    q: PaymentQuote,
    now: u64,
) -> bool {
    &&& p.payment_id@ == id
    &&& p.event_id == req.event_id
    &&& p.buyer_address == req.buyer_address
    &&& p.ticket_tier_id == req.ticket_tier_id
    &&& p.amount == req.amount
    &&& p.platform_fee == q.platform_fee / (req.quantity as i128)
    &&& p.organizer_amount == q.organizer_amount / (req.quantity as i128)
    &&& p.status == PaymentStatus::Pending
    &&& p.transaction_hash@ == Seq::<char>::empty()
    &&& p.created_at == now
    &&& p.confirmed_at is None
}

/// Records the `quantity` tickets of `req` in `payments` and appends their
/// identifiers to the buyer's `list`.
fn record_tickets(
    payments: &mut Table<Payment>,
    list: &mut Vec<String>,
    req: &PaymentRequest,
    q: PaymentQuote,
    now: u64,
)
    requires
        old(payments).wf(),
        req.quantity > 0,
        q.platform_fee >= 0,
        q.organizer_amount >= 0,
    ensures
        final(payments).wf(),
        forall|id: Seq<char>| #[trigger]
            final(payments)@.contains_key(id) <==> (old(payments)@.contains_key(id) || is_ticket_of(
                req.payment_id@,
                req.quantity as nat,
                req.quantity as nat,
                id,
            )),
        forall|id: Seq<char>|
            is_ticket_of(req.payment_id@, req.quantity as nat, req.quantity as nat, id)
                ==> is_pending_ticket(#[trigger] final(payments)@[id], id, req, q, now),
        forall|id: Seq<char>|
            !is_ticket_of(req.payment_id@, req.quantity as nat, req.quantity as nat, id)
                && old(payments)@.contains_key(id) ==> #[trigger] final(payments)@[id] == old(
                payments,
            )@[id],
        ids(final(list)@) == with_tickets(
            ids(old(list)@),
            req.payment_id@,
            req.quantity as nat,
            req.quantity as nat,
        ),
{
    let ghost base = req.payment_id@;
    let ghost qty = req.quantity as nat;
    let ghost pay0 = payments@;
    let ghost list0 = ids(list@);
    let fee_each = q.platform_fee / (req.quantity as i128);
    let org_each = q.organizer_amount / (req.quantity as i128);
    let mut i: u32 = 0;
    while i < req.quantity
        invariant
            i <= req.quantity,
            req.quantity > 0,
            q.platform_fee >= 0,
            q.organizer_amount >= 0,
            base == req.payment_id@,
            qty == req.quantity as nat,
            payments.wf(),
            fee_each == q.platform_fee / (req.quantity as i128),
            org_each == q.organizer_amount / (req.quantity as i128),
            forall|id: Seq<char>| #[trigger]
                payments@.contains_key(id) <==> (pay0.contains_key(id) || is_ticket_of(
                    base,
                    qty,
                    i as nat,
                    id,
                )),
            forall|id: Seq<char>|
                is_ticket_of(base, qty, i as nat, id) ==> is_pending_ticket(
                    #[trigger] payments@[id],
                    id,
                    req,
                    q,
                    now,
                ),
            forall|id: Seq<char>|
                !is_ticket_of(base, qty, i as nat, id) && pay0.contains_key(id)
                    ==> #[trigger] payments@[id] == pay0[id],
            ids(list@) == with_tickets(list0, base, qty, i as nat),
        decreases req.quantity - i,
    {
        let id = ticket_id(&req.payment_id, i, req.quantity);
        let ghost tid = id@;
        let p = Payment {
            payment_id: id.clone(),
            event_id: req.event_id.clone(),
            buyer_address: req.buyer_address.clone(),
            ticket_tier_id: req.ticket_tier_id.clone(),
            amount: req.amount,
            platform_fee: fee_each,
            organizer_amount: org_each,
            status: PaymentStatus::Pending,
            transaction_hash: String::new(),
            created_at: now,
            confirmed_at: None,
        };
        let ghost prev = payments@;
        payments.insert(id.clone(), p);
        push_unique(list, id);
        proof {
            assert forall|k: Seq<char>|
                is_ticket_of(base, qty, (i + 1) as nat, k) == (is_ticket_of(base, qty, i as nat, k)
                    || k == tid) by {
                if is_ticket_of(base, qty, (i + 1) as nat, k) {
                    let j = choose|j: nat| j < i + 1 && k == #[trigger] ticket_id_of(base, j, qty);
                    if j < i {
                        assert(is_ticket_of(base, qty, i as nat, k));
                    }
                }
                if is_ticket_of(base, qty, i as nat, k) {
                    let j = choose|j: nat| j < i && k == #[trigger] ticket_id_of(base, j, qty);
                    assert(j < i + 1 && k == ticket_id_of(base, j, qty));
                }
                if k == tid {
                    assert(i < i + 1 && k == ticket_id_of(base, i as nat, qty));
                }
            }
        }
        i = i + 1;
    }
}

impl TicketPaymentContract {
    /// The local checks of a purchase, made before any outside call: the token
    /// must be whitelisted, the total must fit an `i128`, and the tickets'
    /// identifiers must be free.
    pub open spec fn opening_check(&self, req: &PaymentRequest) -> Result<i128, TicketPaymentError> {
        if !self.allowed_tokens().contains(req.token_address@) {
            Err(TicketPaymentError::TokenNotWhitelisted)
        } else if req.amount * req.quantity > i128::MAX {
            Err(TicketPaymentError::ArithmeticError)
        } else if self.ticket_taken(req) {
            Err(TicketPaymentError::PaymentAlreadyExists)
        } else {
            Ok((req.amount * req.quantity) as i128)
        }
    }

    /// Whether a record already exists under the identifier of one of the
    /// tickets of `req`.
    pub open spec fn ticket_taken(&self, req: &PaymentRequest) -> bool {
        exists|i: nat|
            i < req.quantity && self.payments().contains_key(
                #[trigger] ticket_id_of(req.payment_id@, i, req.quantity as nat),
            )
    }

    fn any_ticket_taken(&self, req: &PaymentRequest) -> (r: bool)
        requires
            self.wf(),
        ensures
            r == self.ticket_taken(req),
    {
        let mut i: u32 = 0;
        while i < req.quantity
            invariant
                self.wf(),
                i <= req.quantity,
                forall|j: nat|
                    j < i ==> !self.payments().contains_key(
                        #[trigger] ticket_id_of(req.payment_id@, j, req.quantity as nat),
                    ),
            decreases req.quantity - i,
        {
            let id = ticket_id(&req.payment_id, i, req.quantity);
            if self.payments.contains_key(&id) {
                proof {
                    assert(self.payments().contains_key(
                        ticket_id_of(req.payment_id@, i as nat, req.quantity as nat),
                    ));
                }
                return true;
            }
            i = i + 1;
        }
        false
    }

    /// Every check of a purchase, in the order made, against what the
    /// registry returned for the event, the buyer's allowance, and the holding
    /// balance before and after the transfer; `Ok` carries the split.
    pub open spec fn payment_check(
        &self,
        req: &PaymentRequest,
        event: Option<&EventInfo>,
        allowance: i128,
        balance_before: i128,
        balance_after: i128,
    ) -> Result<PaymentQuote, TicketPaymentError> {
        match self.opening_check(req) {
            Err(x) => Err(x),
            Ok(total) => match quote_spec(total, event) {
                Err(x) => Err(x),
                Ok(q) => if allowance < total {
                    Err(TicketPaymentError::InsufficientAllowance)
                } else if balance_after - balance_before != total {
                    Err(TicketPaymentError::TransferVerificationFailed)
                } else if revenue(self.balance_of(req.event_id@)) + q.organizer_amount > i128::MAX
                    || self.balance_of(req.event_id@).platform_fee + q.platform_fee > i128::MAX {
                    Err(TicketPaymentError::ArithmeticError)
                } else {
                    Ok(q)
                },
            },
        }
    }

    /// `after` is `self` with purchase `req`, split by `q`, recorded at `now`:
    /// the event's escrow credited with both shares, one pending record per
    /// ticket, the tickets added to the buyer's list; nothing else changed.
    pub open spec fn payment_recorded(
        &self,
        after: &Self,
        req: &PaymentRequest,
        q: PaymentQuote,
        now: u64,
    ) -> bool {
        let base = req.payment_id@;
        let n = req.quantity as nat;
        &&& after.same_config(self)
        &&& after.transfer_fees() == self.transfer_fees()
        &&& after.balances().dom() == self.balances().dom().insert(req.event_id@)
        &&& after.balance_of(req.event_id@)@ == step(
            self.balance_of(req.event_id@)@,
            EscrowStep::Credit {
                organizer: q.organizer_amount as int,
                platform: q.platform_fee as int,
            },
        )
        &&& forall|e: Seq<char>|
            e != req.event_id@ ==> #[trigger] after.balance_of(e) == self.balance_of(e)
        &&& forall|id: Seq<char>| #[trigger]
            after.payments().contains_key(id) <==> (self.payments().contains_key(id)
                || is_ticket_of(base, n, n, id))
        &&& forall|id: Seq<char>|
            is_ticket_of(base, n, n, id) ==> is_pending_ticket(
                #[trigger] after.payments()[id],
                id,
                req,
                q,
                now,
            )
        &&& forall|id: Seq<char>|
            !is_ticket_of(base, n, n, id) && self.payments().contains_key(id)
                ==> #[trigger] after.payments()[id] == self.payments()[id]
        &&& after.buyer_index() == self.buyer_index().insert(
            req.buyer_address@,
            with_tickets(self.buyer_payments_of(req.buyer_address@), base, n, n),
        )
    }

    /// The checks of a purchase that come before any outside call: the token
    /// must be whitelisted, the total price must fit an `i128`, and no record
    /// may exist yet under the identifier of any of its tickets. Returns the
    /// total.
    pub fn open_payment(&self, req: &PaymentRequest) -> (r: Result<i128, TicketPaymentError>)
        requires
            self.wf(),
            req.amount > 0,
            req.quantity > 0,
        ensures
            r == self.opening_check(req),
            r matches Ok(t) ==> t > 0,
    {
        if !self.is_token_allowed(&req.token_address) {
            return Err(TicketPaymentError::TokenNotWhitelisted);
        }
        let total = match total_price(req.amount, req.quantity) {
            Ok(t) => t,
            Err(x) => {
                return Err(x);
            },
        };
        if self.any_ticket_taken(req) {
            return Err(TicketPaymentError::PaymentAlreadyExists);
        }
        Ok(total)
    }

    /// Settles a purchase of `req.quantity` tickets at `req.amount` each.
    ///
    /// `event` is what the registry returned for the event, `allowance` what
    /// the buyer had authorised the contract to take, and `balance_before` and
    /// `balance_after` the contract's holding balance around the transfer of
    /// the total. On success the event's escrow is credited with the platform
    /// fee (on the whole total, rounded down) and the organizer's rest, and
    /// one pending record per ticket is stored and listed under the buyer; the
    /// caller then asks the registry to count the tickets as sold. On failure
    /// nothing changes.
    pub fn process_payment(
        &mut self,
        req: &PaymentRequest,
        event: Option<&EventInfo>,
        allowance: i128,
        balance_before: i128,
        balance_after: i128,
        now: u64,
    ) -> (r: Result<PaymentProcessedEvent, TicketPaymentError>)
        requires
            old(self).wf(),
            old(self).is_initialized(),
            req.amount > 0,
            req.quantity > 0,
        ensures
            final(self).wf(),
            match old(self).payment_check(req, event, allowance, balance_before, balance_after) {
                Err(x) => r == Err::<PaymentProcessedEvent, TicketPaymentError>(x) && *final(self)
                    == *old(self),
                Ok(q) => {
                    &&& q.total_amount == req.amount * req.quantity
                    &&& q.platform_fee + q.organizer_amount == q.total_amount
                    &&& old(self).payment_recorded(&*final(self), req, q, now)
                    &&& forall|id: Seq<char>| #[trigger]
                        old(self).payments().contains_key(id) ==> final(self).payments().contains_key(
                            id,
                        ) && final(self).payments()[id] == old(self).payments()[id]
                    &&& match r {
                        Ok(ev) => {
                            &&& ev.payment_id == req.payment_id
                            &&& ev.event_id == req.event_id
                            &&& ev.buyer_address == req.buyer_address
                            &&& ev.amount == q.total_amount
                            &&& ev.platform_fee == q.platform_fee
                            &&& ev.timestamp == now
                        },
                        Err(_) => false,
                    }
                },
            },
    {
        let total = match self.open_payment(req) {
            Ok(t) => t,
            Err(x) => {
                return Err(x);
            },
        };
        let q = match quote_payment(total, event) {
            Ok(q) => q,
            Err(x) => {
                return Err(x);
            },
        };
        if let Err(x) = check_allowance(total, allowance) {
            return Err(x);
        }
        if let Err(x) = verify_transfer(total, balance_before, balance_after) {
            return Err(x);
        }
        let held = self.get_event_escrow_balance(&req.event_id);
        let credited = match held.credit(q.organizer_amount, q.platform_fee) {
            Some(b) => b,
            None => {
                return Err(TicketPaymentError::ArithmeticError);
            },
        };
        let ghost before = *self;
        self.balances.insert(req.event_id.clone(), credited);
        let mut list = match self.buyer_payments.get(&req.buyer_address) {
            Some(v) => v.clone(),
            None => Vec::new(),
        };
        proof {
            assert(ids(list@) == before.buyer_payments_of(req.buyer_address@)) by {
                if before.buyer_payments@.contains_key(req.buyer_address@) {
                    assert(list@ =~= before.buyer_payments@[req.buyer_address@]@);
                } else {
                    assert(ids(list@) =~= Seq::<Seq<char>>::empty());
                }
            }
        }
        record_tickets(&mut self.payments, &mut list, req, q, now);
        let ghost l = ids(list@);
        self.buyer_payments.insert(req.buyer_address.clone(), list);
        proof {
            assert forall|e: Seq<char>| #[trigger]
                self.balances@.contains_key(e) implies balance_ok(self.balances@[e]) by {
                if e != req.event_id@ {
                    assert(before.balances@.contains_key(e));
                }
            }
            assert(self.balances().dom() =~= before.balances().dom().insert(req.event_id@));
            assert(self.buyer_index() =~= before.buyer_index().insert(req.buyer_address@, l));
            assert(self.allowed_tokens() =~= before.allowed_tokens());
        }
        Ok(
            PaymentProcessedEvent {
                payment_id: req.payment_id.clone(),
                event_id: req.event_id.clone(),
                buyer_address: req.buyer_address.clone(),
                amount: total,
                platform_fee: q.platform_fee,
                timestamp: now,
            },
        )
    }

    /// The escrow balance of `event_id`; zero for an event never paid for.
    pub fn get_event_escrow_balance(&self, event_id: &String) -> (b: EventBalance)
        requires
            self.wf(),
        ensures
            b == self.balance_of(event_id@),
            balance_ok(b),
    {
        match self.balances.get(event_id) {
            Some(b) => *b,
            None => EventBalance::zero(),
        }
    }
}

/// `p` confirmed at `now` under the settlement reference `tx`.
pub open spec fn confirmed(p: Payment, tx: String, now: u64) -> Payment {
    Payment { status: PaymentStatus::Confirmed, transaction_hash: tx, confirmed_at: Some(now), ..p }
}

/// Whether `p` may be confirmed: it is pending, or confirmed already.
pub open spec fn confirmable(p: Payment) -> bool {
    p.status == PaymentStatus::Pending || p.status == PaymentStatus::Confirmed
}

/// `p` refunded at `now`.
pub open spec fn refunded(p: Payment, now: u64) -> Payment {
    Payment { status: PaymentStatus::Refunded, confirmed_at: Some(now), ..p }
}

/// `p` handed to a new holder `to`.
pub open spec fn handed_to(p: Payment, to: String) -> Payment {
    Payment { buyer_address: to, ..p }
}

/// Whether `caller` may have payment `p` refunded, given what the registry
/// returned for its event: the caller must hold it, it must not be refunded or
/// failed, its event and tier must exist, and the tier must be refundable
/// unless the event was deactivated.
pub open spec fn refund_check(p: Payment, caller: Seq<char>, event: Option<&EventInfo>) -> Result<
    (),
    TicketPaymentError,
> {
    if caller != p.buyer_address@ {
        Err(TicketPaymentError::Unauthorized)
    } else if p.status == PaymentStatus::Refunded || p.status == PaymentStatus::Failed {
        Err(TicketPaymentError::InvalidPaymentStatus)
    } else {
        match event {
            None => Err(TicketPaymentError::EventNotFound),
            Some(e) => if !e.tiers@.contains_key(p.ticket_tier_id@) {
                Err(TicketPaymentError::TierNotFound)
            } else if !e.tiers@[p.ticket_tier_id@].is_refundable && e.is_active {
                Err(TicketPaymentError::TicketNotRefundable)
            } else {
                Ok(())
            },
        }
    }
}

/// Whether `caller` may pass payment `p` on to `to`, and whether the transfer
/// fee `fee` fits the escrow `b`: the payment must be confirmed, held by the
/// caller, and go to someone else.
pub open spec fn transfer_check(
    p: Payment,
    caller: Seq<char>,
    to: Seq<char>,
    fee: i128,
    b: EventBalance,
) -> Result<(), TicketPaymentError> {
    if p.status != PaymentStatus::Confirmed {
        Err(TicketPaymentError::InvalidPaymentStatus)
    } else if caller != p.buyer_address@ {
        Err(TicketPaymentError::Unauthorized)
    } else if to == p.buyer_address@ {
        Err(TicketPaymentError::InvalidAddress)
    } else if fee > 0 && revenue(b) + fee > i128::MAX {
        Err(TicketPaymentError::ArithmeticError)
    } else {
        Ok(())
    }
}

impl TicketPaymentContract {
    /// Every event other than `e` has the same balance in `self` and `other`.
    pub open spec fn balances_agree_except(&self, other: &Self, e: Seq<char>) -> bool {
        forall|k: Seq<char>| k != e ==> #[trigger] self.balance_of(k) == other.balance_of(k)
    }

    /// Marks a pending (or already confirmed) payment confirmed under the
    /// external settlement reference `transaction_hash`, stamping `now`. A
    /// refunded or failed payment is left as it is, and so is one that does not
    /// exist; the notification is returned either way.
    ///
    /// Anyone may confirm: checking the settlement is left to the caller.
    pub fn confirm_payment(&mut self, payment_id: &String, transaction_hash: &String, now: u64) -> (ev:
        PaymentStatusChangedEvent)
        requires
            old(self).wf(),
            old(self).is_initialized(),
        ensures
            final(self).wf(),
            final(self).same_config(&*old(self)),
            final(self).balances() == old(self).balances(),
            final(self).buyer_index() == old(self).buyer_index(),
            final(self).transfer_fees() == old(self).transfer_fees(),
            final(self).payments() == if old(self).payments().contains_key(payment_id@)
                && confirmable(old(self).payments()[payment_id@]) {
                old(self).payments().insert(
                    payment_id@,
                    confirmed(old(self).payments()[payment_id@], *transaction_hash, now),
                )
            } else {
                old(self).payments()
            },
            ev.payment_id == *payment_id,
            ev.old_status == PaymentStatus::Pending,
            ev.new_status == PaymentStatus::Confirmed,
            ev.transaction_hash == *transaction_hash,
            ev.timestamp == now,
    {
        let found = match self.payments.get(payment_id) {
            Some(p) => Some(p.clone()),
            None => None,
        };
        if let Some(mut p) = found {
            if p.status != PaymentStatus::Pending && p.status != PaymentStatus::Confirmed {
                return PaymentStatusChangedEvent {
                    payment_id: payment_id.clone(),
                    old_status: PaymentStatus::Pending,
                    new_status: PaymentStatus::Confirmed,
                    transaction_hash: transaction_hash.clone(),
                    timestamp: now,
                };
            }
            p.status = PaymentStatus::Confirmed;
            p.transaction_hash = transaction_hash.clone();
            p.confirmed_at = Some(now);
            self.payments.insert(payment_id.clone(), p);
        }
        PaymentStatusChangedEvent {
            payment_id: payment_id.clone(),
            old_status: PaymentStatus::Pending,
            new_status: PaymentStatus::Confirmed,
            transaction_hash: transaction_hash.clone(),
            timestamp: now,
        }
    }

    /// Refunds a ticket at its holder's request, given what the registry
    /// returned for its event. On success the payment is marked refunded at
    /// `now` and the caller then asks the registry to return the ticket to its
    /// tier's inventory. On failure nothing changes.
    ///
    /// No money moves here: the escrow keeps the ticket's credit and the
    /// buyer is not paid back. Reversing the credit is a separate step that
    /// this ledger does not take.
    pub fn request_guest_refund(
        &mut self,
        payment_id: &String,
        caller: &String,
        event: Option<&EventInfo>,
        now: u64,
    ) -> (r: Result<PaymentStatusChangedEvent, TicketPaymentError>)
        requires
            old(self).wf(),
            old(self).is_initialized(),
            event matches Some(e) ==> e.wf(),
        ensures
            final(self).wf(),
            !old(self).payments().contains_key(payment_id@) ==> r == Err::<
                PaymentStatusChangedEvent,
                TicketPaymentError,
            >(TicketPaymentError::PaymentNotFound) && *final(self) == *old(self),
            old(self).payments().contains_key(payment_id@) ==> {
                let p = old(self).payments()[payment_id@];
                match refund_check(p, caller@, event) {
                    Err(x) => r == Err::<PaymentStatusChangedEvent, TicketPaymentError>(x)
                        && *final(self) == *old(self),
                    Ok(_) => {
                        &&& final(self).same_config(&*old(self))
                        &&& final(self).balances() == old(self).balances()
                        &&& final(self).buyer_index() == old(self).buyer_index()
                        &&& final(self).transfer_fees() == old(self).transfer_fees()
                        &&& final(self).payments() == old(self).payments().insert(
                            payment_id@,
                            refunded(p, now),
                        )
                        &&& match r {
                            Ok(ev) => {
                                &&& ev.payment_id == *payment_id
                                &&& ev.old_status == p.status
                                &&& ev.new_status == PaymentStatus::Refunded
                                &&& ev.transaction_hash@ == "refund"@
                                &&& ev.timestamp == now
                            },
                            Err(_) => false,
                        }
                    },
                }
            },
    {
        let mut p = match self.payments.get(payment_id) {
            Some(p) => p.clone(),
            None => {
                return Err(TicketPaymentError::PaymentNotFound);
            },
        };
        if p.buyer_address != *caller {
            return Err(TicketPaymentError::Unauthorized);
        }
        if p.status == PaymentStatus::Refunded || p.status == PaymentStatus::Failed {
            return Err(TicketPaymentError::InvalidPaymentStatus);
        }
        let e = match event {
            Some(e) => e,
            None => {
                return Err(TicketPaymentError::EventNotFound);
            },
        };
        let refundable = match e.tiers.get(&p.ticket_tier_id) {
            Some(tier) => tier.is_refundable,
            None => {
                return Err(TicketPaymentError::TierNotFound);
            },
        };
        if !refundable && e.is_active {
            return Err(TicketPaymentError::TicketNotRefundable);
        }
        let old_status = p.status;
        p.status = PaymentStatus::Refunded;
        p.confirmed_at = Some(now);
        self.payments.insert(payment_id.clone(), p);
        Ok(
            PaymentStatusChangedEvent {
                payment_id: payment_id.clone(),
                old_status,
                new_status: PaymentStatus::Refunded,
                transaction_hash: String::from_str("refund"),
                timestamp: now,
            },
        )
    }

    /// Pays the organizer of an event what its release plan unlocks, given
    /// what the registry returned for the event; only the organizer may ask.
    ///
    /// The unlocked part of lifetime revenue is the highest release among the
    /// milestones whose threshold the event's sales reach (everything without
    /// a plan); what was already paid out is deducted and the rest is capped by
    /// what escrow holds. Returns the amount, which the caller then transfers
    /// to the organizer; 0 is a no-op. `ArithmeticError` when the unlocked
    /// amount does not fit an `i128`. On failure nothing changes.
    pub fn withdraw_organizer_funds(
        &mut self,
        event_id: &String,
        caller: &String,
        event: Option<&EventInfo>,
    ) -> (r: Result<i128, TicketPaymentError>)
        requires
            old(self).wf(),
        ensures
            final(self).wf(),
            final(self).same_config(&*old(self)),
            final(self).payments() == old(self).payments(),
            final(self).buyer_index() == old(self).buyer_index(),
            final(self).transfer_fees() == old(self).transfer_fees(),
            final(self).balances_agree_except(&*old(self), event_id@),
            r is Err ==> *final(self) == *old(self),
            match event {
                None => r == Err::<i128, TicketPaymentError>(TicketPaymentError::EventNotFound),
                Some(e) => if caller@ != e.organizer_address@ {
                    r == Err::<i128, TicketPaymentError>(TicketPaymentError::Unauthorized)
                } else {
                    let b = old(self).balance_of(event_id@);
                    let release = release_of(plan_view(e.milestone_plan), e.current_supply as int);
                    if revenue(b) * release > i128::MAX {
                        r == Err::<i128, TicketPaymentError>(TicketPaymentError::ArithmeticError)
                    } else {
                        let a = payout_of(b, release);
                        &&& r == Ok::<i128, TicketPaymentError>(a as i128)
                        &&& final(self).balance_of(event_id@)@ == step(
                            b@,
                            EscrowStep::PayOrganizer { amount: a },
                        )
                        &&& a == 0 ==> final(self).balances() == old(self).balances()
                    }
                },
            },
    {
        let e = match event {
            Some(e) => e,
            None => {
                return Err(TicketPaymentError::EventNotFound);
            },
        };
        if *caller != e.organizer_address {
            return Err(TicketPaymentError::Unauthorized);
        }
        let held = self.get_event_escrow_balance(event_id);
        let release = release_percent(&e.milestone_plan, e.current_supply);
        let amount = match held.organizer_payout(release) {
            Some(a) => a,
            None => {
                return Err(TicketPaymentError::ArithmeticError);
            },
        };
        if amount > 0 {
            let ghost before = *self;
            self.balances.insert(event_id.clone(), held.debit_organizer(amount));
            proof {
                assert forall|k: Seq<char>| #[trigger]
                    self.balances@.contains_key(k) implies balance_ok(self.balances@[k]) by {
                    if k != event_id@ {
                        assert(before.balances@.contains_key(k));
                    }
                }
                assert(self.allowed_tokens() =~= before.allowed_tokens());
                assert(self.buyer_index() =~= before.buyer_index());
            }
        }
        Ok(amount)
    }

    /// Pays out an event's whole platform share; only the admin may ask.
    /// Returns the amount, which the caller then transfers to the platform
    /// wallet. Fails `NotInitialized` while no admin is set; on failure nothing
    /// changes.
    pub fn withdraw_platform_fees(&mut self, event_id: &String, caller: &String) -> (r: Result<
        i128,
        TicketPaymentError,
    >)
        requires
            old(self).wf(),
        ensures
            final(self).wf(),
            final(self).same_config(&*old(self)),
            final(self).payments() == old(self).payments(),
            final(self).buyer_index() == old(self).buyer_index(),
            final(self).transfer_fees() == old(self).transfer_fees(),
            final(self).balances_agree_except(&*old(self), event_id@),
            r is Err ==> *final(self) == *old(self),
            old(self).admin_of() is None ==> r == Err::<i128, TicketPaymentError>(
                TicketPaymentError::NotInitialized,
            ),
            old(self).admin_of() is Some && old(self).admin_of() != Some(caller@) ==> r == Err::<
                i128,
                TicketPaymentError,
            >(TicketPaymentError::Unauthorized),
            old(self).admin_of() == Some(caller@) ==> {
                let b = old(self).balance_of(event_id@);
                &&& r == Ok::<i128, TicketPaymentError>(b.platform_fee)
                &&& final(self).balance_of(event_id@)@ == step(b@, EscrowStep::PayPlatform)
                &&& b.platform_fee == 0 ==> final(self).balances() == old(self).balances()
            },
    {
        if self.admin.is_none() {
            return Err(TicketPaymentError::NotInitialized);
        }
        if !self.is_admin(caller) {
            return Err(TicketPaymentError::Unauthorized);
        }
        let held = self.get_event_escrow_balance(event_id);
        if held.platform_fee == 0 {
            return Ok(0);
        }
        let ghost before = *self;
        self.balances.insert(event_id.clone(), held.debit_platform());
        proof {
            assert forall|k: Seq<char>| #[trigger]
                self.balances@.contains_key(k) implies balance_ok(self.balances@[k]) by {
                if k != event_id@ {
                    assert(before.balances@.contains_key(k));
                }
            }
            assert(self.allowed_tokens() =~= before.allowed_tokens());
            assert(self.buyer_index() =~= before.buyer_index());
        }
        Ok(held.platform_fee)
    }

    /// Sets the fee charged when a ticket of an event changes hands, given what
    /// the registry returned for the event; only its organizer may do so.
    pub fn set_transfer_fee(
        &mut self,
        event_id: &String,
        caller: &String,
        event: Option<&EventInfo>,
        amount: i128,
    ) -> (r: Result<(), TicketPaymentError>)
        requires
            old(self).wf(),
            old(self).is_initialized(),
            amount >= 0,
        ensures
            final(self).wf(),
            final(self).same_config(&*old(self)),
            final(self).payments() == old(self).payments(),
            final(self).balances() == old(self).balances(),
            final(self).buyer_index() == old(self).buyer_index(),
            r is Err ==> *final(self) == *old(self),
            match event {
                None => r == Err::<(), TicketPaymentError>(TicketPaymentError::EventNotFound),
                Some(e) => if caller@ != e.organizer_address@ {
                    r == Err::<(), TicketPaymentError>(TicketPaymentError::Unauthorized)
                } else {
                    r is Ok && final(self).transfer_fees() == old(self).transfer_fees().insert(
                        event_id@,
                        amount,
                    )
                },
            },
    {
        let e = match event {
            Some(e) => e,
            None => {
                return Err(TicketPaymentError::EventNotFound);
            },
        };
        if *caller != e.organizer_address {
            return Err(TicketPaymentError::Unauthorized);
        }
        let ghost before = *self;
        self.transfer_fees.insert(event_id.clone(), amount);
        proof {
            assert forall|k: Seq<char>| #[trigger]
                self.transfer_fees@.contains_key(k) implies self.transfer_fees@[k] >= 0 by {
                if k != event_id@ {
                    assert(before.transfer_fees@.contains_key(k));
                }
            }
            assert(self.allowed_tokens() =~= before.allowed_tokens());
            assert(self.buyer_index() =~= before.buyer_index());
        }
        Ok(())
    }

    /// The fee charged when a ticket of `event_id` changes hands.
    pub fn get_transfer_fee(&self, event_id: &String) -> (r: i128)
        requires
            self.wf(),
        ensures
            r == self.transfer_fee_of(event_id@),
            r >= 0,
    {
        match self.transfer_fees.get(event_id) {
            Some(f) => *f,
            None => 0,
        }
    }

    /// The list of payments held by `buyer`.
    fn buyer_list(&self, buyer: &String) -> (r: Vec<String>)
        requires
            self.wf(),
        ensures
            ids(r@) == self.buyer_payments_of(buyer@),
    {
        match self.buyer_payments.get(buyer) {
            Some(v) => {
                let r = v.clone();
                assert(r@ =~= v@);
                r
            },
            None => {
                let r: Vec<String> = Vec::new();
                assert(ids(r@) =~= Seq::<Seq<char>>::empty());
                r
            },
        }
    }

    /// Passes a confirmed ticket from its holder, the caller, to `to`. When its
    /// event has a transfer fee, the fee is credited in full to the
    /// organizer's share, and the caller then collects it from the old holder.
    /// The payment leaves the old holder's list and joins the new one's. On
    /// failure nothing changes.
    pub fn transfer_ticket(&mut self, payment_id: &String, caller: &String, to: String, now: u64) -> (r:
        Result<TicketTransferredEvent, TicketPaymentError>)
        requires
            old(self).wf(),
            old(self).is_initialized(),
        ensures
            final(self).wf(),
            !old(self).payments().contains_key(payment_id@) ==> r == Err::<
                TicketTransferredEvent,
                TicketPaymentError,
            >(TicketPaymentError::PaymentNotFound) && *final(self) == *old(self),
            old(self).payments().contains_key(payment_id@) ==> {
                let p = old(self).payments()[payment_id@];
                let from = p.buyer_address@;
                let fee = old(self).transfer_fee_of(p.event_id@);
                let b = old(self).balance_of(p.event_id@);
                match transfer_check(p, caller@, to@, fee, b) {
                    Err(x) => r == Err::<TicketTransferredEvent, TicketPaymentError>(x)
                        && *final(self) == *old(self),
                    Ok(_) => {
                        &&& final(self).same_config(&*old(self))
                        &&& final(self).transfer_fees() == old(self).transfer_fees()
                        &&& final(self).payments() == old(self).payments().insert(
                            payment_id@,
                            handed_to(p, to),
                        )
                        &&& final(self).balances_agree_except(&*old(self), p.event_id@)
                        &&& final(self).balance_of(p.event_id@)@ == step(
                            b@,
                            EscrowStep::Credit { organizer: fee as int, platform: 0 },
                        )
                        &&& fee == 0 ==> final(self).balances() == old(self).balances()
                        &&& final(self).buyer_index() == old(self).buyer_index().insert(
                            from,
                            without_id(old(self).buyer_payments_of(from), payment_id@),
                        ).insert(to@, with_id(old(self).buyer_payments_of(to@), payment_id@))
                        &&& match r {
                            Ok(ev) => {
                                &&& ev.payment_id == *payment_id
                                &&& ev.from == p.buyer_address
                                &&& ev.to == to
                                &&& ev.transfer_fee == fee
                                &&& ev.timestamp == now
                            },
                            Err(_) => false,
                        }
                    },
                }
            },
    {
        let mut p = match self.payments.get(payment_id) {
            Some(p) => p.clone(),
            None => {
                return Err(TicketPaymentError::PaymentNotFound);
            },
        };
        if p.status != PaymentStatus::Confirmed {
            return Err(TicketPaymentError::InvalidPaymentStatus);
        }
        if p.buyer_address != *caller {
            return Err(TicketPaymentError::Unauthorized);
        }
        if p.buyer_address == to {
            return Err(TicketPaymentError::InvalidAddress);
        }
        let fee = self.get_transfer_fee(&p.event_id);
        let held = self.get_event_escrow_balance(&p.event_id);
        let ghost before = *self;
        if fee > 0 {
            let credited = match held.credit(fee, 0) {
                Some(b) => b,
                None => {
                    return Err(TicketPaymentError::ArithmeticError);
                },
            };
            self.balances.insert(p.event_id.clone(), credited);
        }
        let from = p.buyer_address.clone();
        let from_list = remove_id(&self.buyer_list(&from), payment_id);
        let mut to_list = self.buyer_list(&to);
        p.buyer_address = to.clone();
        self.payments.insert(payment_id.clone(), p);
        self.buyer_payments.insert(from.clone(), from_list);
        push_unique(&mut to_list, payment_id.clone());
        self.buyer_payments.insert(to.clone(), to_list);
        proof {
            assert forall|k: Seq<char>| #[trigger]
                self.balances@.contains_key(k) implies balance_ok(self.balances@[k]) by {
                if fee > 0 && k != before.payments@[payment_id@].event_id@ {
                    assert(before.balances@.contains_key(k));
                }
            }
            assert(self.allowed_tokens() =~= before.allowed_tokens());
            assert(self.buyer_index() =~= before.buyer_index().insert(
                from@,
                without_id(before.buyer_payments_of(from@), payment_id@),
            ).insert(to@, with_id(before.buyer_payments_of(to@), payment_id@)));
        }
        Ok(TicketTransferredEvent { payment_id: payment_id.clone(), from, to, transfer_fee: fee, timestamp: now })
    }

    /// The record of payment `payment_id`, if there is one.
    pub fn get_payment_status(&self, payment_id: &String) -> (r: Option<Payment>)
        requires
            self.wf(),
        ensures
            r == if self.payments().contains_key(payment_id@) {
                Some(self.payments()[payment_id@])
            } else {
                None::<Payment>
            },
    {
        match self.payments.get(payment_id) {
            Some(p) => Some(p.clone()),
            None => None,
        }
    }

    /// The identifiers of the payments `buyer` holds, in the order acquired.
    pub fn get_buyer_payments(&self, buyer: &String) -> (r: Vec<String>)
        requires
            self.wf(),
        ensures
            ids(r@) == self.buyer_payments_of(buyer@),
    {
        self.buyer_list(buyer)
    }
}

impl TicketPaymentContract {
    /// Whether the contract has been configured.
    pub fn initialized(&self) -> (r: bool)
        ensures
            r == self.is_initialized(),
    {
        self.initialized
    }

    /// The contract's own address.
    pub fn contract_address(&self) -> (r: String)
        ensures
            r@ == self.address(),
    {
        self.contract_address.clone()
    }

    /// The admin, once configured.
    pub fn admin(&self) -> (r: Option<String>)
        ensures
            opt_view(r) == self.admin_of(),
    {
        self.admin.clone()
    }

    /// The default token, once configured.
    pub fn usdc_token(&self) -> (r: Option<String>)
        ensures
            opt_view(r) == self.usdc_token_of(),
    {
        self.usdc_token.clone()
    }

    /// The platform's wallet, once configured.
    pub fn platform_wallet(&self) -> (r: Option<String>)
        ensures
            opt_view(r) == self.platform_wallet_of(),
    {
        self.platform_wallet.clone()
    }

    /// The event registry's address, once configured.
    pub fn event_registry(&self) -> (r: Option<String>)
        ensures
            opt_view(r) == self.event_registry_of(),
    {
        self.event_registry.clone()
    }
}

} // verus!
