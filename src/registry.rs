use vstd::prelude::*;

use crate::index::{ids, push_unique, with_id};
use crate::table::Table;
use crate::types::{EventInfo, PaymentInfo};

verus! {

/// The event registry's records: its admin, the global platform fee, the
/// events by identifier and the events of each organizer.
pub struct RegistryStore {
    admin: Option<String>,
    platform_fee: Option<u32>,
    events: Table<EventInfo>,
    organizer_events: Table<Vec<String>>,
}

impl RegistryStore {
    pub closed spec fn admin_of(&self) -> Option<Seq<char>> {
        match self.admin {
            Some(a) => Some(a@),
            None => None,
        }
    }

    pub closed spec fn platform_fee_of(&self) -> Option<u32> {
        self.platform_fee
    }

    /// Events by identifier.
    pub closed spec fn events(&self) -> Map<Seq<char>, EventInfo> {
        self.events@
    }

    /// The events of each organizer, in the order first stored.
    pub closed spec fn organizer_index(&self) -> Map<Seq<char>, Seq<Seq<char>>> {
        Map::new(
            |o: Seq<char>| self.organizer_events@.contains_key(o),
            |o: Seq<char>| ids(self.organizer_events@[o]@),
        )
    }

    pub closed spec fn wf(&self) -> bool {
        self.events.wf() && self.organizer_events.wf()
    }

    /// The events of organizer `o`.
    pub open spec fn events_of(&self, o: Seq<char>) -> Seq<Seq<char>> {
        if self.organizer_index().contains_key(o) {
            self.organizer_index()[o]
        } else {
            Seq::empty()
        }
    }

    /// An empty registry.
    pub fn new() -> (r: Self)
        ensures
            r.wf(),
            r.admin_of() is None,
            r.platform_fee_of() is None,
            r.events() == Map::<Seq<char>, EventInfo>::empty(),
            r.organizer_index() == Map::<Seq<char>, Seq<Seq<char>>>::empty(),
    {
        let r = RegistryStore {
            admin: None,
            platform_fee: None,
            events: Table::new(),
            organizer_events: Table::new(),
        };
        assert(r.organizer_index() =~= Map::<Seq<char>, Seq<Seq<char>>>::empty());
        r
    }
}

/// Sets the registry's administrator.
pub fn set_admin(store: &mut RegistryStore, admin: &String)
    requires
        old(store).wf(),
    ensures
        final(store).wf(),
        final(store).admin_of() == Some(admin@),
        final(store).platform_fee_of() == old(store).platform_fee_of(),
        final(store).events() == old(store).events(),
        final(store).organizer_index() == old(store).organizer_index(),
{
    store.admin = Some(admin.clone());
}

/// The registry's administrator, if set.
pub fn get_admin(store: &RegistryStore) -> (r: Option<String>)
    ensures
        match r {
            Some(a) => store.admin_of() == Some(a@),
            None => store.admin_of() is None,
        },
{
    match &store.admin {
        Some(a) => Some(a.clone()),
        None => None,
    }
}

/// Sets the global platform fee, in basis points.
pub fn set_platform_fee(store: &mut RegistryStore, fee: u32)
    requires
        old(store).wf(),
    ensures
        final(store).wf(),
        final(store).platform_fee_of() == Some(fee),
        final(store).admin_of() == old(store).admin_of(),
        final(store).events() == old(store).events(),
        final(store).organizer_index() == old(store).organizer_index(),
{
    store.platform_fee = Some(fee);
}

/// The global platform fee; 0 until one is set.
pub fn get_platform_fee(store: &RegistryStore) -> (r: u32)
    ensures
        r == match store.platform_fee_of() {
            Some(f) => f,
            None => 0,
        },
{
    match store.platform_fee {
        Some(f) => f,
        None => 0,
    }
}

/// Whether a platform fee has been set.
pub fn has_platform_fee(store: &RegistryStore) -> (r: bool)
    ensures
        r == store.platform_fee_of() is Some,
{
    store.platform_fee.is_some()
}

/// Stores a new event or replaces an existing one, and lists it under its
/// organizer unless it is listed there already.
pub fn store_event(store: &mut RegistryStore, event_info: EventInfo)
    requires
        old(store).wf(),
    ensures
        final(store).wf(),
        final(store).events() == old(store).events().insert(event_info.event_id@, event_info),
        final(store).organizer_index() == old(store).organizer_index().insert(
            event_info.organizer_address@,
            with_id(old(store).events_of(event_info.organizer_address@), event_info.event_id@),
        ),
        final(store).admin_of() == old(store).admin_of(),
        final(store).platform_fee_of() == old(store).platform_fee_of(),
{
    let event_id = event_info.event_id.clone();
    let organizer = event_info.organizer_address.clone();
    let ghost stored = event_info;
    let mut list = get_organizer_events(store, &organizer);
    store.events.insert(event_info.event_id.clone(), event_info);
    push_unique(&mut list, event_id);
    let ghost l = ids(list@);
    let ghost mid = *store;
    store.organizer_events.insert(organizer, list);
    proof {
        assert(store.organizer_index() =~= mid.organizer_index().insert(stored.organizer_address@, l));
    }
}

/// The event stored under `event_id`, if any.
pub fn get_event<'a>(store: &'a RegistryStore, event_id: &String) -> (r: Option<&'a EventInfo>)
    requires
        store.wf(),
    ensures
        match r {
            Some(e) => store.events().contains_key(event_id@) && *e == store.events()[event_id@],
            None => !store.events().contains_key(event_id@),
        },
{
    store.events.get(event_id)
}

/// Where payments for `event_id` go and the platform fee they bear, if the
/// event is stored.
pub fn get_event_payment_info(store: &RegistryStore, event_id: &String) -> (r: Option<PaymentInfo>)
    requires
        store.wf(),
    ensures
        match r {
            Some(info) => store.events().contains_key(event_id@) && info.payment_address
                == store.events()[event_id@].payment_address && info.platform_fee_percent
                == store.events()[event_id@].platform_fee_percent,
            None => !store.events().contains_key(event_id@),
        },
{
    match store.events.get(event_id) {
        Some(e) => Some(
            PaymentInfo {
                payment_address: e.payment_address.clone(),
                platform_fee_percent: e.platform_fee_percent,
            },
        ),
        None => None,
    }
}

/// Whether an event is stored under `event_id`.
pub fn event_exists(store: &RegistryStore, event_id: &String) -> (r: bool)
    requires
        store.wf(),
    ensures
        r == store.events().contains_key(event_id@),
{
    store.events.contains_key(event_id)
}

/// The identifiers of the events of `organizer`, in the order first stored.
pub fn get_organizer_events(store: &RegistryStore, organizer: &String) -> (r: Vec<String>)
    requires
        store.wf(),
    ensures
        ids(r@) == store.events_of(organizer@),
{
    match store.organizer_events.get(organizer) {
        Some(v) => {
            let r = v.clone();
            assert(r@ =~= v@);
            r
        },
        None => {
            let r: Vec<String> = Vec::new();
            assert(ids(r@) =~= Seq::<Seq<char>>::empty());
            r
        },
    }
}

} // verus!
