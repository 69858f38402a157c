use vstd::prelude::*;
use vstd::slice::slice_to_vec;

use crate::definition::{
    members_end, ClientDataDefinition, ClientDatum, DataDefinition, DataType, DatumDefinition,
    FacilityDefinition, Period,
};
use crate::registry::{id_in, lemma_push_new, DefinitionRegistry};
use crate::status::{first_failure, first_failure_of, ran_until_failure, HResult};

verus! {

/// Object id that stands for the user's aircraft.
pub const SIMCONNECT_OBJECT_ID_USER: u32 = 0;

/// Notification group that mapped client events are placed in.
pub const NOTIFICATION_GROUP: u32 = 0;

/// Priority given to that group: the highest that the sim may still mask.
pub const GROUP_PRIORITY_HIGHEST_MASKABLE: u32 = 10000000;

/// One call into the host's telemetry interface, described as a value.
///
/// The session decides which calls an operation needs and in which order; the
/// code that owns the host connection performs them.
#[derive(Debug, Clone)]
#[allow(inconsistent_fields)]
pub enum HostRequest {
    AddToDataDefinition {
        define_id: u32,
        datum_name: String,
        units_name: String,
        datatype: DataType,
        epsilon_bits: u32,
    },
    AddToClientDataDefinition { define_id: u32, offset: u32, size: u32, epsilon_bits: u32 },
    AddToFacilityDefinition { define_id: u32, field_name: String },
    SetDataOnSimObject { define_id: u32, object_id: u32, data: Vec<u8> },
    RequestDataOnSimObjectType { request_id: u32, define_id: u32, radius: u32, object_type: u32 },
    RequestDataOnSimObject { request_id: u32, define_id: u32, object_id: u32, period: Period },
    MapClientEventToSimEvent { event_id: u32, event_name: String },
    AddClientEventToNotificationGroup { group_id: u32, event_id: u32, maskable: bool },
    SetNotificationGroupPriority { group_id: u32, priority: u32 },
    TransmitClientEvent { object_id: u32, event_id: u32, data: u32 },
    TransmitClientEventEx1 { object_id: u32, event_id: u32, data: [u32; 5] },
    MapClientDataNameToId { client_data_name: String, client_data_id: u32 },
    CreateClientData { client_data_id: u32, size: u32 },
    RequestClientData { client_data_id: u32, request_id: u32, define_id: u32 },
    SetClientData { client_data_id: u32, define_id: u32, data: Vec<u8> },
    SubscribeToSystemEvent { event_id: u32, system_event_name: String },
    UnsubscribeFromSystemEvent { event_id: u32 },
    SetSystemEventState { event_id: u32, on: bool },
    RequestFacilitiesList { list_type: u32, request_id: u32 },
    RequestFacilitiesListEx1 { list_type: u32, request_id: u32 },
    RequestFacilityData {
        define_id: u32,
        request_id: u32,
        icao: String,
        region: Option<String>,
    },
    AiCreateNonAtcAircraft {
        container_title: String,
        tail_number: String,
        init_position: InitPosition,
        request_id: u32,
    },
    AiCreateParkedAtcAircraft {
        container_title: String,
        tail_number: String,
        icao: String,
        request_id: u32,
    },
    AiRemoveObject { object_id: u32, request_id: u32 },
    FlightLoad { file_path: String },
    FlightSave { file_path: String, title: Option<String>, description: Option<String> },
    FlightPlanLoad { file_path: String },
}

/// Where and how an object is placed when it is created: position and
/// attitude as the bits of 64-bit floats, whether it is on the ground, and
/// its airspeed.
#[derive(Debug, Clone, Copy, PartialEq, Eq, Structural)]
pub struct InitPosition {
    pub latitude: u64,
    pub longitude: u64,
    pub altitude: u64,
    pub pitch: u64,
    pub bank: u64,
    pub heading: u64,
    pub on_ground: u32,
    pub airspeed: u32,
}

/// Which of the session's registries a definition belongs to.
#[derive(Debug, Clone, Copy, PartialEq, Eq, Structural)]
pub enum DefinitionKind {
    Data,
    ClientData,
    Facility,
}

/// A definition that a transaction registers: its first `request_count`
/// requests describe the type `key` to the host under `define_id`.
#[derive(Debug, Clone, Copy, PartialEq, Eq, Structural)]
pub struct PendingDefinition {
    pub kind: DefinitionKind,
    pub key: u64,
    pub define_id: u32,
    pub request_count: usize,
}

/// The host calls that one operation needs, in order, and the definition it
/// registers if those calls succeed.
///
/// The caller performs the requests in order, stops at the first negative
/// status, and hands the statuses to [`SimConnect::complete`].
#[derive(Debug)]
pub struct Transaction {
    pub requests: Vec<HostRequest>,
    pub definition: Option<PendingDefinition>,
}

/// A client data area known to this session, by the id its name was mapped
/// to and the type of data it holds.
#[derive(Debug, Clone, Copy, PartialEq, Eq, Structural)]
pub struct ClientDataArea {
    pub client_id: u32,
    pub key: u64,
}

/// The state of a session, as contracts see it.
pub struct SessionView {
    pub handle: u64,
    pub data_definitions: Seq<u64>,
    pub client_data_definitions: Seq<u64>,
    pub facility_definitions: Seq<u64>,
    pub event_id_counter: u32,
    pub client_data_id_counter: u32,
}

impl SessionView {
    pub open spec fn registry(self, kind: DefinitionKind) -> Seq<u64> {
        match kind {
            DefinitionKind::Data => self.data_definitions,
            DefinitionKind::ClientData => self.client_data_definitions,
            DefinitionKind::Facility => self.facility_definitions,
        }
    }

    pub open spec fn with_registry(self, kind: DefinitionKind, keys: Seq<u64>) -> SessionView {
        match kind {
            DefinitionKind::Data => SessionView { data_definitions: keys, ..self },
            DefinitionKind::ClientData => SessionView { client_data_definitions: keys, ..self },
            DefinitionKind::Facility => SessionView { facility_definitions: keys, ..self },
        }
    }

    /// Whether a registry of this session has room for one more id.
    pub open spec fn can_register(self, kind: DefinitionKind) -> bool {
        self.registry(kind).len() < u32::MAX
    }

    /// Whether `tx` can be completed on this session: what it registers is
    /// still unregistered and would still get the id it was planned with.
    pub open spec fn accepts(self, tx: Transaction) -> bool {
        match tx.definition {
            None => true,
            Some(p) => {
                &&& id_in(self.registry(p.kind), p.key) is None
                &&& p.define_id == self.registry(p.kind).len()
                &&& self.can_register(p.kind)
                &&& p.request_count <= tx.requests@.len()
            },
        }
    }

    /// The session after `tx` was performed with these statuses: its
    /// definition is registered exactly when all its requests succeeded.
    pub open spec fn after(self, tx: Transaction, statuses: Seq<i32>) -> SessionView {
        match tx.definition {
            Some(p) => if definition_succeeded(statuses, p.request_count as nat) {
                self.with_registry(p.kind, self.registry(p.kind).push(p.key))
            } else {
                self
            },
            None => self,
        }
    }
}

/// Whether the first `n` host calls were all made and all succeeded.
pub open spec fn definition_succeeded(statuses: Seq<i32>, n: nat) -> bool {
    &&& statuses.len() >= n
    &&& forall|i: int| 0 <= i < n ==> statuses[i] >= 0
}

/// Whether `r` adds datum `d` to data definition `id`.
pub open spec fn is_add_datum(r: HostRequest, id: u32, d: DatumDefinition) -> bool {
    match r {
        HostRequest::AddToDataDefinition {
            define_id,
            datum_name,
            units_name,
            datatype,
            epsilon_bits,
        } => {
            &&& define_id == id
            &&& datum_name@ == d.name@
            &&& units_name@ == d.units@
            &&& datatype == d.datatype
            &&& epsilon_bits == d.epsilon_bits
        },
        _ => false,
    }
}

/// The requests that describe a record to the host: one per datum, in order.
pub open spec fn describes_record(reqs: Seq<HostRequest>, id: u32, datums: Seq<DatumDefinition>) -> bool {
    &&& reqs.len() == datums.len()
    &&& forall|i: int| 0 <= i < datums.len() ==> is_add_datum(#[trigger] reqs[i], id, datums[i])
}

pub open spec fn add_client_datum(id: u32, d: ClientDatum) -> HostRequest {
    HostRequest::AddToClientDataDefinition {
        define_id: id,
        offset: d.offset,
        size: d.size,
        epsilon_bits: d.epsilon_bits,
    }
}

/// Whether the members leave bytes unaccounted for at the end of the area.
pub open spec fn has_trailing_padding(def: ClientDataDefinition) -> bool {
    def.datums@.len() > 0 && members_end(def.datums@) < def.size
}

/// The requests that describe a client data type to the host: one per member,
/// in order, then one that covers the trailing padding, if there is any.
pub open spec fn describes_client_data(reqs: Seq<HostRequest>, id: u32, def: ClientDataDefinition) -> bool {
    let n = def.datums@.len();
    &&& forall|i: int| 0 <= i < n ==> #[trigger] reqs[i] == add_client_datum(id, def.datums@[i])
    &&& if has_trailing_padding(def) {
        &&& reqs.len() == n + 1
        &&& reqs[n as int] == HostRequest::AddToClientDataDefinition {
            define_id: id,
            offset: members_end(def.datums@) as u32,
            size: (def.size - members_end(def.datums@)) as u32,
            epsilon_bits: 0,
        }
    } else {
        reqs.len() == n
    }
}

/// Whether `r` adds the field `name` to facility definition `id`.
pub open spec fn is_add_field(r: HostRequest, id: u32, name: String) -> bool {
    match r {
        HostRequest::AddToFacilityDefinition { define_id, field_name } => define_id == id
            && field_name@ == name@,
        _ => false,
    }
}

/// The requests that describe a facility type to the host: one per field.
pub open spec fn describes_facility(reqs: Seq<HostRequest>, id: u32, fields: Seq<String>) -> bool {
    &&& reqs.len() == fields.len()
    &&& forall|i: int| 0 <= i < fields.len() ==> is_add_field(#[trigger] reqs[i], id, fields[i])
}

/// The id that type `key` has, or would get, in registry `keys`.
pub open spec fn next_or_known(keys: Seq<u64>, key: u64) -> u32 {
    match id_in(keys, key) {
        Some(id) => id,
        None => keys.len() as u32,
    }
}

/// The shape of resolving type `key` in registry `keys` with `n` requests:
/// a known type needs none and registers nothing; a new one is registered
/// under the next id once its `n` description requests succeed.
pub open spec fn plan_shape(
    keys: Seq<u64>,
    kind: DefinitionKind,
    key: u64,
    n: nat,
    pending: Option<PendingDefinition>,
) -> bool {
    match id_in(keys, key) {
        Some(_) => n == 0 && pending is None,
        None => pending == Some(
            PendingDefinition { kind, key, define_id: keys.len() as u32, request_count: n as usize },
        ),
    }
}

/// Whether `reqs` and `pending` resolve record type `def` in registry `keys`.
pub open spec fn resolves_data(
    keys: Seq<u64>,
    def: DataDefinition,
    reqs: Seq<HostRequest>,
    pending: Option<PendingDefinition>,
) -> bool {
    &&& plan_shape(keys, DefinitionKind::Data, def.key, reqs.len(), pending)
    &&& id_in(keys, def.key) is None ==> describes_record(reqs, keys.len() as u32, def.datums@)
}

/// Whether `reqs` and `pending` resolve client data type `def` in registry
/// `keys`.
pub open spec fn resolves_client_data(
    keys: Seq<u64>,
    def: ClientDataDefinition,
    reqs: Seq<HostRequest>,
    pending: Option<PendingDefinition>,
) -> bool {
    &&& plan_shape(keys, DefinitionKind::ClientData, def.key, reqs.len(), pending)
    &&& id_in(keys, def.key) is None ==> describes_client_data(reqs, keys.len() as u32, def)
}

/// Whether `reqs` and `pending` resolve facility type `def` in registry
/// `keys`.
pub open spec fn resolves_facility(
    keys: Seq<u64>,
    def: FacilityDefinition,
    reqs: Seq<HostRequest>,
    pending: Option<PendingDefinition>,
) -> bool {
    &&& plan_shape(keys, DefinitionKind::Facility, def.key, reqs.len(), pending)
    &&& id_in(keys, def.key) is None ==> describes_facility(reqs, keys.len() as u32, def.fields@)
}

/// One add request per datum of a record, in declaration order.
pub fn describe_record(id: u32, datums: &[DatumDefinition]) -> (r: Vec<HostRequest>)
    ensures
        describes_record(r@, id, datums@),
{
    let mut out: Vec<HostRequest> = Vec::new();
    let mut i: usize = 0;
    while i < datums.len()
        invariant
            i <= datums@.len(),
            out@.len() == i,
            forall|j: int| 0 <= j < i ==> is_add_datum(#[trigger] out@[j], id, datums@[j]),
        decreases datums@.len() - i,
    {
        let d = &datums[i];
        out.push(
            HostRequest::AddToDataDefinition {
                define_id: id,
                datum_name: d.name.clone(),
                units_name: d.units.clone(),
                datatype: d.datatype,
                epsilon_bits: d.epsilon_bits,
            },
        );
        i = i + 1;
    }
    out
}

/// One add request per member of a client data type, in order, then one for
/// the bytes past the furthest member, so that the host's copy of the area
/// spans its full size.
pub fn describe_client_data(id: u32, def: &ClientDataDefinition) -> (r: Vec<HostRequest>)
    requires
        def.wf(),
    ensures
        describes_client_data(r@, id, *def),
{
    let mut out: Vec<HostRequest> = Vec::new();
    let mut end: u32 = 0;
    let mut i: usize = 0;
    while i < def.datums.len()
        invariant
            def.wf(),
            i <= def.datums@.len(),
            out@.len() == i,
            end == members_end(def.datums@.subrange(0, i as int)),
            end <= def.size,
            forall|j: int| 0 <= j < i ==> #[trigger] out@[j] == add_client_datum(id, def.datums@[j]),
        decreases def.datums@.len() - i,
    {
        let d = def.datums[i];
        assert(def.datums@.subrange(0, i + 1).drop_last() =~= def.datums@.subrange(0, i as int));
        let e = d.offset + d.size;
        if e > end {
            end = e;
        }
        out.push(
            HostRequest::AddToClientDataDefinition {
                define_id: id,
                offset: d.offset,
                size: d.size,
                epsilon_bits: d.epsilon_bits,
            },
        );
        i = i + 1;
    }
    assert(def.datums@.subrange(0, i as int) =~= def.datums@);
    if i > 0 && end < def.size {
        out.push(
            HostRequest::AddToClientDataDefinition {
                define_id: id,
                offset: end,
                size: def.size - end,
                epsilon_bits: 0,
            },
        );
    }
    out
}

/// One add request per field of a facility type, in order.
pub fn describe_facility(id: u32, fields: &[String]) -> (r: Vec<HostRequest>)
    ensures
        describes_facility(r@, id, fields@),
{
    let mut out: Vec<HostRequest> = Vec::new();
    let mut i: usize = 0;
    while i < fields.len()
        invariant
            i <= fields@.len(),
            out@.len() == i,
            forall|j: int| 0 <= j < i ==> is_add_field(#[trigger] out@[j], id, fields@[j]),
        decreases fields@.len() - i,
    {
        out.push(HostRequest::AddToFacilityDefinition { define_id: id, field_name: fields[i].clone() });
        i = i + 1;
    }
    out
}

/// A telemetry session with the host.
///
/// It owns the host's connection handle and the registries that map each
/// declared record type to the definition id the host knows it by, and mints
/// ids for mapped events and client data areas.
pub struct SimConnect {
    handle: u64,
    data_definitions: DefinitionRegistry,
    client_data_definitions: DefinitionRegistry,
    facility_definitions: DefinitionRegistry,
    event_id_counter: u32,
    client_data_id_counter: u32,
}

impl View for SimConnect {
    type V = SessionView;

    closed spec fn view(&self) -> SessionView {
        SessionView {
            handle: self.handle,
            data_definitions: self.data_definitions@,
            client_data_definitions: self.client_data_definitions@,
            facility_definitions: self.facility_definitions@,
            event_id_counter: self.event_id_counter,
            client_data_id_counter: self.client_data_id_counter,
        }
    }
}

impl SimConnect {
    pub closed spec fn wf(&self) -> bool {
        &&& self.handle != 0
        &&& self.data_definitions.wf()
        &&& self.client_data_definitions.wf()
        &&& self.facility_definitions.wf()
    }

    /// What well-formedness says of the registries: no type holds two ids,
    /// and every id fits in 32 bits.
    pub proof fn lemma_registries_distinct(&self)
        requires
            self.wf(),
        ensures
            self@.data_definitions.no_duplicates(),
            self@.client_data_definitions.no_duplicates(),
            self@.facility_definitions.no_duplicates(),
            self@.data_definitions.len() <= u32::MAX,
            self@.client_data_definitions.len() <= u32::MAX,
            self@.facility_definitions.len() <= u32::MAX,
    {
    }

    /// Starts a session from the outcome of the host's open call: its status
    /// and the connection handle it filled in.
    pub fn open(status: i32, handle: u64) -> (r: Result<SimConnect, HResult>)
        requires
            status >= 0 ==> handle != 0,
        ensures
            status < 0 ==> r == Err::<SimConnect, HResult>(HResult(status)),
            status >= 0 ==> (r matches Ok(s) && s.wf() && s@ == (SessionView {
                handle,
                data_definitions: Seq::empty(),
                client_data_definitions: Seq::empty(),
                facility_definitions: Seq::empty(),
                event_id_counter: 0,
                client_data_id_counter: 0,
            })),
    {
        if status < 0 {
            return Err(HResult(status));
        }
        let s = SimConnect {
            handle,
            data_definitions: DefinitionRegistry::new(),
            client_data_definitions: DefinitionRegistry::new(),
            facility_definitions: DefinitionRegistry::new(),
            event_id_counter: 0,
            client_data_id_counter: 0,
        };
        proof {
            assert(s@.data_definitions =~= Seq::<u64>::empty());
        }
        Ok(s)
    }

    /// The host's connection handle, never zero.
    pub fn handle(&self) -> (r: u64)
        requires
            self.wf(),
        ensures
            r == self@.handle,
            r != 0,
    {
        self.handle
    }

    /// Whether registry `kind` has room for one more id.
    pub fn can_register(&self, kind: DefinitionKind) -> (r: bool)
        requires
            self.wf(),
        ensures
            r == self@.can_register(kind),
    {
        self.registry(kind).len() < 0xffff_ffff
    }

    /// The id the next mapped event or system event subscription gets.
    pub fn next_event_id(&self) -> (r: u32)
        ensures
            r == self@.event_id_counter,
    {
        self.event_id_counter
    }

    /// The id the next client data area name is mapped to.
    pub fn next_client_data_id(&self) -> (r: u32)
        ensures
            r == self@.client_data_id_counter,
    {
        self.client_data_id_counter
    }

    /// The id of record type `key`, if it is registered.
    pub fn data_definition_id(&self, key: u64) -> (r: Option<u32>)
        requires
            self.wf(),
        ensures
            r == id_in(self@.data_definitions, key),
    {
        self.data_definitions.lookup(key)
    }

    /// The id of client data type `key`, if it is registered.
    pub fn client_data_definition_id(&self, key: u64) -> (r: Option<u32>)
        requires
            self.wf(),
        ensures
            r == id_in(self@.client_data_definitions, key),
    {
        self.client_data_definitions.lookup(key)
    }

    fn registry(&self, kind: DefinitionKind) -> (r: &DefinitionRegistry)
        ensures
            r@ == self@.registry(kind),
            self.wf() ==> r.wf(),
    {
        match kind {
            DefinitionKind::Data => &self.data_definitions,
            DefinitionKind::ClientData => &self.client_data_definitions,
            DefinitionKind::Facility => &self.facility_definitions,
        }
    }

    /// Whether `tx` can still be completed on this session.
    pub fn accepts(&self, tx: &Transaction) -> (r: bool)
        requires
            self.wf(),
        ensures
            r == self@.accepts(*tx),
    {
        match tx.definition {
            None => true,
            Some(p) => {
                let reg = self.registry(p.kind);
                let n = reg.len();
                reg.lookup(p.key).is_none() && p.define_id as usize == n && n < 0xffff_ffff
                    && p.request_count <= tx.requests.len()
            },
        }
    }

    /// Records the outcome of a transaction whose requests were performed in
    /// order, up to and including the first that failed.
    ///
    /// The transaction's definition, if any, is registered exactly when all its
    /// requests succeeded; the result is the first failure.
    pub fn complete(&mut self, tx: &Transaction, statuses: &[i32]) -> (r: Result<(), HResult>)
        requires
            old(self).wf(),
            old(self)@.accepts(*tx),
            ran_until_failure(statuses@, tx.requests@.len() as nat),
        ensures
            final(self).wf(),
            final(self)@ == old(self)@.after(*tx, statuses@),
            r == first_failure_of(statuses@),
    {
        if let Some(p) = tx.definition {
            let n = p.request_count;
            let mut ok = statuses.len() >= n;
            let mut i: usize = 0;
            while ok && i < n
                invariant
                    ok ==> statuses@.len() >= n,
                    i <= n,
                    ok ==> forall|j: int| 0 <= j < i ==> statuses@[j] >= 0,
                    !ok ==> !definition_succeeded(statuses@, n as nat),
                decreases n - i,
            {
                if statuses[i] < 0 {
                    ok = false;
                }
                i = i + 1;
            }
            if ok {
                match p.kind {
                    DefinitionKind::Data => {
                        self.data_definitions.insert(p.key);
                    },
                    DefinitionKind::ClientData => {
                        self.client_data_definitions.insert(p.key);
                    },
                    DefinitionKind::Facility => {
                        self.facility_definitions.insert(p.key);
                    },
                }
            }
        }
        first_failure(statuses)
    }
}

impl SimConnect {
    /// Resolves the definition id of record type `def`: the cached id, or the
    /// next id together with the requests that describe the record, one per
    /// datum. The id becomes valid once those all succeed.
    pub fn get_define_id(&self, def: &DataDefinition) -> (r: (u32, Transaction))
        requires
            self.wf(),
            self@.can_register(DefinitionKind::Data),
        ensures
            r.0 == next_or_known(self@.data_definitions, def.key),
            resolves_data(self@.data_definitions, *def, r.1.requests@, r.1.definition),
    {
        match self.data_definitions.lookup(def.key) {
            Some(id) => (id, Transaction { requests: Vec::new(), definition: None }),
            None => {
                let id = self.data_definitions.len() as u32;
                let requests = describe_record(id, &def.datums);
                let n = requests.len();
                let definition = Some(
                    PendingDefinition { kind: DefinitionKind::Data, key: def.key, define_id: id, request_count: n },
                );
                (id, Transaction { requests, definition })
            },
        }
    }

    /// Resolves the definition id of client data type `def`, as
    /// [`SimConnect::get_define_id`] does for records.
    pub fn get_client_data_define_id(&self, def: &ClientDataDefinition) -> (r: (u32, Transaction))
        requires
            self.wf(),
            def.wf(),
            self@.can_register(DefinitionKind::ClientData),
        ensures
            r.0 == next_or_known(self@.client_data_definitions, def.key),
            resolves_client_data(self@.client_data_definitions, *def, r.1.requests@, r.1.definition),
    {
        match self.client_data_definitions.lookup(def.key) {
            Some(id) => (id, Transaction { requests: Vec::new(), definition: None }),
            None => {
                let id = self.client_data_definitions.len() as u32;
                let requests = describe_client_data(id, def);
                let n = requests.len();
                let definition = Some(
                    PendingDefinition {
                        kind: DefinitionKind::ClientData,
                        key: def.key,
                        define_id: id,
                        request_count: n,
                    },
                );
                (id, Transaction { requests, definition })
            },
        }
    }

    /// Resolves the definition id of facility type `def`, as
    /// [`SimConnect::get_define_id`] does for records.
    pub fn get_facility_define_id(&self, def: &FacilityDefinition) -> (r: (u32, Transaction))
        requires
            self.wf(),
            self@.can_register(DefinitionKind::Facility),
        ensures
            r.0 == next_or_known(self@.facility_definitions, def.key),
            resolves_facility(self@.facility_definitions, *def, r.1.requests@, r.1.definition),
    {
        match self.facility_definitions.lookup(def.key) {
            Some(id) => (id, Transaction { requests: Vec::new(), definition: None }),
            None => {
                let id = self.facility_definitions.len() as u32;
                let requests = describe_facility(id, &def.fields);
                let n = requests.len();
                let definition = Some(
                    PendingDefinition {
                        kind: DefinitionKind::Facility,
                        key: def.key,
                        define_id: id,
                        request_count: n,
                    },
                );
                (id, Transaction { requests, definition })
            },
        }
    }
}

/// A transaction of exactly one request.
pub open spec fn single(tx: Transaction, req: HostRequest) -> bool {
    &&& tx.requests@ == seq![req]
    &&& tx.definition is None
}

fn one(req: HostRequest) -> (r: Transaction)
    ensures
        single(r, req),
{
    let mut requests: Vec<HostRequest> = Vec::new();
    requests.push(req);
    Transaction { requests, definition: None }
}

impl SimConnect {
    /// Writes the bytes of a record of type `def` to a simulation object,
    /// after defining the record to the host if needed.
    pub fn set_data_on_sim_object(&self, def: &DataDefinition, object_id: u32, data: &[u8]) -> (r:
        Transaction)
        requires
            self.wf(),
            self@.can_register(DefinitionKind::Data),
        ensures
            r.requests@.len() >= 1,
            resolves_data(self@.data_definitions, *def, r.requests@.drop_last(), r.definition),
            r.requests@.last() matches HostRequest::SetDataOnSimObject { define_id, object_id: o, data: d }
                && define_id == next_or_known(self@.data_definitions, def.key) && o == object_id && d@
                == data@,
    {
        let (define_id, mut tx) = self.get_define_id(def);
        let ghost prefix = tx.requests@;
        tx.requests.push(HostRequest::SetDataOnSimObject { define_id, object_id, data: slice_to_vec(data) });
        assert(tx.requests@.drop_last() =~= prefix);
        tx
    }

    /// Asks for the data of type `def` of all objects of a kind within
    /// `radius` of the user.
    pub fn request_data_on_sim_object_type(
        &self,
        def: &DataDefinition,
        request_id: u32,
        radius: u32,
        object_type: u32,
    ) -> (r: Transaction)
        requires
            self.wf(),
            self@.can_register(DefinitionKind::Data),
        ensures
            r.requests@.len() >= 1,
            resolves_data(self@.data_definitions, *def, r.requests@.drop_last(), r.definition),
            r.requests@.last() == (HostRequest::RequestDataOnSimObjectType {
                request_id,
                define_id: next_or_known(self@.data_definitions, def.key),
                radius,
                object_type,
            }),
    {
        let (define_id, mut tx) = self.get_define_id(def);
        let ghost prefix = tx.requests@;
        tx.requests.push(HostRequest::RequestDataOnSimObjectType { request_id, define_id, radius, object_type });
        assert(tx.requests@.drop_last() =~= prefix);
        tx
    }

    /// Subscribes to the data of type `def` of one object at the given
    /// period; the host tags each reply with `request_id`.
    pub fn request_data_on_sim_object(
        &self,
        def: &DataDefinition,
        request_id: u32,
        object_id: u32,
        period: Period,
    ) -> (r: Transaction)
        requires
            self.wf(),
            self@.can_register(DefinitionKind::Data),
        ensures
            r.requests@.len() >= 1,
            resolves_data(self@.data_definitions, *def, r.requests@.drop_last(), r.definition),
            r.requests@.last() == (HostRequest::RequestDataOnSimObject {
                request_id,
                define_id: next_or_known(self@.data_definitions, def.key),
                object_id,
                period,
            }),
    {
        let (define_id, mut tx) = self.get_define_id(def);
        let ghost prefix = tx.requests@;
        tx.requests.push(HostRequest::RequestDataOnSimObject { request_id, define_id, object_id, period });
        assert(tx.requests@.drop_last() =~= prefix);
        tx
    }

    /// Maps a sim event to a new client event id, which the result carries.
    /// With `mask` set, the sim ignores the event and only this session
    /// receives it.
    pub fn map_client_event_to_sim_event(&mut self, event_name: &str, mask: bool) -> (r: (
        u32,
        Transaction,
    ))
        requires
            old(self).wf(),
            old(self)@.event_id_counter < u32::MAX,
        ensures
            final(self).wf(),
            final(self)@ == (SessionView { event_id_counter: (old(self)@.event_id_counter + 1) as u32, ..old(self)@ }),
            r.0 == old(self)@.event_id_counter,
            r.1.definition is None,
            r.1.requests@.len() == 3,
            r.1.requests@[0] matches HostRequest::MapClientEventToSimEvent { event_id, event_name: n }
                && event_id == r.0 && n@ == event_name@,
            r.1.requests@[1] == (HostRequest::AddClientEventToNotificationGroup {
                group_id: NOTIFICATION_GROUP,
                event_id: r.0,
                maskable: mask,
            }),
            r.1.requests@[2] == (HostRequest::SetNotificationGroupPriority {
                group_id: NOTIFICATION_GROUP,
                priority: GROUP_PRIORITY_HIGHEST_MASKABLE,
            }),
    {
        let event_id = self.event_id_counter;
        self.event_id_counter = self.event_id_counter + 1;
        let mut requests: Vec<HostRequest> = Vec::new();
        requests.push(HostRequest::MapClientEventToSimEvent { event_id, event_name: event_name.to_owned() });
        requests.push(
            HostRequest::AddClientEventToNotificationGroup {
                group_id: NOTIFICATION_GROUP,
                event_id,
                maskable: mask,
            },
        );
        requests.push(
            HostRequest::SetNotificationGroupPriority {
                group_id: NOTIFICATION_GROUP,
                priority: GROUP_PRIORITY_HIGHEST_MASKABLE,
            },
        );
        (event_id, Transaction { requests, definition: None })
    }

    /// Triggers a client event on an object.
    pub fn transmit_client_event(&self, object_id: u32, event_id: u32, data: u32) -> (r: Transaction)
        ensures
            single(r, HostRequest::TransmitClientEvent { object_id, event_id, data }),
    {
        one(HostRequest::TransmitClientEvent { object_id, event_id, data })
    }

    /// Triggers a client event on an object, with five data words.
    pub fn transmit_client_event_ex1(&self, object_id: u32, event_id: u32, data: [u32; 5]) -> (r:
        Transaction)
        ensures
            single(r, HostRequest::TransmitClientEventEx1 { object_id, event_id, data }),
    {
        one(HostRequest::TransmitClientEventEx1 { object_id, event_id, data })
    }

    /// Mints a client data id and maps the area's name to it.
    fn get_client_data_id(&mut self, name: &str) -> (r: (u32, HostRequest))
        requires
            old(self).wf(),
            old(self)@.client_data_id_counter < u32::MAX,
        ensures
            final(self).wf(),
            final(self)@ == (SessionView {
                client_data_id_counter: (old(self)@.client_data_id_counter + 1) as u32,
                ..old(self)@
            }),
            r.0 == old(self)@.client_data_id_counter,
            r.1 matches HostRequest::MapClientDataNameToId { client_data_name, client_data_id }
                && client_data_id == r.0 && client_data_name@ == name@,
    {
        let client_id = self.client_data_id_counter;
        self.client_data_id_counter = self.client_data_id_counter + 1;
        (client_id, HostRequest::MapClientDataNameToId { client_data_name: name.to_owned(), client_data_id: client_id })
    }

    /// Allocates a client data area of type `def` under `name`, which other
    /// sessions can then read. The host never frees it.
    pub fn create_client_data(&mut self, def: &ClientDataDefinition, name: &str) -> (r: (
        ClientDataArea,
        Transaction,
    ))
        requires
            old(self).wf(),
            old(self)@.client_data_id_counter < u32::MAX,
        ensures
            final(self).wf(),
            final(self)@ == (SessionView {
                client_data_id_counter: (old(self)@.client_data_id_counter + 1) as u32,
                ..old(self)@
            }),
            r.0 == (ClientDataArea { client_id: old(self)@.client_data_id_counter, key: def.key }),
            r.1.definition is None,
            r.1.requests@.len() == 2,
            r.1.requests@[0] matches HostRequest::MapClientDataNameToId { client_data_name, client_data_id }
                && client_data_id == r.0.client_id && client_data_name@ == name@,
            r.1.requests@[1] == (HostRequest::CreateClientData {
                client_data_id: r.0.client_id,
                size: def.size,
            }),
    {
        let (client_id, map) = self.get_client_data_id(name);
        let mut requests: Vec<HostRequest> = Vec::new();
        requests.push(map);
        requests.push(HostRequest::CreateClientData { client_data_id: client_id, size: def.size });
        (ClientDataArea { client_id, key: def.key }, Transaction { requests, definition: None })
    }

    /// A handle to a client data area of type `def` that another module
    /// allocated under `name`.
    pub fn get_client_area(&mut self, def: &ClientDataDefinition, name: &str) -> (r: (
        ClientDataArea,
        Transaction,
    ))
        requires
            old(self).wf(),
            old(self)@.client_data_id_counter < u32::MAX,
        ensures
            final(self).wf(),
            final(self)@ == (SessionView {
                client_data_id_counter: (old(self)@.client_data_id_counter + 1) as u32,
                ..old(self)@
            }),
            r.0 == (ClientDataArea { client_id: old(self)@.client_data_id_counter, key: def.key }),
            r.1.definition is None,
            r.1.requests@.len() == 1,
            r.1.requests@[0] matches HostRequest::MapClientDataNameToId { client_data_name, client_data_id }
                && client_data_id == r.0.client_id && client_data_name@ == name@,
    {
        let (client_id, map) = self.get_client_data_id(name);
        (ClientDataArea { client_id, key: def.key }, one(map))
    }

    /// Subscribes to the contents of the client data area `name`, of type
    /// `def`, sent whenever they are set; the host tags each reply with
    /// `request_id`.
    pub fn request_client_data(&mut self, def: &ClientDataDefinition, request_id: u32, name: &str) -> (r:
        Transaction)
        requires
            old(self).wf(),
            def.wf(),
            old(self)@.client_data_id_counter < u32::MAX,
            old(self)@.can_register(DefinitionKind::ClientData),
        ensures
            final(self).wf(),
            final(self)@ == (SessionView {
                client_data_id_counter: (old(self)@.client_data_id_counter + 1) as u32,
                ..old(self)@
            }),
            r.requests@.len() >= 2,
            resolves_client_data(
                old(self)@.client_data_definitions,
                *def,
                r.requests@.subrange(0, r.requests@.len() - 2),
                r.definition,
            ),
            r.requests@[r.requests@.len() - 2] matches HostRequest::MapClientDataNameToId {
                client_data_name,
                client_data_id,
            } && client_data_id == old(self)@.client_data_id_counter && client_data_name@ == name@,
            r.requests@.last() == (HostRequest::RequestClientData {
                client_data_id: old(self)@.client_data_id_counter,
                request_id,
                define_id: next_or_known(old(self)@.client_data_definitions, def.key),
            }),
    {
        let (define_id, mut tx) = self.get_client_data_define_id(def);
        let ghost prefix = tx.requests@;
        let (client_id, map) = self.get_client_data_id(name);
        tx.requests.push(map);
        tx.requests.push(HostRequest::RequestClientData { client_data_id: client_id, request_id, define_id });
        assert(tx.requests@.subrange(0, tx.requests@.len() - 2) =~= prefix);
        tx
    }

    /// Sets the contents of a client data area of type `def`.
    pub fn set_client_data(&self, area: &ClientDataArea, def: &ClientDataDefinition, data: &[u8]) -> (r:
        Transaction)
        requires
            self.wf(),
            def.wf(),
            area.key == def.key,
            self@.can_register(DefinitionKind::ClientData),
        ensures
            r.requests@.len() >= 1,
            resolves_client_data(self@.client_data_definitions, *def, r.requests@.drop_last(), r.definition),
            r.requests@.last() matches HostRequest::SetClientData { client_data_id, define_id, data: d }
                && client_data_id == area.client_id && define_id == next_or_known(
                self@.client_data_definitions,
                def.key,
            ) && d@ == data@,
    {
        let (define_id, mut tx) = self.get_client_data_define_id(def);
        let ghost prefix = tx.requests@;
        tx.requests.push(
            HostRequest::SetClientData { client_data_id: area.client_id, define_id, data: slice_to_vec(data) },
        );
        assert(tx.requests@.drop_last() =~= prefix);
        tx
    }

    /// Subscribes to a system event under a new client event id, which the
    /// result carries.
    pub fn subscribe_to_system_event(&mut self, system_event_name: &str) -> (r: (u32, Transaction))
        requires
            old(self).wf(),
            old(self)@.event_id_counter < u32::MAX,
        ensures
            final(self).wf(),
            final(self)@ == (SessionView { event_id_counter: (old(self)@.event_id_counter + 1) as u32, ..old(self)@ }),
            r.0 == old(self)@.event_id_counter,
            r.1.definition is None,
            r.1.requests@.len() == 1,
            r.1.requests@[0] matches HostRequest::SubscribeToSystemEvent { event_id, system_event_name: n }
                && event_id == r.0 && n@ == system_event_name@,
    {
        let event_id = self.event_id_counter;
        self.event_id_counter = self.event_id_counter + 1;
        let tx = one(
            HostRequest::SubscribeToSystemEvent { event_id, system_event_name: system_event_name.to_owned() },
        );
        (event_id, tx)
    }

    /// Ends a subscription to a system event.
    pub fn unsubscribe_from_system_event(&self, event_id: u32) -> (r: Transaction)
        ensures
            single(r, HostRequest::UnsubscribeFromSystemEvent { event_id }),
    {
        one(HostRequest::UnsubscribeFromSystemEvent { event_id })
    }

    /// Turns the reporting of a subscribed system event on or off.
    pub fn set_system_event_state(&self, event_id: u32, on: bool) -> (r: Transaction)
        ensures
            single(r, HostRequest::SetSystemEventState { event_id, on }),
    {
        one(HostRequest::SetSystemEventState { event_id, on })
    }

    /// Asks for the facilities of a kind within the reality bubble.
    pub fn request_facilities_list_ex1(&self, list_type: u32, request_id: u32) -> (r: Transaction)
        ensures
            single(r, HostRequest::RequestFacilitiesListEx1 { list_type, request_id }),
    {
        one(HostRequest::RequestFacilitiesListEx1 { list_type, request_id })
    }

    /// Asks for all facilities of a kind.
    pub fn request_facilities_list(&self, list_type: u32, request_id: u32) -> (r: Transaction)
        ensures
            single(r, HostRequest::RequestFacilitiesList { list_type, request_id }),
    {
        one(HostRequest::RequestFacilitiesList { list_type, request_id })
    }

    /// Asks for the data of type `def` of one facility.
    pub fn request_facility_data(
        &self,
        def: &FacilityDefinition,
        request_id: u32,
        icao: &str,
        region: Option<&str>,
    ) -> (r: Transaction)
        requires
            self.wf(),
            self@.can_register(DefinitionKind::Facility),
        ensures
            r.requests@.len() >= 1,
            resolves_facility(self@.facility_definitions, *def, r.requests@.drop_last(), r.definition),
            r.requests@.last() matches HostRequest::RequestFacilityData {
                define_id,
                request_id: q,
                icao: i,
                region: g,
            } && define_id == next_or_known(self@.facility_definitions, def.key) && q == request_id
                && i@ == icao@ && same_text(g, region),
    {
        let (define_id, mut tx) = self.get_facility_define_id(def);
        let ghost prefix = tx.requests@;
        let region = owned(region);
        tx.requests.push(HostRequest::RequestFacilityData { define_id, request_id, icao: icao.to_owned(), region });
        assert(tx.requests@.drop_last() =~= prefix);
        tx
    }
}

/// Whether `o` holds a copy of `x`, absent exactly when `x` is.
pub open spec fn same_text(o: Option<String>, x: Option<&str>) -> bool {
    match x {
        Some(t) => o matches Some(u) && u@ == t@,
        None => o is None,
    }
}

fn owned(x: Option<&str>) -> (r: Option<String>)
    ensures
        same_text(r, x),
{
    match x {
        Some(t) => Some(t.to_owned()),
        None => None,
    }
}

impl SimConnect {
    /// Creates an aircraft outside air traffic control at a position.
    pub fn ai_create_non_atc_aircraft(
        &self,
        container_title: &str,
        tail_number: &str,
        init_position: InitPosition,
        request_id: u32,
    ) -> (r: Transaction)
        ensures
            r.definition is None,
            r.requests@.len() == 1,
            r.requests@[0] matches HostRequest::AiCreateNonAtcAircraft {
                container_title: c,
                tail_number: t,
                init_position: p,
                request_id: q,
            } && c@ == container_title@ && t@ == tail_number@ && p == init_position && q == request_id,
    {
        one(
            HostRequest::AiCreateNonAtcAircraft {
                container_title: container_title.to_owned(),
                tail_number: tail_number.to_owned(),
                init_position,
                request_id,
            },
        )
    }

    /// Creates an air-traffic-controlled aircraft parked at an airport.
    pub fn ai_create_parked_atc_aircraft(
        &self,
        container_title: &str,
        tail_number: &str,
        icao: &str,
        request_id: u32,
    ) -> (r: Transaction)
        ensures
            r.definition is None,
            r.requests@.len() == 1,
            r.requests@[0] matches HostRequest::AiCreateParkedAtcAircraft {
                container_title: c,
                tail_number: t,
                icao: i,
                request_id: q,
            } && c@ == container_title@ && t@ == tail_number@ && i@ == icao@ && q == request_id,
    {
        one(
            HostRequest::AiCreateParkedAtcAircraft {
                container_title: container_title.to_owned(),
                tail_number: tail_number.to_owned(),
                icao: icao.to_owned(),
                request_id,
            },
        )
    }

    /// Removes an object this session created.
    pub fn ai_remove_object(&self, object_id: u32, request_id: u32) -> (r: Transaction)
        ensures
            single(r, HostRequest::AiRemoveObject { object_id, request_id }),
    {
        one(HostRequest::AiRemoveObject { object_id, request_id })
    }

    /// Loads a saved flight.
    pub fn load_flight(&self, flight_file_path: &str) -> (r: Transaction)
        ensures
            r.definition is None,
            r.requests@.len() == 1,
            r.requests@[0] matches HostRequest::FlightLoad { file_path } && file_path@ == flight_file_path@,
    {
        one(HostRequest::FlightLoad { file_path: flight_file_path.to_owned() })
    }

    /// Saves the current flight, with an optional title and description.
    pub fn save_flight(&self, flight_file_path: &str, title: Option<&str>, description: Option<&str>) -> (r:
        Transaction)
        ensures
            r.definition is None,
            r.requests@.len() == 1,
            r.requests@[0] matches HostRequest::FlightSave { file_path, title: t, description: d }
                && file_path@ == flight_file_path@ && same_text(t, title) && same_text(d, description),
    {
        one(
            HostRequest::FlightSave {
                file_path: flight_file_path.to_owned(),
                title: owned(title),
                description: owned(description),
            },
        )
    }

    /// Loads a flight plan.
    pub fn load_flight_plan(&self, flight_plan_file_path: &str) -> (r: Transaction)
        ensures
            r.definition is None,
            r.requests@.len() == 1,
            r.requests@[0] matches HostRequest::FlightPlanLoad { file_path } && file_path@
                == flight_plan_file_path@,
    {
        one(HostRequest::FlightPlanLoad { file_path: flight_plan_file_path.to_owned() })
    }
}

/// A record type is described to the host at most once: after a
/// registration whose requests all succeeded, resolving the same type again
/// gives the same id and needs no request at all.
pub proof fn lemma_registration_idempotent(
    v: SessionView,
    def: DataDefinition,
    tx: Transaction,
    statuses: Seq<i32>,
    again: Seq<HostRequest>,
    again_pending: Option<PendingDefinition>,
)
    requires
        v.data_definitions.no_duplicates(),
        v.can_register(DefinitionKind::Data),
        resolves_data(v.data_definitions, def, tx.requests@, tx.definition),
        definition_succeeded(statuses, tx.requests@.len()),
        resolves_data(v.after(tx, statuses).data_definitions, def, again, again_pending),
    ensures
        again.len() == 0,
        again_pending is None,
        next_or_known(v.after(tx, statuses).data_definitions, def.key) == next_or_known(
            v.data_definitions,
            def.key,
        ),
{
    let keys = v.data_definitions;
    if id_in(keys, def.key) is None {
        lemma_push_new(keys, def.key, def.key);
    }
}

/// Registering a new record type gives it the next id, the number of types
/// registered before it, and renumbers none of those: ids stay dense and are
/// never reused.
pub proof fn lemma_new_type_gets_next_id(
    v: SessionView,
    def: DataDefinition,
    tx: Transaction,
    statuses: Seq<i32>,
    other: u64,
)
    requires
        v.data_definitions.no_duplicates(),
        v.can_register(DefinitionKind::Data),
        id_in(v.data_definitions, def.key) is None,
        resolves_data(v.data_definitions, def, tx.requests@, tx.definition),
        definition_succeeded(statuses, tx.requests@.len()),
    ensures
        id_in(v.after(tx, statuses).data_definitions, def.key) == Some(v.data_definitions.len() as u32),
        id_in(v.data_definitions, other) is Some ==> id_in(v.after(tx, statuses).data_definitions, other)
            == id_in(v.data_definitions, other),
{
    lemma_push_new(v.data_definitions, def.key, other);
}

} // verus!
