use vstd::prelude::*;

use crate::definition::{record_decodes_to, record_size, decode_record, ClientDataDefinition, DataDefinition, DataValue};
use crate::registry::id_in;
use crate::session::SimConnect;
use crate::wire::{le_u32, le_u64, read_bytes, read_u32, read_u64};

verus! {

/// Tags that the host puts at the head of each message.
pub const SIMCONNECT_RECV_ID_NULL: u32 = 0;
pub const SIMCONNECT_RECV_ID_EXCEPTION: u32 = 1;
pub const SIMCONNECT_RECV_ID_OPEN: u32 = 2;
pub const SIMCONNECT_RECV_ID_QUIT: u32 = 3;
pub const SIMCONNECT_RECV_ID_EVENT: u32 = 4;
pub const SIMCONNECT_RECV_ID_SIMOBJECT_DATA: u32 = 8;
pub const SIMCONNECT_RECV_ID_SIMOBJECT_DATA_BYTYPE: u32 = 9;
pub const SIMCONNECT_RECV_ID_ASSIGNED_OBJECT_ID: u32 = 12;
pub const SIMCONNECT_RECV_ID_CLIENT_DATA: u32 = 16;
pub const SIMCONNECT_RECV_ID_AIRPORT_LIST: u32 = 18;
pub const SIMCONNECT_RECV_ID_EVENT_EX1: u32 = 27;
pub const SIMCONNECT_RECV_ID_FACILITY_DATA: u32 = 28;

/// Bytes of the header every message starts with: its size, the protocol
/// version and its tag, each a little-endian `u32`.
pub const HEADER_SIZE: usize = 12;

/// Where the payload of object, client and facility data messages starts.
pub const DATA_OFFSET: usize = 40;

/// Where the entries of an airport list start.
pub const AIRPORTS_OFFSET: usize = 28;

/// Bytes of one airport entry: a 6-byte ident, a 3-byte region and three
/// 64-bit floats, packed.
pub const AIRPORT_SIZE: usize = 33;

/// The host reports that a request failed.
#[allow(non_camel_case_types)]
#[derive(Debug, Clone, Copy, PartialEq, Eq, Structural)]
pub struct SIMCONNECT_RECV_EXCEPTION {
    pub exception: u32,
    pub send_id: u32,
    pub index: u32,
}

/// The host accepted the connection.
#[allow(non_camel_case_types)]
#[derive(Debug, Clone)]
pub struct SIMCONNECT_RECV_OPEN {
    pub application_name: Vec<u8>,
    pub application_version_major: u32,
    pub application_version_minor: u32,
    pub application_build_major: u32,
    pub application_build_minor: u32,
    pub simconnect_version_major: u32,
    pub simconnect_version_minor: u32,
    pub simconnect_build_major: u32,
    pub simconnect_build_minor: u32,
    pub reserved1: u32,
    pub reserved2: u32,
}

/// The host is shutting down.
#[allow(non_camel_case_types)]
#[derive(Debug, Clone, Copy, PartialEq, Eq, Structural)]
pub struct SIMCONNECT_RECV_QUIT {}

/// A mapped client event or subscribed system event fired.
#[allow(non_camel_case_types)]
#[derive(Debug, Clone, Copy, PartialEq, Eq, Structural)]
pub struct SIMCONNECT_RECV_EVENT {
    pub group_id: u32,
    pub event_id: u32,
    pub data: u32,
}

/// A client event fired with five data words.
#[allow(non_camel_case_types)]
#[derive(Debug, Clone, Copy)]
pub struct SIMCONNECT_RECV_EVENT_EX1 {
    pub group_id: u32,
    pub event_id: u32,
    pub data: [u32; 5],
}

/// The data of one object for a data request.
#[allow(non_camel_case_types)]
#[derive(Debug, Clone)]
pub struct SIMCONNECT_RECV_SIMOBJECT_DATA {
    pub request_id: u32,
    pub object_id: u32,
    pub define_id: u32,
    pub flags: u32,
    pub entry_number: u32,
    pub out_of: u32,
    pub define_count: u32,
    pub data: Vec<u8>,
}

/// The contents of a client data area for a client data request.
#[allow(non_camel_case_types)]
#[derive(Debug, Clone)]
pub struct SIMCONNECT_RECV_CLIENT_DATA {
    pub request_id: u32,
    pub object_id: u32,
    pub define_id: u32,
    pub flags: u32,
    pub entry_number: u32,
    pub out_of: u32,
    pub define_count: u32,
    pub data: Vec<u8>,
}

/// The host assigned an object id to a created object.
#[allow(non_camel_case_types)]
#[derive(Debug, Clone, Copy, PartialEq, Eq, Structural)]
pub struct SIMCONNECT_RECV_ASSIGNED_OBJECT_ID {
    pub request_id: u32,
    pub object_id: u32,
}

/// One airport of an airport list. Coordinates are the bits of 64-bit floats.
#[allow(non_camel_case_types)]
#[derive(Debug, Clone)]
pub struct SIMCONNECT_DATA_FACILITY_AIRPORT {
    pub ident: Vec<u8>,
    pub region: Vec<u8>,
    pub latitude: u64,
    pub longitude: u64,
    pub altitude: u64,
}

/// One part of a list of airports.
#[allow(non_camel_case_types)]
#[derive(Debug, Clone)]
pub struct SIMCONNECT_RECV_AIRPORT_LIST {
    pub request_id: u32,
    pub array_size: u32,
    pub entry_number: u32,
    pub out_of: u32,
    pub airports: Vec<SIMCONNECT_DATA_FACILITY_AIRPORT>,
}

/// The data of one facility, or of one item of one of its lists.
#[allow(non_camel_case_types)]
#[derive(Debug, Clone)]
pub struct SIMCONNECT_RECV_FACILITY_DATA {
    pub user_request_id: u32,
    pub unique_request_id: u32,
    pub parent_unique_request_id: u32,
    pub facility_type: u32,
    pub is_list_item: u32,
    pub item_index: u32,
    pub list_size: u32,
    pub data: Vec<u8>,
}

/// A message from the host, one case per kind this session understands.
#[derive(Debug, Clone)]
pub enum SimConnectRecv {
    Null,
    Exception(SIMCONNECT_RECV_EXCEPTION),
    Open(SIMCONNECT_RECV_OPEN),
    Quit(SIMCONNECT_RECV_QUIT),
    Event(SIMCONNECT_RECV_EVENT),
    EventEx1(SIMCONNECT_RECV_EVENT_EX1),
    SimObjectData(SIMCONNECT_RECV_SIMOBJECT_DATA),
    ClientData(SIMCONNECT_RECV_CLIENT_DATA),
    AssignedObjectId(SIMCONNECT_RECV_ASSIGNED_OBJECT_ID),
    AirportList(SIMCONNECT_RECV_AIRPORT_LIST),
    FacilityData(SIMCONNECT_RECV_FACILITY_DATA),
}

pub open spec fn msg_size(b: Seq<u8>) -> int {
    le_u32(b, 0)
}

pub open spec fn msg_tag(b: Seq<u8>) -> int {
    le_u32(b, 8)
}

/// The fixed part of a message with this tag, for the tags understood.
pub open spec fn fixed_size(tag: int) -> Option<nat> {
    if tag == 0 || tag == 3 {
        Some(12)
    } else if tag == 1 || tag == 4 {
        Some(24)
    } else if tag == 2 {
        Some(308)
    } else if tag == 8 || tag == 9 || tag == 16 || tag == 27 || tag == 28 {
        Some(40)
    } else if tag == 12 {
        Some(20)
    } else if tag == 18 {
        Some(28)
    } else {
        None
    }
}

/// Whether `b` holds a whole message of a kind this session understands.
pub open spec fn understood(b: Seq<u8>) -> bool {
    &&& b.len() >= 12
    &&& msg_size(b) <= b.len()
    &&& fixed_size(msg_tag(b)) matches Some(n) && n <= msg_size(b)
    &&& msg_tag(b) == 18 ==> AIRPORTS_OFFSET + AIRPORT_SIZE * le_u32(b, 16) <= msg_size(b)
}

pub open spec fn u32_at(b: Seq<u8>, off: int) -> u32 {
    le_u32(b, off) as u32
}

pub open spec fn u64_at(b: Seq<u8>, off: int) -> u64 {
    le_u64(b, off) as u64
}

/// Whether `a` is the airport entry stored at `off` in `b`.
pub open spec fn airport_at(a: SIMCONNECT_DATA_FACILITY_AIRPORT, b: Seq<u8>, off: int) -> bool {
    &&& a.ident@ == b.subrange(off, off + 6)
    &&& a.region@ == b.subrange(off + 6, off + 9)
    &&& a.latitude == u64_at(b, off + 9)
    &&& a.longitude == u64_at(b, off + 17)
    &&& a.altitude == u64_at(b, off + 25)
}

/// The payload that follows the fixed part of a data message.
pub open spec fn payload(b: Seq<u8>) -> Seq<u8> {
    b.subrange(DATA_OFFSET as int, msg_size(b))
}

/// Whether `m` is what the message in `b` says, field by field.
pub open spec fn decoded_from(m: SimConnectRecv, b: Seq<u8>) -> bool {
    let tag = msg_tag(b);
    match m {
        SimConnectRecv::Null => tag == 0,
        SimConnectRecv::Exception(e) => tag == 1 && e == SIMCONNECT_RECV_EXCEPTION {
            exception: u32_at(b, 12),
            send_id: u32_at(b, 16),
            index: u32_at(b, 20),
        },
        SimConnectRecv::Open(o) => {
            &&& tag == 2
            &&& o.application_name@ == b.subrange(12, 268)
            &&& o.application_version_major == u32_at(b, 268)
            &&& o.application_version_minor == u32_at(b, 272)
            &&& o.application_build_major == u32_at(b, 276)
            &&& o.application_build_minor == u32_at(b, 280)
            &&& o.simconnect_version_major == u32_at(b, 284)
            &&& o.simconnect_version_minor == u32_at(b, 288)
            &&& o.simconnect_build_major == u32_at(b, 292)
            &&& o.simconnect_build_minor == u32_at(b, 296)
            &&& o.reserved1 == u32_at(b, 300)
            &&& o.reserved2 == u32_at(b, 304)
        },
        SimConnectRecv::Quit(_) => tag == 3,
        SimConnectRecv::Event(e) => tag == 4 && e == SIMCONNECT_RECV_EVENT {
            group_id: u32_at(b, 12),
            event_id: u32_at(b, 16),
            data: u32_at(b, 20),
        },
        SimConnectRecv::EventEx1(e) => {
            &&& tag == 27
            &&& e.group_id == u32_at(b, 12)
            &&& e.event_id == u32_at(b, 16)
            &&& e.data@ == seq![u32_at(b, 20), u32_at(b, 24), u32_at(b, 28), u32_at(b, 32), u32_at(b, 36)]
        },
        SimConnectRecv::SimObjectData(d) => {
            &&& (tag == 8 || tag == 9)
            &&& d.request_id == u32_at(b, 12)
            &&& d.object_id == u32_at(b, 16)
            &&& d.define_id == u32_at(b, 20)
            &&& d.flags == u32_at(b, 24)
            &&& d.entry_number == u32_at(b, 28)
            &&& d.out_of == u32_at(b, 32)
            &&& d.define_count == u32_at(b, 36)
            &&& d.data@ == payload(b)
        },
        SimConnectRecv::ClientData(d) => {
            &&& tag == 16
            &&& d.request_id == u32_at(b, 12)
            &&& d.object_id == u32_at(b, 16)
            &&& d.define_id == u32_at(b, 20)
            &&& d.flags == u32_at(b, 24)
            &&& d.entry_number == u32_at(b, 28)
            &&& d.out_of == u32_at(b, 32)
            &&& d.define_count == u32_at(b, 36)
            &&& d.data@ == payload(b)
        },
        SimConnectRecv::AssignedObjectId(a) => tag == 12 && a == SIMCONNECT_RECV_ASSIGNED_OBJECT_ID {
            request_id: u32_at(b, 12),
            object_id: u32_at(b, 16),
        },
        SimConnectRecv::AirportList(l) => {
            &&& tag == 18
            &&& l.request_id == u32_at(b, 12)
            &&& l.array_size == u32_at(b, 16)
            &&& l.entry_number == u32_at(b, 20)
            &&& l.out_of == u32_at(b, 24)
            &&& l.airports@.len() == l.array_size
            &&& forall|i: int|
                0 <= i < l.airports@.len() ==> airport_at(
                    #[trigger] l.airports@[i],
                    b,
                    AIRPORTS_OFFSET + AIRPORT_SIZE * i,
                )
        },
        SimConnectRecv::FacilityData(f) => {
            &&& tag == 28
            &&& f.user_request_id == u32_at(b, 12)
            &&& f.unique_request_id == u32_at(b, 16)
            &&& f.parent_unique_request_id == u32_at(b, 20)
            &&& f.facility_type == u32_at(b, 24)
            &&& f.is_list_item == u32_at(b, 28)
            &&& f.item_index == u32_at(b, 32)
            &&& f.list_size == u32_at(b, 36)
            &&& f.data@ == payload(b)
        },
    }
}

fn read_airports(buf: &[u8], count: usize) -> (r: Vec<SIMCONNECT_DATA_FACILITY_AIRPORT>)
    requires
        AIRPORTS_OFFSET + AIRPORT_SIZE * count <= buf@.len(),
    ensures
        r@.len() == count,
        forall|i: int| 0 <= i < count ==> airport_at(#[trigger] r@[i], buf@, AIRPORTS_OFFSET + AIRPORT_SIZE * i),
{
    let _n = buf.len();
    let mut out: Vec<SIMCONNECT_DATA_FACILITY_AIRPORT> = Vec::new();
    let mut i: usize = 0;
    while i < count
        invariant
            AIRPORTS_OFFSET + AIRPORT_SIZE * count <= buf@.len(),
            buf@.len() <= usize::MAX,
            i <= count,
            out@.len() == i,
            forall|j: int| 0 <= j < i ==> airport_at(#[trigger] out@[j], buf@, AIRPORTS_OFFSET + AIRPORT_SIZE * j),
        decreases count - i,
    {
        assert(AIRPORT_SIZE * i + AIRPORT_SIZE <= AIRPORT_SIZE * count) by (nonlinear_arith)
            requires
                i < count,
        ;
        let off = AIRPORTS_OFFSET + AIRPORT_SIZE * i;
        let a = SIMCONNECT_DATA_FACILITY_AIRPORT {
            ident: read_bytes(buf, off, 6),
            region: read_bytes(buf, off + 6, 3),
            latitude: read_u64(buf, off + 9),
            longitude: read_u64(buf, off + 17),
            altitude: read_u64(buf, off + 25),
        };
        out.push(a);
        i = i + 1;
    }
    out
}

/// Decodes the message at the head of `buf`, as the host lays it out.
///
/// Messages of a kind not understood here, and messages that do not fit in
/// `buf` or are shorter than their kind requires, give `None`: the host's set
/// of messages grows over its versions, and what is not understood is left
/// alone.
pub fn dispatch(buf: &[u8]) -> (r: Option<SimConnectRecv>)
    ensures
        r is Some <==> understood(buf@),
        r matches Some(m) ==> decoded_from(m, buf@),
{
    let n = buf.len();
    if n < HEADER_SIZE {
        return None;
    }
    let size = read_u32(buf, 0) as usize;
    let tag = read_u32(buf, 8);
    if size > n {
        return None;
    }
    let fixed: usize = if tag == SIMCONNECT_RECV_ID_NULL || tag == SIMCONNECT_RECV_ID_QUIT {
        12
    } else if tag == SIMCONNECT_RECV_ID_EXCEPTION || tag == SIMCONNECT_RECV_ID_EVENT {
        24
    } else if tag == SIMCONNECT_RECV_ID_OPEN {
        308
    } else if tag == SIMCONNECT_RECV_ID_SIMOBJECT_DATA || tag == SIMCONNECT_RECV_ID_SIMOBJECT_DATA_BYTYPE
        || tag == SIMCONNECT_RECV_ID_CLIENT_DATA || tag == SIMCONNECT_RECV_ID_EVENT_EX1
        || tag == SIMCONNECT_RECV_ID_FACILITY_DATA {
        40
    } else if tag == SIMCONNECT_RECV_ID_ASSIGNED_OBJECT_ID {
        20
    } else if tag == SIMCONNECT_RECV_ID_AIRPORT_LIST {
        28
    } else {
        return None;
    };
    if size < fixed {
        return None;
    }
    if tag == SIMCONNECT_RECV_ID_NULL {
        Some(SimConnectRecv::Null)
    } else if tag == SIMCONNECT_RECV_ID_EXCEPTION {
        Some(
            SimConnectRecv::Exception(
                SIMCONNECT_RECV_EXCEPTION {
                    exception: read_u32(buf, 12),
                    send_id: read_u32(buf, 16),
                    index: read_u32(buf, 20),
                },
            ),
        )
    } else if tag == SIMCONNECT_RECV_ID_OPEN {
        Some(
            SimConnectRecv::Open(
                SIMCONNECT_RECV_OPEN {
                    application_name: read_bytes(buf, 12, 256),
                    application_version_major: read_u32(buf, 268),
                    application_version_minor: read_u32(buf, 272),
                    application_build_major: read_u32(buf, 276),
                    application_build_minor: read_u32(buf, 280),
                    simconnect_version_major: read_u32(buf, 284),
                    simconnect_version_minor: read_u32(buf, 288),
                    simconnect_build_major: read_u32(buf, 292),
                    simconnect_build_minor: read_u32(buf, 296),
                    reserved1: read_u32(buf, 300),
                    reserved2: read_u32(buf, 304),
                },
            ),
        )
    } else if tag == SIMCONNECT_RECV_ID_QUIT {
        Some(SimConnectRecv::Quit(SIMCONNECT_RECV_QUIT {}))
    } else if tag == SIMCONNECT_RECV_ID_EVENT {
        Some(
            SimConnectRecv::Event(
                SIMCONNECT_RECV_EVENT {
                    group_id: read_u32(buf, 12),
                    event_id: read_u32(buf, 16),
                    data: read_u32(buf, 20),
                },
            ),
        )
    } else if tag == SIMCONNECT_RECV_ID_EVENT_EX1 {
        let data = [read_u32(buf, 20), read_u32(buf, 24), read_u32(buf, 28), read_u32(buf, 32), read_u32(buf, 36)];
        let e = SIMCONNECT_RECV_EVENT_EX1 { group_id: read_u32(buf, 12), event_id: read_u32(buf, 16), data };
        assert(e.data@ =~= seq![u32_at(buf@, 20), u32_at(buf@, 24), u32_at(buf@, 28), u32_at(buf@, 32), u32_at(buf@, 36)]);
        Some(SimConnectRecv::EventEx1(e))
    } else if tag == SIMCONNECT_RECV_ID_SIMOBJECT_DATA || tag == SIMCONNECT_RECV_ID_SIMOBJECT_DATA_BYTYPE {
        Some(
            SimConnectRecv::SimObjectData(
                SIMCONNECT_RECV_SIMOBJECT_DATA {
                    request_id: read_u32(buf, 12),
                    object_id: read_u32(buf, 16),
                    define_id: read_u32(buf, 20),
                    flags: read_u32(buf, 24),
                    entry_number: read_u32(buf, 28),
                    out_of: read_u32(buf, 32),
                    define_count: read_u32(buf, 36),
                    data: read_bytes(buf, DATA_OFFSET, size - DATA_OFFSET),
                },
            ),
        )
    } else if tag == SIMCONNECT_RECV_ID_CLIENT_DATA {
        Some(
            SimConnectRecv::ClientData(
                SIMCONNECT_RECV_CLIENT_DATA {
                    request_id: read_u32(buf, 12),
                    object_id: read_u32(buf, 16),
                    define_id: read_u32(buf, 20),
                    flags: read_u32(buf, 24),
                    entry_number: read_u32(buf, 28),
                    out_of: read_u32(buf, 32),
                    define_count: read_u32(buf, 36),
                    data: read_bytes(buf, DATA_OFFSET, size - DATA_OFFSET),
                },
            ),
        )
    } else if tag == SIMCONNECT_RECV_ID_ASSIGNED_OBJECT_ID {
        Some(
            SimConnectRecv::AssignedObjectId(
                SIMCONNECT_RECV_ASSIGNED_OBJECT_ID {
                    request_id: read_u32(buf, 12),
                    object_id: read_u32(buf, 16),
                },
            ),
        )
    } else if tag == SIMCONNECT_RECV_ID_AIRPORT_LIST {
        let count = read_u32(buf, 16);
        if (count as u64) * (AIRPORT_SIZE as u64) + (AIRPORTS_OFFSET as u64) > size as u64 {
            return None;
        }
        let airports = read_airports(buf, count as usize);
        Some(
            SimConnectRecv::AirportList(
                SIMCONNECT_RECV_AIRPORT_LIST {
                    request_id: read_u32(buf, 12),
                    array_size: count,
                    entry_number: read_u32(buf, 20),
                    out_of: read_u32(buf, 24),
                    airports,
                },
            ),
        )
    } else {
        Some(
            SimConnectRecv::FacilityData(
                SIMCONNECT_RECV_FACILITY_DATA {
                    user_request_id: read_u32(buf, 12),
                    unique_request_id: read_u32(buf, 16),
                    parent_unique_request_id: read_u32(buf, 20),
                    facility_type: read_u32(buf, 24),
                    is_list_item: read_u32(buf, 28),
                    item_index: read_u32(buf, 32),
                    list_size: read_u32(buf, 36),
                    data: read_bytes(buf, DATA_OFFSET, size - DATA_OFFSET),
                },
            ),
        )
    }
}

impl SIMCONNECT_RECV_EVENT {
    /// The id of the event that fired.
    pub fn id(&self) -> (r: u32)
        ensures
            r == self.event_id,
    {
        self.event_id
    }

    /// The data word of the event.
    pub fn data(&self) -> (r: u32)
        ensures
            r == self.data,
    {
        self.data
    }
}

impl SIMCONNECT_RECV_EVENT_EX1 {
    /// The id of the event that fired.
    pub fn id(&self) -> (r: u32)
        ensures
            r == self.event_id,
    {
        self.event_id
    }

    /// The data words of the event.
    pub fn data(&self) -> (r: [u32; 5])
        ensures
            r == self.data,
    {
        self.data
    }
}

impl SIMCONNECT_RECV_ASSIGNED_OBJECT_ID {
    /// The id of the request that created the object.
    pub fn id(&self) -> (r: u32)
        ensures
            r == self.request_id,
    {
        self.request_id
    }

    /// The id the host gave the object.
    pub fn object_id(&self) -> (r: u32)
        ensures
            r == self.object_id,
    {
        self.object_id
    }
}

/// Whether a data reply with definition id `define_id` and payload `data`
/// decodes as record type `def` in a session with these registered types:
/// `def` holds that id and the payload is long enough.
pub open spec fn decodes_as(keys: Seq<u64>, define_id: u32, data: Seq<u8>, def: DataDefinition) -> bool {
    &&& id_in(keys, def.key) == Some(define_id)
    &&& record_size(def.datums@) <= data.len()
}

impl SIMCONNECT_RECV_SIMOBJECT_DATA {
    /// The id of the request this data answers.
    pub fn id(&self) -> (r: u32)
        ensures
            r == self.request_id,
    {
        self.request_id
    }

    /// The record carried by this reply, if it is of type `def`: the reply's
    /// definition id must be the one `def` is registered under. Otherwise
    /// nothing, so that a caller can try each type it expects in turn.
    pub fn into(&self, sim: &SimConnect, def: &DataDefinition) -> (r: Option<Vec<DataValue>>)
        requires
            sim.wf(),
        ensures
            r is Some <==> decodes_as(sim@.data_definitions, self.define_id, self.data@, *def),
            r matches Some(values) ==> record_decodes_to(values@, def.datums@, self.data@),
    {
        match sim.data_definition_id(def.key) {
            Some(id) => if id == self.define_id {
                decode_record(&def.datums, &self.data)
            } else {
                None
            },
            None => None,
        }
    }
}

impl SIMCONNECT_RECV_CLIENT_DATA {
    /// The id of the request this data answers.
    pub fn id(&self) -> (r: u32)
        ensures
            r == self.request_id,
    {
        self.request_id
    }

    /// The bytes of the area carried by this reply, if it is of client data
    /// type `def` and holds all of it.
    pub fn into(&self, sim: &SimConnect, def: &ClientDataDefinition) -> (r: Option<Vec<u8>>)
        requires
            sim.wf(),
        ensures
            r is Some <==> id_in(sim@.client_data_definitions, def.key) == Some(self.define_id)
                && def.size <= self.data@.len(),
            r matches Some(bytes) ==> bytes@ == self.data@.subrange(0, def.size as int),
    {
        match sim.client_data_definition_id(def.key) {
            Some(id) => if id == self.define_id && def.size as usize <= self.data.len() {
                Some(read_bytes(&self.data, 0, def.size as usize))
            } else {
                None
            },
            None => None,
        }
    }
}

impl SIMCONNECT_RECV_AIRPORT_LIST {
    /// The id of the request this list answers.
    pub fn id(&self) -> (r: u32)
        ensures
            r == self.request_id,
    {
        self.request_id
    }

    /// The airports in this part of the list.
    pub fn data(&self) -> (r: &[SIMCONNECT_DATA_FACILITY_AIRPORT])
        ensures
            r@ == self.airports@,
    {
        self.airports.as_slice()
    }
}

impl SIMCONNECT_RECV_FACILITY_DATA {
    /// The id of the request this data answers.
    pub fn id(&self) -> (r: u32)
        ensures
            r == self.user_request_id,
    {
        self.user_request_id
    }
}

/// A data reply decodes as at most one of a session's registered types: the
/// one its definition id was handed out to.
pub proof fn lemma_decode_type_safety(
    sim: &SimConnect,
    define_id: u32,
    data: Seq<u8>,
    a: DataDefinition,
    b: DataDefinition,
)
    requires
        sim.wf(),
        a.key != b.key,
    ensures
        !(decodes_as(sim@.data_definitions, define_id, data, a) && decodes_as(
            sim@.data_definitions,
            define_id,
            data,
            b,
        )),
{
    sim.lemma_registries_distinct();
    let keys = sim@.data_definitions;
    if decodes_as(keys, define_id, data, a) && decodes_as(keys, define_id, data, b) {
        let i = choose|i: int| 0 <= i < keys.len() && keys[i] == a.key;
        let j = choose|j: int| 0 <= j < keys.len() && keys[j] == b.key;
        assert(i as u32 == define_id && j as u32 == define_id);
        assert(i == j);
    }
}

} // verus!
