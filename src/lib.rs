//! Verified core of bindings between a sandboxed flight-simulator module and
//! its host.
//!
//! - [`status`]: the host's signed status convention as a `Result`.
//! - [`definition`]: record, client data and facility descriptions, and the
//!   encoding and decoding of a record in the host's byte layout.
//! - [`registry`]: dense, never reused definition ids per declared type.
//! - [`session`]: the telemetry session, which plans each operation as host
//!   requests and folds the host's statuses back into its registries.
//! - [`recv`]: decoding of the host's tagged messages and typed replies.
//! - [`executor`]: the single-step executor that drives a module's task, one
//!   poll per host call.
//! - [`gauge`]: the gauge and standalone module callbacks on top of it.
//! - [`wire`]: little-endian integers in byte sequences.

pub mod definition;
pub mod executor;
pub mod gauge;
pub mod recv;
pub mod registry;
pub mod session;
pub mod status;
pub mod wire;

pub use definition::{
    decode_record, encode_record, ClientDataDefinition, ClientDatum, DataDefinition, DataType, DataValue, DatumDefinition,
    FacilityDefinition, Period,
};
pub use executor::{Executor, ExecutorError, PollOutcome, TaskState};
pub use gauge::{FsContext, GaugeDrawData, GaugeExecutor, GaugeStep, MSFSEvent, PanelServiceID, StandaloneModuleExecutor};
pub use recv::{dispatch, SimConnectRecv};
pub use session::{ClientDataArea, DefinitionKind, HostRequest, InitPosition, SimConnect, Transaction};
pub use status::{first_failure, map_err, HResult};
