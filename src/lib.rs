//! Direction control for half-duplex (RS-485) serial links.
//!
//! The library holds the decisions: how a read timeout is rounded, which
//! line is toggled around a write and in which order, when the kernel is
//! asked to switch the line itself, how the kernel's descriptor is laid out,
//! how device paths are classified, and how the last error is reported.
//! Whoever owns the serial device performs the requested actions and hands
//! the outcome of each back.

pub mod codes;
pub mod descriptor;
pub mod error_context;
pub mod handles;
pub mod port_info;
pub mod rs485;
pub mod timeout;
pub mod write_path;

pub use rs485::{
    ControlMode, ControlPin, KernelAction, KernelEvent, KernelPhase, PortWrapper, Rs485Settings,
};
pub use descriptor::SerialRs485;
pub use write_path::{WriteAction, WritePath, WriteReport, WriteSession, WriteStage};
pub use error_context::{ErrorContext, ErrorStore};
pub use port_info::{classify_port, get_port_type_info, list_ports_text, PortListing, PortTypeInfo};
pub use codes::{FlowControl, LineSettings, Parity};
pub use handles::HandleTable;
pub use timeout::{normalize_timeout_ms, TimerGranularity};
