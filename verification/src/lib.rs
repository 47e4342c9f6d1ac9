//! Payload handling for VITA 49 radio transport packets: signal data payloads
//! with their 32-bit word framing, and the command payload variants selected
//! by a command packet's header and control/acknowledge mode word.

pub mod command_payload;
pub mod control_ack_mode;
pub mod error;
pub mod signal_data;

pub use command_payload::{
    Ack, Cancellation, CommandKind, CommandPayload, Control, PayloadTypeError, QueryAck,
};
pub use control_ack_mode::ControlAckMode;
pub use error::VitaError;
pub use signal_data::{Endian, PayloadBytes, PayloadError, SignalData};
