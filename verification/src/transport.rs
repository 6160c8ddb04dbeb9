//! The wire format of fleet messages and the two ends that speak it.

pub mod checksum;
pub mod clock;
pub mod header;
pub mod laws;
pub mod message_type;
pub mod receiver;
pub mod sender;
pub mod wire;

pub use header::{FleetMsgHeader, HEADER_SIZE, MAGIC, VERSION};
pub use message_type::MessageType;
pub use receiver::{process_datagram, RxError, RX_BUFFER_SIZE};
pub use sender::{MulticastSender, SenderState};
