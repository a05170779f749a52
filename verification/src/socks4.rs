//! The SOCKS4 and SOCKS4a side of the protocol: wire enumerations, frame
//! codecs and the per-connection negotiation state machine.

pub mod command;
pub mod machine;
pub mod reply;
pub mod request;

pub use machine::Socks4;
pub use machine::Socks4Effect;
pub use machine::Socks4Event;
pub use machine::Socks4Output;
pub use machine::Socks4Phase;
