//! The SOCKS5 (RFC 1928) side of the protocol: wire enumerations, frame
//! codecs and the per-connection negotiation state machine.

pub mod addr_type;
pub mod command;
pub mod frame;
pub mod machine;
pub mod method;
pub mod reply;
pub mod request;
pub mod subneg;

pub use machine::HandshakeError;
pub use machine::Socks5;
pub use machine::Socks5Effect;
pub use machine::Socks5Event;
pub use machine::Socks5Output;
pub use machine::Socks5Phase;
