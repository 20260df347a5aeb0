//! Protocol engine of a game client: the fixed binary packet layout, the
//! variant-argument call decoder, the session record and the packet
//! dispatcher that turns incoming messages into state changes and replies.

pub mod bytes;
pub mod types;
pub mod codec;
pub mod text_parse;
pub mod variant;
pub mod session;
pub mod variant_handler;
pub mod packet_handler;
pub mod login;
