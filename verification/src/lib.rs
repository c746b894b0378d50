//! Protocol and crypto engine of a Key Access Server for NanoTDF objects:
//! wire framing, the per-connection handshake, the NanoTDF header parser and
//! the rewrap pipeline.

pub mod crypto;
pub mod dispatch;
pub mod error;
pub mod handshake;
pub mod header;
pub mod message;
pub mod rewrap;
pub mod state;
