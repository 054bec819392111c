//! Decoding of Netflow v5 flow-export datagrams carried in Ethernet / IPv4 / UDP
//! frames: a bounds-checked byte cursor, the fixed-layout Netflow v5 decoder,
//! the three layer stages and the pipeline that chains them.

pub mod bytes;
pub mod cursor;
pub mod error;
pub mod netflow;
pub mod layers;
pub mod pipeline;
pub mod flow;
pub mod laws;
