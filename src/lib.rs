//! Coordination of a node's header/trunk index with its optional heavy
//! state (full block bodies and the applied-block history of the UTXO set).

pub mod block;
pub mod light;
pub mod heavy;
pub mod chain;
pub mod laws;
