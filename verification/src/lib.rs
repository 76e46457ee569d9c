//! A protocol-translation gateway core: loosely typed key/value documents
//! arriving over HTTP are converted into the strongly typed tagged values the
//! backend RPC wire contract requires, and typed RPC responses are converted
//! back into loose documents. The surrounding HTTP server and RPC transport
//! are ordinary plumbing and live outside this library; everything that
//! decides, validates or converts is here, with its contract.

pub mod config;
pub mod documents;
pub mod handlers;
pub mod middleware;
pub mod validate;
pub mod values;
