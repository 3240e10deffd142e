//! Arbitration of authority claims: a caller proposes a value on a claim
//! dimension (slot, round, session or a rotation seat) and is told whether it
//! may act on it. For any dimension and value at most one caller is ever told
//! "yes".
//!
//! - `claim`: the rule of a monotonic claim.
//! - `config`: the fixed-order rotation.
//! - `authority`: the central arbiter, which holds three claims and a
//!   rotation.
//! - `bridge`: the queue between synchronous callers and one asynchronous
//!   resolver.
//! - `codec`: the stored encoding of a granted value.
//! - `store`: the claim protocol against a shared transactional store.
//! - `client`: the resolver that runs the protocol against a store.
//! - `race`: the protocol under concurrent callers.
//! - `resolver`: the resolver capability and its stateless stand-ins.
//! - `request`: requests and verdicts as values.
//! - `wire`: the network verdict protocol of the central arbiter.

pub mod authority;
pub mod bridge;
pub mod claim;
pub mod client;
pub mod codec;
pub mod config;
pub mod race;
pub mod request;
pub mod resolver;
pub mod store;
pub mod wire;
