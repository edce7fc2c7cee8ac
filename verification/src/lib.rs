//! A multi-hop swap router: it compiles a caller-supplied list of swap steps
//! into an ordered batch of pool calls, with an optional self-directed guard
//! call that enforces a minimum total output, plus a small owner/counter store.

pub mod asset;
pub mod contract;
pub mod error;
pub mod guard;
pub mod msg;
pub mod route;
pub mod state;
pub mod validate;
