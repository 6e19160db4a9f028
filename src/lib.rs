//! Authentication gateway for applications behind a reverse proxy: the
//! dashboard session guard, the per-application policy table, and the
//! forward-auth decision with its token validation and key-set cache.

pub mod containers;
pub mod deploy;
pub mod forward;
pub mod keys;
pub mod policy;
pub mod session;
pub mod token;
