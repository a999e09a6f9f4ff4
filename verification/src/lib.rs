//! Resolution of a service connection URL from layered environment-variable
//! overrides, with a compiled-in default.
//!
//! Given a name prefix such as `REDIS` and a default URL, the resolver derives
//! a family of environment variable names (`REDIS_URL`, `REDIS_HOST`, ...),
//! reads a snapshot of the environment through a two-step indirection (an
//! `_ENV`-suffixed variable may rename the variable that carries a value),
//! assembles the overridden components into a URL string, and parses it.

pub mod assemble;
pub mod digits;
pub mod env;
pub mod keys;
pub mod parts;
pub mod resolver;
pub mod url_api;
