//! A builder for code-forge search queries: accumulate typed predicates
//! (repository, `is`, `label`, `type`, `state`, `no`) and render them into
//! the provider's `q=key:value+key:value` wire syntax.

pub mod query;
pub mod repo;
