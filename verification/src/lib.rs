//! Selection of the Next.js-specific content transforms that must run on a
//! source file before further compilation: per build context, an ordered
//! list of rules, each gating a list of transform effects behind a boolean
//! condition tree over a candidate file's path and reference kind.

pub mod conditions;
pub mod context;
pub mod laws;
pub mod paths;
pub mod rules;
pub mod transforms;
