// Verified core of a binding layer between native Rust types and a
// slot-based scripting VM: how a type splits into class and instance records,
// how method declarations resolve into roles, how arguments are marshaled
// through slots, what a call decides, and what a class registers.

pub mod naming;
pub mod types;
pub mod decl;
pub mod resolve;
pub mod validate;
pub mod layout;
pub mod plan;
pub mod call;
pub mod registry;
pub mod store;
pub mod expand;
