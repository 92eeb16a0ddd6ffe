//! MRT record families.
//!
//! One module per record family defined in RFC 6396 / RFC 8050. Each family
//! decodes its body from a byte slice; the dispatch on `(record_type,
//! sub_type)` lives at the crate root.

pub mod bgp;
pub mod bgp4mp;
pub mod bgp4plus;
pub mod isis;
pub mod ospf;
pub mod rip;
pub mod tabledump;
