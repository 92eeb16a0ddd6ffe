//! IS-IS MRT records (types 32 and 33).
//!
//! IS-IS records carry a raw IS-IS protocol data unit without further
//! framing: the whole record body is the PDU.

use vstd::prelude::*;

use crate::wire::{read_bytes, sat_sub, sat_sub_u32};
use crate::{decodes_to, Header, MrtError};

verus! {

/// The PDU bytes of an IS-IS record: the whole body, whose length is the
/// header `length` less the 4 extended-timestamp bytes for type 33.
pub open spec fn spec_parse(h: Header, body: Seq<u8>) -> Result<Seq<u8>, MrtError> {
    let body_length = if h.record_type == 33 {
        sat_sub(h.length as int, 4)
    } else {
        h.length as int
    };
    if body.len() >= body_length {
        Ok(body.subrange(0, body_length))
    } else {
        Err(MrtError::Framing)
    }
}

/// Parse an IS-IS record, returning the raw PDU bytes.
pub fn parse(header: &Header, body: &[u8]) -> (r: Result<Vec<u8>, MrtError>)
    ensures
        decodes_to(r, spec_parse(*header, body@)),
{
    let body_length: u32 = if header.record_type == 33 {
        sat_sub_u32(header.length, 4)
    } else {
        header.length
    };
    let mut pos: usize = 0;
    read_bytes(body, &mut pos, body_length as usize)
}

} // verus!
