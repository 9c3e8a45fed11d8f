//! Models of the host engine's descriptor records.
//!
//! The host exchanges descriptors as plain-data records holding
//! nul-terminated byte strings, 32-bit integer tags, and arrays of 32-bit
//! attribute codes.  This module models those records with owned values: a
//! name is the byte string including its terminating nul, and an attribute
//! array is a vector whose length stands for the host's separate count
//! field.

use vstd::prelude::*;
use vstd::utf8::{encode_utf8, valid_utf8};

verus! {

/// Failure of a conversion between a typed descriptor and its host form.
#[derive(Clone, Copy, Debug, PartialEq, Eq, Structural)]
pub enum ConvertError {
    /// An incoming 32-bit identifier is outside the declared tag set or
    /// attribute-code set.
    TagDecode,
    /// An incoming host name is not valid UTF-8.
    NameNotUtf8,
    /// An author-supplied name contains a zero byte and therefore has no
    /// nul-terminated form.
    NameContainsInteriorNul,
}

/// A well-formed host name: a byte string whose final byte is the
/// terminating nul and whose other bytes are all non-zero.
pub open spec fn host_name_wf(b: Seq<u8>) -> bool {
    &&& b.len() >= 1
    &&& b.last() == 0u8
    &&& forall|i: int| 0 <= i < b.len() - 1 ==> b[i] != 0u8
}

/// The content of a well-formed host name: its bytes without the
/// terminating nul.
pub open spec fn host_name_content(b: Seq<u8>) -> Seq<u8> {
    b.take(b.len() - 1)
}

/// The host's record for one declared emitter kind: a nul-terminated name
/// and the kind's 32-bit local identifier.
#[derive(Debug)]
pub struct HostEmitterTypeInfo {
    /// Name bytes, including the terminating nul.
    pub name: Vec<u8>,
    /// The emitter kind's identifier: its index in declaration order.
    pub local_id: u32,
}

impl HostEmitterTypeInfo {
    /// The record carries a well-formed nul-terminated name.
    pub open spec fn wf(self) -> bool {
        host_name_wf(self.name@)
    }
}

/// The host's record for one declared render group: a nul-terminated shader
/// name, the group's 32-bit local identifier, and the vertex-attribute code
/// array.  The vector's length stands for the host's attribute-count field.
#[derive(Debug)]
pub struct HostRenderGroupInfo {
    /// Shader name bytes, including the terminating nul.
    pub shader_name: Vec<u8>,
    /// The render group's identifier: its index in declaration order.
    pub local_id: u32,
    /// The host's integer code for each vertex attribute, in order.
    pub vertex_description_types: Vec<i32>,
}

impl HostRenderGroupInfo {
    /// The record carries a well-formed nul-terminated name, and the
    /// attribute array respects the declared bound on attribute sequences.
    pub open spec fn wf(self) -> bool {
        &&& host_name_wf(self.shader_name@)
        &&& self.vertex_description_types@.len() <= 32
    }
}

/// Relies on `String::from_utf8`: it succeeds exactly on byte sequences
/// that are valid UTF-8, and the returned string spells those very bytes.
#[verifier::external_body]
fn string_from_utf8(bytes: Vec<u8>) -> (r: Option<String>)
    ensures
        match r {
            Some(s) => valid_utf8(bytes@) && encode_utf8(s@) == bytes@,
            None => !valid_utf8(bytes@),
        },
{
    match String::from_utf8(bytes) {
        Ok(s) => Some(s),
        Err(_) => None,
    }
}

/// Produce the host form of an author-supplied name: its UTF-8 bytes
/// followed by a terminating nul.  A name containing a zero byte has no
/// such form and is rejected.
pub fn name_to_host_bytes(name: &str) -> (r: Result<Vec<u8>, ConvertError>)
    ensures
        match r {
            Ok(b) => {
                &&& b@ == encode_utf8(name@).push(0u8)
                &&& !encode_utf8(name@).contains(0u8)
                &&& host_name_wf(b@)
            },
            Err(e) => {
                &&& e == ConvertError::NameContainsInteriorNul
                &&& encode_utf8(name@).contains(0u8)
            },
        },
{
    let mut bytes = name.as_bytes_vec();
    let mut i: usize = 0;
    while i < bytes.len()
        invariant
            bytes@ == encode_utf8(name@),
            0 <= i <= bytes@.len(),
            forall|j: int| 0 <= j < i ==> bytes@[j] != 0u8,
        decreases bytes@.len() - i,
    {
        if bytes[i] == 0 {
            assert(encode_utf8(name@).contains(0u8)) by {
                assert(encode_utf8(name@)[i as int] == 0u8);
            }
            return Err(ConvertError::NameContainsInteriorNul);
        }
        i += 1;
    }
    assert(!encode_utf8(name@).contains(0u8)) by {
        if encode_utf8(name@).contains(0u8) {
            let k = choose|k: int| 0 <= k < encode_utf8(name@).len() && encode_utf8(name@)[k] == 0u8;
            assert(encode_utf8(name@)[k] != 0u8);
        }
    }
    bytes.push(0);
    Ok(bytes)
}

/// Read an incoming host name back into an owned string: take the bytes
/// before the terminating nul and check that they are valid UTF-8.
pub fn host_bytes_to_name(b: &Vec<u8>) -> (r: Result<String, ConvertError>)
    requires
        host_name_wf(b@),
    ensures
        match r {
            Ok(s) => {
                &&& valid_utf8(host_name_content(b@))
                &&& encode_utf8(s@) == host_name_content(b@)
            },
            Err(e) => {
                &&& e == ConvertError::NameNotUtf8
                &&& !valid_utf8(host_name_content(b@))
            },
        },
{
    let end = b.len() - 1;
    let mut content: Vec<u8> = Vec::new();
    let mut i: usize = 0;
    while i < end
        invariant
            end == b@.len() - 1,
            0 <= i <= end,
            content@ =~= b@.take(i as int),
        decreases end - i,
    {
        content.push(b[i]);
        i += 1;
    }
    assert(content@ =~= host_name_content(b@));
    match string_from_utf8(content) {
        Some(s) => Ok(s),
        None => Err(ConvertError::NameNotUtf8),
    }
}

} // verus!
