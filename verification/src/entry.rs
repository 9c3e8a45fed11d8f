//! The entry-point layer: the bodies of the symbols exported to the host.
//!
//! For the two list hooks this is the buffer handoff: convert the handler's
//! descriptor list to host form, element for element and in order, so that
//! the caller can hand the backing storage to the host.  For the two count
//! hooks it is the conversion of the list length to the host's 32-bit
//! count.  For the per-callback hooks it is the trampoline discipline:
//! decode the incoming 32-bit tag, invoke the author's handler on the
//! decoded value, and return the handler's answer unchanged; an unknown
//! incoming tag is a fatal decode failure and the handler is never invoked.

use vstd::prelude::*;
use vstd::utf8::encode_utf8;

use crate::sp::host::{ConvertError, HostEmitterTypeInfo, HostRenderGroupInfo};
use crate::sp::particles::{EmitterTypeInfo, RenderGroupInfo};
use crate::tags::{TagDecodeError, TagSet};

verus! {

/// Convert an emitter-type descriptor list to the host's record shape,
/// element for element and in order.  Fails exactly when some name in the
/// list contains a zero byte.
pub fn emitter_types_to_host<EmitterTypeId: TagSet>(
    types: &Vec<EmitterTypeInfo<EmitterTypeId>>,
) -> (r: Result<Vec<HostEmitterTypeInfo>, ConvertError>)
    ensures
        match r {
            Ok(buf) => {
                &&& buf@.len() == types@.len()
                &&& forall|i: int|
                    0 <= i < types@.len() ==> types@[i].corresponds(#[trigger] buf@[i])
                        && buf@[i].wf()
            },
            Err(e) => {
                &&& e == ConvertError::NameContainsInteriorNul
                &&& exists|i: int|
                    0 <= i < types@.len() && encode_utf8(#[trigger] types@[i].name@).contains(0u8)
            },
        },
{
    let mut buf: Vec<HostEmitterTypeInfo> = Vec::new();
    let n = types.len();
    let mut i: usize = 0;
    while i < n
        invariant
            n == types@.len(),
            0 <= i <= n,
            buf@.len() == i,
            forall|j: int|
                0 <= j < i ==> types@[j].corresponds(#[trigger] buf@[j]) && buf@[j].wf(),
        decreases n - i,
    {
        let h = match types[i].to_host() {
            Ok(h) => h,
            Err(e) => {
                proof {
                    assert(encode_utf8(types@[i as int].name@).contains(0u8));
                }
                return Err(e);
            },
        };
        buf.push(h);
        i += 1;
    }
    Ok(buf)
}

/// Convert a render-group descriptor list to the host's record shape,
/// element for element and in order.  Fails exactly when some shader name
/// in the list contains a zero byte.
pub fn render_group_types_to_host<RenderGroupIdType: TagSet>(
    groups: &Vec<RenderGroupInfo<RenderGroupIdType>>,
) -> (r: Result<Vec<HostRenderGroupInfo>, ConvertError>)
    requires
        forall|i: int| 0 <= i < groups@.len() ==> (#[trigger] groups@[i]).wf(),
    ensures
        match r {
            Ok(buf) => {
                &&& buf@.len() == groups@.len()
                &&& forall|i: int|
                    0 <= i < groups@.len() ==> groups@[i].corresponds(#[trigger] buf@[i])
                        && buf@[i].wf()
            },
            Err(e) => {
                &&& e == ConvertError::NameContainsInteriorNul
                &&& exists|i: int|
                    0 <= i < groups@.len() && encode_utf8(
                        #[trigger] groups@[i].shader_name@,
                    ).contains(0u8)
            },
        },
{
    let mut buf: Vec<HostRenderGroupInfo> = Vec::new();
    let n = groups.len();
    let mut i: usize = 0;
    while i < n
        invariant
            forall|k: int| 0 <= k < groups@.len() ==> (#[trigger] groups@[k]).wf(),
            n == groups@.len(),
            0 <= i <= n,
            buf@.len() == i,
            forall|j: int|
                0 <= j < i ==> groups@[j].corresponds(#[trigger] buf@[j]) && buf@[j].wf(),
        decreases n - i,
    {
        let h = match groups[i].to_host() {
            Ok(h) => h,
            Err(e) => {
                proof {
                    assert(encode_utf8(groups@[i as int].shader_name@).contains(0u8));
                }
                return Err(e);
            },
        };
        buf.push(h);
        i += 1;
    }
    Ok(buf)
}

/// The count a count entry point reports for a descriptor list: its length
/// as the host's 32-bit signed count.
pub fn emitter_types_count<EmitterTypeId: TagSet>(
    types: &Vec<EmitterTypeInfo<EmitterTypeId>>,
) -> (n: i32)
    requires
        types@.len() <= i32::MAX,
    ensures
        n == types@.len(),
{
    types.len() as i32
}

/// The count a count entry point reports for a render-group list: its
/// length as the host's 32-bit signed count.
pub fn render_group_types_count<RenderGroupIdType: TagSet>(
    groups: &Vec<RenderGroupInfo<RenderGroupIdType>>,
) -> (n: i32)
    requires
        groups@.len() <= i32::MAX,
    ensures
        n == groups@.len(),
{
    groups.len() as i32
}

/// The count entry point agrees with its paired list entry point: a count
/// computed from a descriptor list equals the length of any host buffer
/// converted from that same list.
pub proof fn lemma_emitter_count_matches_buffer<EmitterTypeId: TagSet>(
    types: Seq<EmitterTypeInfo<EmitterTypeId>>,
    n: i32,
    buf: Seq<HostEmitterTypeInfo>,
)
    requires
        n == types.len(),
        buf.len() == types.len(),
    ensures
        n == buf.len(),
{
}

/// The render-group count entry point agrees with its paired list entry
/// point in the same way.
pub proof fn lemma_render_group_count_matches_buffer<RenderGroupIdType: TagSet>(
    groups: Seq<RenderGroupInfo<RenderGroupIdType>>,
    n: i32,
    buf: Seq<HostRenderGroupInfo>,
)
    requires
        n == groups.len(),
        buf.len() == groups.len(),
    ensures
        n == buf.len(),
{
}

/// Trampoline for the "emitter was added" hook: decode the incoming 32-bit
/// emitter kind, invoke the handler on the decoded tag, and return the
/// handler's "remove immediately" answer unchanged.  An unknown incoming
/// tag is a fatal decode failure; the handler is then never invoked.
pub fn emitter_was_added_entry<EmitterTypeId: TagSet, F: FnOnce(EmitterTypeId) -> bool>(
    local_emitter_type_id: u32,
    handler: F,
) -> (r: Result<bool, TagDecodeError>)
    requires
        match EmitterTypeId::tag_at(local_emitter_type_id) {
            Some(t) => call_requires(handler, (t,)),
            None => true,
        },
    ensures
        match r {
            Ok(remove_immediately) => match EmitterTypeId::tag_at(local_emitter_type_id) {
                Some(t) => call_ensures(handler, (t,), remove_immediately),
                None => false,
            },
            Err(e) => {
                &&& EmitterTypeId::tag_at(local_emitter_type_id) is None
                &&& e == TagDecodeError
            },
        },
{
    let t = match EmitterTypeId::decode(local_emitter_type_id) {
        Ok(t) => t,
        Err(e) => {
            return Err(e);
        },
    };
    Ok(handler(t))
}

/// Trampoline for the "update emitter" hook: decode the incoming 32-bit
/// emitter kind and invoke the handler on the decoded tag.  An unknown
/// incoming tag is a fatal decode failure; the handler is then never
/// invoked.
pub fn update_emitter_entry<EmitterTypeId: TagSet, F: FnOnce(EmitterTypeId)>(
    local_emitter_type_id: u32,
    handler: F,
) -> (r: Result<(), TagDecodeError>)
    requires
        match EmitterTypeId::tag_at(local_emitter_type_id) {
            Some(t) => call_requires(handler, (t,)),
            None => true,
        },
    ensures
        match r {
            Ok(u) => match EmitterTypeId::tag_at(local_emitter_type_id) {
                Some(t) => call_ensures(handler, (t,), u),
                None => false,
            },
            Err(e) => {
                &&& EmitterTypeId::tag_at(local_emitter_type_id) is None
                &&& e == TagDecodeError
            },
        },
{
    let t = match EmitterTypeId::decode(local_emitter_type_id) {
        Ok(t) => t,
        Err(e) => {
            return Err(e);
        },
    };
    handler(t);
    Ok(())
}

/// Trampoline for the "update particle" hook: decode the incoming 32-bit
/// render-group kind, invoke the handler on the decoded tag, and return
/// the handler's "keep alive" answer unchanged.  An unknown incoming tag
/// is a fatal decode failure; the handler is then never invoked.
pub fn update_particle_entry<RenderGroupIdType: TagSet, F: FnOnce(RenderGroupIdType) -> bool>(
    render_group_id: u32,
    handler: F,
) -> (r: Result<bool, TagDecodeError>)
    requires
        match RenderGroupIdType::tag_at(render_group_id) {
            Some(t) => call_requires(handler, (t,)),
            None => true,
        },
    ensures
        match r {
            Ok(keep_alive) => match RenderGroupIdType::tag_at(render_group_id) {
                Some(t) => call_ensures(handler, (t,), keep_alive),
                None => false,
            },
            Err(e) => {
                &&& RenderGroupIdType::tag_at(render_group_id) is None
                &&& e == TagDecodeError
            },
        },
{
    let t = match RenderGroupIdType::decode(render_group_id) {
        Ok(t) => t,
        Err(e) => {
            return Err(e);
        },
    };
    Ok(handler(t))
}

} // verus!
