//! The dispatch table: the closed set of recognized handler names and the
//! host symbol each recognized handler is exported under.
//!
//! An author marks a handler function for export under one of seven fixed
//! names; any other marked name is rejected.  Each recognized name maps to
//! exactly one host entry point.

use vstd::prelude::*;
use vstd::string::StringSliceAdditionalSpecFns;

verus! {

/// Rejection of an export request whose function name is not in the
/// recognized handler-name set.
#[derive(Clone, Copy, Debug, PartialEq, Eq, Structural)]
pub struct UnknownExportName;

/// The closed set of hooks the host calls into a plugin.
#[derive(Clone, Copy, Debug, PartialEq, Eq, Structural)]
pub enum HookKind {
    GetEmitterTypesCount,
    GetEmitterTypes,
    GetRenderGroupTypesCount,
    GetRenderGroupTypes,
    EmitterWasAdded,
    UpdateEmitter,
    UpdateParticle,
}

/// The handler name an author writes for each hook.
pub open spec fn handler_name(k: HookKind) -> Seq<char> {
    match k {
        HookKind::GetEmitterTypesCount => "get_emitter_types_count"@,
        HookKind::GetEmitterTypes => "get_emitter_types"@,
        HookKind::GetRenderGroupTypesCount => "get_render_group_types_count"@,
        HookKind::GetRenderGroupTypes => "get_render_group_types"@,
        HookKind::EmitterWasAdded => "emitter_was_added"@,
        HookKind::UpdateEmitter => "update_emitter"@,
        HookKind::UpdateParticle => "update_particle"@,
    }
}

/// The name of the symbol exported to the host for each hook.
pub open spec fn host_symbol(k: HookKind) -> Seq<char> {
    match k {
        HookKind::GetEmitterTypesCount => "spGetEmitterTypesCount"@,
        HookKind::GetEmitterTypes => "spGetEmitterTypes"@,
        HookKind::GetRenderGroupTypesCount => "spGetRenderGroupTypesCount"@,
        HookKind::GetRenderGroupTypes => "spGetRenderGroupTypes"@,
        HookKind::EmitterWasAdded => "spEmitterWasAdded"@,
        HookKind::UpdateEmitter => "spUpdateEmitter"@,
        HookKind::UpdateParticle => "spUpdateParticle"@,
    }
}

/// Compare two byte slices for equality.
fn bytes_eq(a: &[u8], b: &[u8]) -> (r: bool)
    ensures
        r == (a@ == b@),
{
    if a.len() != b.len() {
        proof {
            assert(a@ != b@);
        }
        return false;
    }
    let n = a.len();
    let mut i: usize = 0;
    while i < n
        invariant
            n == a@.len(),
            b@.len() == n,
            0 <= i <= n,
            forall|j: int| 0 <= j < i ==> a@[j] == b@[j],
        decreases n - i,
    {
        if a[i] != b[i] {
            return false;
        }
        i += 1;
    }
    proof {
        assert(a@ =~= b@);
    }
    true
}

/// Compare two strings for equality of their character sequences.
fn str_eq(a: &str, b: &str) -> (r: bool)
    ensures
        r == (a@ == b@),
{
    let r = bytes_eq(a.as_bytes(), b.as_bytes());
    proof {
        if a.spec_bytes() == b.spec_bytes() {
            vstd::utf8::encode_utf8_decode_utf8(a@);
            vstd::utf8::encode_utf8_decode_utf8(b@);
        }
    }
    r
}

/// Recognize a handler name: the name of a function marked for export
/// must be one of the seven recognized handler names, and names the hook
/// whose handler it is; any other name is rejected.
pub fn recognize_export(name: &str) -> (r: Result<HookKind, UnknownExportName>)
    ensures
        match r {
            Ok(k) => name@ == handler_name(k),
            Err(_) => forall|k: HookKind| name@ != handler_name(k),
        },
{
    if str_eq(name, "get_emitter_types_count") {
        Ok(HookKind::GetEmitterTypesCount)
    } else if str_eq(name, "get_emitter_types") {
        Ok(HookKind::GetEmitterTypes)
    } else if str_eq(name, "get_render_group_types_count") {
        Ok(HookKind::GetRenderGroupTypesCount)
    } else if str_eq(name, "get_render_group_types") {
        Ok(HookKind::GetRenderGroupTypes)
    } else if str_eq(name, "emitter_was_added") {
        Ok(HookKind::EmitterWasAdded)
    } else if str_eq(name, "update_emitter") {
        Ok(HookKind::UpdateEmitter)
    } else if str_eq(name, "update_particle") {
        Ok(HookKind::UpdateParticle)
    } else {
        proof {
            assert forall|k: HookKind| name@ != handler_name(k) by {
                assert(name@ != handler_name(HookKind::GetEmitterTypesCount));
                assert(name@ != handler_name(HookKind::GetEmitterTypes));
                assert(name@ != handler_name(HookKind::GetRenderGroupTypesCount));
                assert(name@ != handler_name(HookKind::GetRenderGroupTypes));
                assert(name@ != handler_name(HookKind::EmitterWasAdded));
                assert(name@ != handler_name(HookKind::UpdateEmitter));
                assert(name@ != handler_name(HookKind::UpdateParticle));
            }
        }
        Err(UnknownExportName)
    }
}

/// The symbol name exported to the host for a recognized hook.
pub fn host_symbol_name(k: HookKind) -> (r: &'static str)
    ensures
        r@ == host_symbol(k),
{
    match k {
        HookKind::GetEmitterTypesCount => "spGetEmitterTypesCount",
        HookKind::GetEmitterTypes => "spGetEmitterTypes",
        HookKind::GetRenderGroupTypesCount => "spGetRenderGroupTypesCount",
        HookKind::GetRenderGroupTypes => "spGetRenderGroupTypes",
        HookKind::EmitterWasAdded => "spEmitterWasAdded",
        HookKind::UpdateEmitter => "spUpdateEmitter",
        HookKind::UpdateParticle => "spUpdateParticle",
    }
}

/// The dispatch table is one-to-one: distinct hooks have distinct handler
/// names and distinct host symbols.
pub proof fn lemma_dispatch_table_injective(k1: HookKind, k2: HookKind)
    ensures
        handler_name(k1) == handler_name(k2) ==> k1 == k2,
        host_symbol(k1) == host_symbol(k2) ==> k1 == k2,
{
    reveal_strlit("get_emitter_types_count");
    reveal_strlit("get_emitter_types");
    reveal_strlit("get_render_group_types_count");
    reveal_strlit("get_render_group_types");
    reveal_strlit("emitter_was_added");
    reveal_strlit("update_emitter");
    reveal_strlit("update_particle");
    reveal_strlit("spGetEmitterTypesCount");
    reveal_strlit("spGetEmitterTypes");
    reveal_strlit("spGetRenderGroupTypesCount");
    reveal_strlit("spGetRenderGroupTypes");
    reveal_strlit("spEmitterWasAdded");
    reveal_strlit("spUpdateEmitter");
    reveal_strlit("spUpdateParticle");
    if handler_name(k1) == handler_name(k2) {
        assert(handler_name(k1).len() == handler_name(k2).len());
        assert(handler_name(k1)[0] == handler_name(k2)[0]);
        assert(k1 == k2);
    }
    if host_symbol(k1) == host_symbol(k2) {
        assert(host_symbol(k1).len() == host_symbol(k2).len());
        assert(host_symbol(k1)[2] == host_symbol(k2)[2]);
        assert(k1 == k2);
    }
}

} // verus!
