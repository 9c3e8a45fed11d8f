//! The example plugin: its declared tag sets, the descriptor lists its
//! handlers return, and the entry-point bodies the generator produces for
//! them.

use vstd::prelude::*;
use vstd::utf8::{encode_utf8, is_ascii_chars, is_ascii_chars_encode_utf8};

use crate::entry::{
    emitter_types_count, emitter_types_to_host, render_group_types_count,
    render_group_types_to_host,
};
use crate::sp::host::{HostEmitterTypeInfo, HostRenderGroupInfo};
use crate::sp::particles::{
    EmitterTypeInfo, RenderGroupInfo, VertexAttributeType, VERTEX_ATTRIBUTE_VEC2_CODE,
    VERTEX_ATTRIBUTE_VEC3_CODE, VERTEX_ATTRIBUTE_VEC4_CODE,
};
use crate::tags::{TagDecodeError, TagSet};

verus! {

/// The emitter kinds the example plugin declares.
///
/// `Count` is declared last so that its index equals the number of emitter
/// kinds that precede it.
#[derive(Clone, Copy, Debug, PartialEq, Eq, Structural)]
pub enum EmitterType {
    Campfire,
    WoodChop,
    Feathers,
    Count,
}

/// The render-group kinds the example plugin declares.
#[derive(Clone, Copy, Debug, PartialEq, Eq, Structural)]
pub enum RenderGroup {
    Smoke,
    Fire,
    Standard,
    Spark,
}

/// The three concrete emitter kinds alone, declared without a trailing
/// count marker: a tag set on which exactly the identifiers 0, 1 and 2
/// decode.
#[derive(Clone, Copy, Debug, PartialEq, Eq, Structural)]
pub enum VanillaEmitterType {
    Campfire,
    WoodChop,
    Feathers,
}

impl TagSet for EmitterType {
    open spec fn tag_count() -> u32 {
        4
    }

    open spec fn tag_index(self) -> u32 {
        match self {
            EmitterType::Campfire => 0,
            EmitterType::WoodChop => 1,
            EmitterType::Feathers => 2,
            EmitterType::Count => 3,
        }
    }

    open spec fn tag_at(id: u32) -> Option<EmitterType> {
        if id == 0 {
            Some(EmitterType::Campfire)
        } else if id == 1 {
            Some(EmitterType::WoodChop)
        } else if id == 2 {
            Some(EmitterType::Feathers)
        } else if id == 3 {
            Some(EmitterType::Count)
        } else {
            None
        }
    }

    proof fn lemma_tag_codec(t: EmitterType, id: u32) {
    }

    fn encode(self) -> u32 {
        match self {
            EmitterType::Campfire => 0,
            EmitterType::WoodChop => 1,
            EmitterType::Feathers => 2,
            EmitterType::Count => 3,
        }
    }

    fn decode(id: u32) -> Result<EmitterType, TagDecodeError> {
        if id == 0 {
            Ok(EmitterType::Campfire)
        } else if id == 1 {
            Ok(EmitterType::WoodChop)
        } else if id == 2 {
            Ok(EmitterType::Feathers)
        } else if id == 3 {
            Ok(EmitterType::Count)
        } else {
            Err(TagDecodeError)
        }
    }
}

impl TagSet for RenderGroup {
    open spec fn tag_count() -> u32 {
        4
    }

    open spec fn tag_index(self) -> u32 {
        match self {
            RenderGroup::Smoke => 0,
            RenderGroup::Fire => 1,
            RenderGroup::Standard => 2,
            RenderGroup::Spark => 3,
        }
    }

    open spec fn tag_at(id: u32) -> Option<RenderGroup> {
        if id == 0 {
            Some(RenderGroup::Smoke)
        } else if id == 1 {
            Some(RenderGroup::Fire)
        } else if id == 2 {
            Some(RenderGroup::Standard)
        } else if id == 3 {
            Some(RenderGroup::Spark)
        } else {
            None
        }
    }

    proof fn lemma_tag_codec(t: RenderGroup, id: u32) {
    }

    fn encode(self) -> u32 {
        match self {
            RenderGroup::Smoke => 0,
            RenderGroup::Fire => 1,
            RenderGroup::Standard => 2,
            RenderGroup::Spark => 3,
        }
    }

    fn decode(id: u32) -> Result<RenderGroup, TagDecodeError> {
        if id == 0 {
            Ok(RenderGroup::Smoke)
        } else if id == 1 {
            Ok(RenderGroup::Fire)
        } else if id == 2 {
            Ok(RenderGroup::Standard)
        } else if id == 3 {
            Ok(RenderGroup::Spark)
        } else {
            Err(TagDecodeError)
        }
    }
}

impl TagSet for VanillaEmitterType {
    open spec fn tag_count() -> u32 {
        3
    }

    open spec fn tag_index(self) -> u32 {
        match self {
            VanillaEmitterType::Campfire => 0,
            VanillaEmitterType::WoodChop => 1,
            VanillaEmitterType::Feathers => 2,
        }
    }

    open spec fn tag_at(id: u32) -> Option<VanillaEmitterType> {
        if id == 0 {
            Some(VanillaEmitterType::Campfire)
        } else if id == 1 {
            Some(VanillaEmitterType::WoodChop)
        } else if id == 2 {
            Some(VanillaEmitterType::Feathers)
        } else {
            None
        }
    }

    proof fn lemma_tag_codec(t: VanillaEmitterType, id: u32) {
    }

    fn encode(self) -> u32 {
        match self {
            VanillaEmitterType::Campfire => 0,
            VanillaEmitterType::WoodChop => 1,
            VanillaEmitterType::Feathers => 2,
        }
    }

    fn decode(id: u32) -> Result<VanillaEmitterType, TagDecodeError> {
        if id == 0 {
            Ok(VanillaEmitterType::Campfire)
        } else if id == 1 {
            Ok(VanillaEmitterType::WoodChop)
        } else if id == 2 {
            Ok(VanillaEmitterType::Feathers)
        } else {
            Err(TagDecodeError)
        }
    }
}

/// The vertex attributes every render group of the example plugin uses.
pub fn vertex_description() -> (r: Vec<VertexAttributeType>)
    ensures
        r@ == seq![
            VertexAttributeType::Vec3,
            VertexAttributeType::Vec2,
            VertexAttributeType::Vec4,
        ],
{
    let mut r: Vec<VertexAttributeType> = Vec::new();
    r.push(VertexAttributeType::Vec3);
    r.push(VertexAttributeType::Vec2);
    r.push(VertexAttributeType::Vec4);
    proof {
        assert(r@ =~= seq![
            VertexAttributeType::Vec3,
            VertexAttributeType::Vec2,
            VertexAttributeType::Vec4,
        ]);
    }
    r
}

/// Handler for the emitter-type list: the emitter kinds the example plugin
/// declares, in declaration order.
pub fn get_emitter_types() -> (r: Vec<EmitterTypeInfo<EmitterType>>)
    ensures
        r@.len() == 3,
        r@[0].name@ == "campfire"@ && r@[0].id == EmitterType::Campfire,
        r@[1].name@ == "woodChop"@ && r@[1].id == EmitterType::WoodChop,
        r@[2].name@ == "feathers"@ && r@[2].id == EmitterType::Feathers,
{
    let mut r: Vec<EmitterTypeInfo<EmitterType>> = Vec::new();
    r.push(EmitterTypeInfo { name: "campfire".to_owned(), id: EmitterType::Campfire });
    r.push(EmitterTypeInfo { name: "woodChop".to_owned(), id: EmitterType::WoodChop });
    r.push(EmitterTypeInfo { name: "feathers".to_owned(), id: EmitterType::Feathers });
    r
}

/// Handler for the render-group list: the render groups the example plugin
/// declares, in declaration order, each with the shared vertex layout.
pub fn get_render_group_types() -> (r: Vec<RenderGroupInfo<RenderGroup>>)
    ensures
        r@.len() == 4,
        r@[0].shader_name@ == "smokeParticle"@ && r@[0].id == RenderGroup::Smoke,
        r@[1].shader_name@ == "fireParticle"@ && r@[1].id == RenderGroup::Fire,
        r@[2].shader_name@ == "particle"@ && r@[2].id == RenderGroup::Standard,
        r@[3].shader_name@ == "spark"@ && r@[3].id == RenderGroup::Spark,
        forall|i: int|
            0 <= i < 4 ==> (#[trigger] r@[i].vertex_descriptions@) == seq![
                VertexAttributeType::Vec3,
                VertexAttributeType::Vec2,
                VertexAttributeType::Vec4,
            ],
{
    let mut r: Vec<RenderGroupInfo<RenderGroup>> = Vec::new();
    r.push(
        RenderGroupInfo {
            shader_name: "smokeParticle".to_owned(),
            id: RenderGroup::Smoke,
            vertex_descriptions: vertex_description(),
        },
    );
    r.push(
        RenderGroupInfo {
            shader_name: "fireParticle".to_owned(),
            id: RenderGroup::Fire,
            vertex_descriptions: vertex_description(),
        },
    );
    r.push(
        RenderGroupInfo {
            shader_name: "particle".to_owned(),
            id: RenderGroup::Standard,
            vertex_descriptions: vertex_description(),
        },
    );
    r.push(
        RenderGroupInfo {
            shader_name: "spark".to_owned(),
            id: RenderGroup::Spark,
            vertex_descriptions: vertex_description(),
        },
    );
    r
}

/// The names the example plugin declares are ASCII without nul characters,
/// so their UTF-8 encodings contain no zero byte and every conversion to
/// host form succeeds.
proof fn lemma_example_names_have_no_nul()
    ensures
        !encode_utf8("campfire"@).contains(0u8),
        !encode_utf8("woodChop"@).contains(0u8),
        !encode_utf8("feathers"@).contains(0u8),
        !encode_utf8("smokeParticle"@).contains(0u8),
        !encode_utf8("fireParticle"@).contains(0u8),
        !encode_utf8("particle"@).contains(0u8),
        !encode_utf8("spark"@).contains(0u8),
{
    reveal_strlit("campfire");
    reveal_strlit("woodChop");
    reveal_strlit("feathers");
    reveal_strlit("smokeParticle");
    reveal_strlit("fireParticle");
    reveal_strlit("particle");
    reveal_strlit("spark");
    assert("campfire"@ =~= seq!['c', 'a', 'm', 'p', 'f', 'i', 'r', 'e']);
    assert("woodChop"@ =~= seq!['w', 'o', 'o', 'd', 'C', 'h', 'o', 'p']);
    assert("feathers"@ =~= seq!['f', 'e', 'a', 't', 'h', 'e', 'r', 's']);
    assert("smokeParticle"@ =~= seq![
        's', 'm', 'o', 'k', 'e', 'P', 'a', 'r', 't', 'i', 'c', 'l', 'e',
    ]);
    assert("fireParticle"@ =~= seq!['f', 'i', 'r', 'e', 'P', 'a', 'r', 't', 'i', 'c', 'l', 'e']);
    assert("particle"@ =~= seq!['p', 'a', 'r', 't', 'i', 'c', 'l', 'e']);
    assert("spark"@ =~= seq!['s', 'p', 'a', 'r', 'k']);
    lemma_concrete_ascii_no_nul("campfire"@);
    lemma_concrete_ascii_no_nul("woodChop"@);
    lemma_concrete_ascii_no_nul("feathers"@);
    lemma_concrete_ascii_no_nul("smokeParticle"@);
    lemma_concrete_ascii_no_nul("fireParticle"@);
    lemma_concrete_ascii_no_nul("particle"@);
    lemma_concrete_ascii_no_nul("spark"@);
}

/// An ASCII character sequence without the nul character encodes to UTF-8
/// bytes without a zero byte.
proof fn lemma_concrete_ascii_no_nul(s: Seq<char>)
    requires
        is_ascii_chars(s),
        forall|i: int| 0 <= i < s.len() ==> s[i] != '\0',
    ensures
        !encode_utf8(s).contains(0u8),
{
    is_ascii_chars_encode_utf8(s);
    if encode_utf8(s).contains(0u8) {
        let k = choose|k: int| 0 <= k < encode_utf8(s).len() && encode_utf8(s)[k] == 0u8;
        assert(s[k] as u8 == encode_utf8(s)[k]);
        assert(s[k] != '\0');
        assert(false);
    }
}

/// The count entry point for the emitter-type list: the number of declared
/// emitter kinds.
pub fn sp_get_emitter_types_count() -> (n: i32)
    ensures
        n == 3,
{
    let types = get_emitter_types();
    emitter_types_count(&types)
}

/// The list entry point for the emitter-type list: the declared emitter
/// kinds in host form, in declaration order, ready for handoff.
pub fn sp_get_emitter_types() -> (r: Vec<HostEmitterTypeInfo>)
    ensures
        r@.len() == 3,
        r@[0].name@ == encode_utf8("campfire"@).push(0u8) && r@[0].local_id == 0,
        r@[1].name@ == encode_utf8("woodChop"@).push(0u8) && r@[1].local_id == 1,
        r@[2].name@ == encode_utf8("feathers"@).push(0u8) && r@[2].local_id == 2,
        forall|i: int| 0 <= i < 3 ==> (#[trigger] r@[i]).wf(),
{
    let types = get_emitter_types();
    match emitter_types_to_host(&types) {
        Ok(buf) => buf,
        Err(_) => {
            proof {
                lemma_example_names_have_no_nul();
                assert(false);
            }
            Vec::new()
        },
    }
}

/// The count entry point for the render-group list: the number of declared
/// render groups.
pub fn sp_get_render_group_types_count() -> (n: i32)
    ensures
        n == 4,
{
    let groups = get_render_group_types();
    render_group_types_count(&groups)
}

/// The list entry point for the render-group list: the declared render
/// groups in host form, in declaration order, ready for handoff.
pub fn sp_get_render_group_types() -> (r: Vec<HostRenderGroupInfo>)
    ensures
        r@.len() == 4,
        r@[0].shader_name@ == encode_utf8("smokeParticle"@).push(0u8) && r@[0].local_id == 0,
        r@[1].shader_name@ == encode_utf8("fireParticle"@).push(0u8) && r@[1].local_id == 1,
        r@[2].shader_name@ == encode_utf8("particle"@).push(0u8) && r@[2].local_id == 2,
        r@[3].shader_name@ == encode_utf8("spark"@).push(0u8) && r@[3].local_id == 3,
        forall|i: int|
            0 <= i < 4 ==> (#[trigger] r@[i].vertex_description_types@) == seq![
                VERTEX_ATTRIBUTE_VEC3_CODE,
                VERTEX_ATTRIBUTE_VEC2_CODE,
                VERTEX_ATTRIBUTE_VEC4_CODE,
            ],
        forall|i: int| 0 <= i < 4 ==> (#[trigger] r@[i]).wf(),
{
    let groups = get_render_group_types();
    match render_group_types_to_host(&groups) {
        Ok(buf) => {
            proof {
                assert forall|i: int|
                    0 <= i < 4 implies (#[trigger] buf@[i].vertex_description_types@) == seq![
                    VERTEX_ATTRIBUTE_VEC3_CODE,
                    VERTEX_ATTRIBUTE_VEC2_CODE,
                    VERTEX_ATTRIBUTE_VEC4_CODE,
                ] by {
                    assert(groups@[i].corresponds(buf@[i]));
                    assert(buf@[i].vertex_description_types@ =~= seq![
                        VERTEX_ATTRIBUTE_VEC3_CODE,
                        VERTEX_ATTRIBUTE_VEC2_CODE,
                        VERTEX_ATTRIBUTE_VEC4_CODE,
                    ]);
                }
            }
            buf
        },
        Err(_) => {
            proof {
                lemma_example_names_have_no_nul();
                assert(false);
            }
            Vec::new()
        },
    }
}

} // verus!
