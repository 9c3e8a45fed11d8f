//! The typed descriptor layer: vertex attributes, emitter-type and
//! render-group descriptors, and their conversions to and from the host's
//! record shapes.

use vstd::prelude::*;
use vstd::utf8::{encode_utf8, valid_utf8};

use crate::sp::host::{
    host_bytes_to_name, host_name_content, name_to_host_bytes, ConvertError, HostEmitterTypeInfo,
    HostRenderGroupInfo,
};
use crate::tags::TagSet;

verus! {

/// The host's integer code for a single-float vertex attribute.
pub const VERTEX_ATTRIBUTE_FLOAT_CODE: i32 = 0;

/// The host's integer code for a two-component vertex attribute.
pub const VERTEX_ATTRIBUTE_VEC2_CODE: i32 = 1;

/// The host's integer code for a three-component vertex attribute.
pub const VERTEX_ATTRIBUTE_VEC3_CODE: i32 = 2;

/// The host's integer code for a four-component vertex attribute.
pub const VERTEX_ATTRIBUTE_VEC4_CODE: i32 = 3;

/// The kinds of vertex attribute the host supports.
#[derive(Clone, Copy, Debug, PartialEq, Eq, Structural)]
pub enum VertexAttributeType {
    Float,
    Vec2,
    Vec3,
    Vec4,
}

/// The vertex-attribute kind the given host code declares, if any.
pub open spec fn attribute_at(code: i32) -> Option<VertexAttributeType> {
    if code == VERTEX_ATTRIBUTE_FLOAT_CODE {
        Some(VertexAttributeType::Float)
    } else if code == VERTEX_ATTRIBUTE_VEC2_CODE {
        Some(VertexAttributeType::Vec2)
    } else if code == VERTEX_ATTRIBUTE_VEC3_CODE {
        Some(VertexAttributeType::Vec3)
    } else if code == VERTEX_ATTRIBUTE_VEC4_CODE {
        Some(VertexAttributeType::Vec4)
    } else {
        None
    }
}

impl VertexAttributeType {
    /// The host's integer code for this attribute kind.
    pub open spec fn code_spec(self) -> i32 {
        match self {
            VertexAttributeType::Float => VERTEX_ATTRIBUTE_FLOAT_CODE,
            VertexAttributeType::Vec2 => VERTEX_ATTRIBUTE_VEC2_CODE,
            VertexAttributeType::Vec3 => VERTEX_ATTRIBUTE_VEC3_CODE,
            VertexAttributeType::Vec4 => VERTEX_ATTRIBUTE_VEC4_CODE,
        }
    }

    /// Encode this attribute kind as the host's integer code.
    pub fn code(self) -> (c: i32)
        ensures
            c == self.code_spec(),
    {
        match self {
            VertexAttributeType::Float => VERTEX_ATTRIBUTE_FLOAT_CODE,
            VertexAttributeType::Vec2 => VERTEX_ATTRIBUTE_VEC2_CODE,
            VertexAttributeType::Vec3 => VERTEX_ATTRIBUTE_VEC3_CODE,
            VertexAttributeType::Vec4 => VERTEX_ATTRIBUTE_VEC4_CODE,
        }
    }

    /// Decode a host integer code into the attribute kind it declares; a
    /// code outside the four declared ones is a conversion failure.
    pub fn from_code(code: i32) -> (r: Result<VertexAttributeType, ConvertError>)
        ensures
            r == match attribute_at(code) {
                Some(a) => Result::<VertexAttributeType, ConvertError>::Ok(a),
                None => Result::<VertexAttributeType, ConvertError>::Err(ConvertError::TagDecode),
            },
    {
        if code == VERTEX_ATTRIBUTE_FLOAT_CODE {
            Ok(VertexAttributeType::Float)
        } else if code == VERTEX_ATTRIBUTE_VEC2_CODE {
            Ok(VertexAttributeType::Vec2)
        } else if code == VERTEX_ATTRIBUTE_VEC3_CODE {
            Ok(VertexAttributeType::Vec3)
        } else if code == VERTEX_ATTRIBUTE_VEC4_CODE {
            Ok(VertexAttributeType::Vec4)
        } else {
            Err(ConvertError::TagDecode)
        }
    }
}

/// The vertex-attribute encoding is a bijection onto the host's four
/// declared integer codes: every kind's code decodes back to that kind, and
/// a code decodes exactly when it is one of the four declared codes, to a
/// kind that encodes back to it.
pub proof fn lemma_vertex_attribute_bijection(a: VertexAttributeType, code: i32)
    ensures
        attribute_at(a.code_spec()) == Some(a),
        attribute_at(code) is Some <==> (code == VERTEX_ATTRIBUTE_FLOAT_CODE
            || code == VERTEX_ATTRIBUTE_VEC2_CODE || code == VERTEX_ATTRIBUTE_VEC3_CODE
            || code == VERTEX_ATTRIBUTE_VEC4_CODE),
        match attribute_at(code) {
            Some(b) => b.code_spec() == code,
            None => true,
        },
{
}

/// A declared emitter kind as the author sees it: a UTF-8 name and a typed
/// identifier drawn from the author's tag set.
#[derive(Debug)]
pub struct EmitterTypeInfo<EmitterTypeId> {
    /// Name of the emitter kind.
    pub name: String,
    /// Identifier for the emitter kind.
    pub id: EmitterTypeId,
}

/// A declared render group as the author sees it: a shader name, a typed
/// identifier, and the ordered vertex attributes of the group's vertex
/// data.
#[derive(Debug)]
pub struct RenderGroupInfo<RenderGroupIdType> {
    /// Name of the shader that renders this group.
    pub shader_name: String,
    /// Identifier for the render group.
    pub id: RenderGroupIdType,
    /// The vertex attributes that make up this group's vertex data.
    pub vertex_descriptions: Vec<VertexAttributeType>,
}

impl<EmitterTypeId: TagSet> EmitterTypeInfo<EmitterTypeId> {
    /// Pointwise correspondence with a host record: the host name is this
    /// descriptor's name in nul-terminated UTF-8 form, and the host
    /// identifier is this descriptor's tag index.
    pub open spec fn corresponds(self, h: HostEmitterTypeInfo) -> bool {
        &&& h.name@ == encode_utf8(self.name@).push(0u8)
        &&& h.local_id == self.id.tag_index()
    }

    /// Convert this descriptor to the host's record shape.  Fails exactly
    /// when the name contains a zero byte and so has no nul-terminated
    /// form.
    pub fn to_host(&self) -> (r: Result<HostEmitterTypeInfo, ConvertError>)
        ensures
            match r {
                Ok(h) => {
                    &&& self.corresponds(h)
                    &&& h.wf()
                    &&& !encode_utf8(self.name@).contains(0u8)
                },
                Err(e) => {
                    &&& e == ConvertError::NameContainsInteriorNul
                    &&& encode_utf8(self.name@).contains(0u8)
                },
            },
    {
        let name = match name_to_host_bytes(self.name.as_str()) {
            Ok(b) => b,
            Err(e) => {
                return Err(e);
            },
        };
        Ok(HostEmitterTypeInfo { name, local_id: self.id.encode() })
    }

    /// Reconstruct a typed descriptor from an incoming host record: read
    /// the name back from its nul-terminated bytes and decode the tag.
    /// Fails with `NameNotUtf8` exactly when the name bytes are not UTF-8,
    /// and otherwise with `TagDecode` exactly when the identifier is
    /// outside the declared tag set.
    pub fn from_host(h: &HostEmitterTypeInfo) -> (r: Result<
        EmitterTypeInfo<EmitterTypeId>,
        ConvertError,
    >)
        requires
            h.wf(),
        ensures
            match r {
                Ok(t) => {
                    &&& valid_utf8(host_name_content(h.name@))
                    &&& t.corresponds(*h)
                    &&& EmitterTypeId::tag_at(h.local_id) == Some(t.id)
                },
                Err(ConvertError::NameNotUtf8) => !valid_utf8(host_name_content(h.name@)),
                Err(ConvertError::TagDecode) => {
                    &&& valid_utf8(host_name_content(h.name@))
                    &&& EmitterTypeId::tag_at(h.local_id) is None
                },
                Err(ConvertError::NameContainsInteriorNul) => false,
            },
    {
        let name = match host_bytes_to_name(&h.name) {
            Ok(s) => s,
            Err(e) => {
                return Err(e);
            },
        };
        let id = match EmitterTypeId::decode(h.local_id) {
            Ok(id) => id,
            Err(_) => {
                return Err(ConvertError::TagDecode);
            },
        };
        proof {
            EmitterTypeId::lemma_tag_codec(id, h.local_id);
            assert(h.name@ == encode_utf8(name@).push(0u8)) by {
                assert(host_name_content(h.name@).push(0u8) =~= h.name@);
            }
        }
        Ok(EmitterTypeInfo { name, id })
    }

    /// Pointwise equality with a host record: name bytes equal and tag
    /// equal.
    pub fn matches_host(&self, h: &HostEmitterTypeInfo) -> (r: bool)
        ensures
            r == self.corresponds(*h),
    {
        let encoded = self.id.encode();
        if encoded != h.local_id {
            proof {
                assert(!self.corresponds(*h));
            }
            return false;
        }
        let bytes = self.name.as_str().as_bytes_vec();
        bytes_match_nul_terminated(&bytes, &h.name)
    }
}

impl<RenderGroupIdType: TagSet> RenderGroupInfo<RenderGroupIdType> {
    /// The declared bound on a render group's attribute sequence holds.
    pub open spec fn wf(self) -> bool {
        self.vertex_descriptions@.len() <= 32
    }

    /// Pointwise correspondence with a host record: the host shader name
    /// is this descriptor's name in nul-terminated UTF-8 form, the host
    /// identifier is this descriptor's tag index, and the host code array
    /// encodes this descriptor's attribute sequence element for element.
    pub open spec fn corresponds(self, h: HostRenderGroupInfo) -> bool {
        &&& h.shader_name@ == encode_utf8(self.shader_name@).push(0u8)
        &&& h.local_id == self.id.tag_index()
        &&& h.vertex_description_types@.len() == self.vertex_descriptions@.len()
        &&& forall|i: int|
            0 <= i < self.vertex_descriptions@.len()
                ==> h.vertex_description_types@[i] == self.vertex_descriptions@[i].code_spec()
    }

    /// Convert this descriptor to the host's record shape, encoding each
    /// vertex attribute as its host code.  Fails exactly when the shader
    /// name contains a zero byte and so has no nul-terminated form.
    pub fn to_host(&self) -> (r: Result<HostRenderGroupInfo, ConvertError>)
        requires
            self.wf(),
        ensures
            match r {
                Ok(h) => {
                    &&& self.corresponds(h)
                    &&& h.wf()
                    &&& !encode_utf8(self.shader_name@).contains(0u8)
                },
                Err(e) => {
                    &&& e == ConvertError::NameContainsInteriorNul
                    &&& encode_utf8(self.shader_name@).contains(0u8)
                },
            },
    {
        let shader_name = match name_to_host_bytes(self.shader_name.as_str()) {
            Ok(b) => b,
            Err(e) => {
                return Err(e);
            },
        };
        let mut codes: Vec<i32> = Vec::new();
        let n = self.vertex_descriptions.len();
        let mut i: usize = 0;
        while i < n
            invariant
                n == self.vertex_descriptions@.len(),
                0 <= i <= n,
                codes@.len() == i,
                forall|j: int|
                    0 <= j < i ==> codes@[j] == self.vertex_descriptions@[j].code_spec(),
            decreases n - i,
        {
            codes.push(self.vertex_descriptions[i].code());
            i += 1;
        }
        Ok(HostRenderGroupInfo {
            shader_name,
            local_id: self.id.encode(),
            vertex_description_types: codes,
        })
    }

    /// Reconstruct a typed descriptor from an incoming host record: read
    /// the shader name back from its nul-terminated bytes, decode the tag,
    /// and decode each vertex-attribute code.  Fails with `NameNotUtf8`
    /// exactly when the name bytes are not UTF-8, and otherwise with
    /// `TagDecode` exactly when the identifier or one of the codes is
    /// outside its declared set.
    pub fn from_host(h: &HostRenderGroupInfo) -> (r: Result<
        RenderGroupInfo<RenderGroupIdType>,
        ConvertError,
    >)
        requires
            h.wf(),
        ensures
            match r {
                Ok(t) => {
                    &&& valid_utf8(host_name_content(h.shader_name@))
                    &&& t.corresponds(*h)
                    &&& t.wf()
                    &&& RenderGroupIdType::tag_at(h.local_id) == Some(t.id)
                    &&& forall|i: int|
                        0 <= i < h.vertex_description_types@.len()
                            ==> attribute_at(h.vertex_description_types@[i]) == Some(
                            t.vertex_descriptions@[i],
                        )
                },
                Err(ConvertError::NameNotUtf8) => !valid_utf8(host_name_content(h.shader_name@)),
                Err(ConvertError::TagDecode) => {
                    &&& valid_utf8(host_name_content(h.shader_name@))
                    &&& (RenderGroupIdType::tag_at(h.local_id) is None || exists|i: int|
                        0 <= i < h.vertex_description_types@.len() && attribute_at(
                            #[trigger] h.vertex_description_types@[i],
                        ) is None)
                },
                Err(ConvertError::NameContainsInteriorNul) => false,
            },
    {
        let shader_name = match host_bytes_to_name(&h.shader_name) {
            Ok(s) => s,
            Err(e) => {
                return Err(e);
            },
        };
        let id = match RenderGroupIdType::decode(h.local_id) {
            Ok(id) => id,
            Err(_) => {
                return Err(ConvertError::TagDecode);
            },
        };
        let mut vertex_descriptions: Vec<VertexAttributeType> = Vec::new();
        let n = h.vertex_description_types.len();
        let mut i: usize = 0;
        while i < n
            invariant
                valid_utf8(host_name_content(h.shader_name@)),
                n == h.vertex_description_types@.len(),
                0 <= i <= n,
                vertex_descriptions@.len() == i,
                forall|j: int|
                    0 <= j < i ==> attribute_at(h.vertex_description_types@[j]) == Some(
                        vertex_descriptions@[j],
                    ),
            decreases n - i,
        {
            let a = match VertexAttributeType::from_code(h.vertex_description_types[i]) {
                Ok(a) => a,
                Err(_) => {
                    proof {
                        assert(attribute_at(h.vertex_description_types@[i as int]) is None);
                    }
                    return Err(ConvertError::TagDecode);
                },
            };
            vertex_descriptions.push(a);
            i += 1;
        }
        proof {
            RenderGroupIdType::lemma_tag_codec(id, h.local_id);
            assert(h.shader_name@ == encode_utf8(shader_name@).push(0u8)) by {
                assert(host_name_content(h.shader_name@).push(0u8) =~= h.shader_name@);
            }
            assert forall|i: int|
                0 <= i < h.vertex_description_types@.len() implies h.vertex_description_types@[i]
                == vertex_descriptions@[i].code_spec() by {
                lemma_vertex_attribute_bijection(
                    vertex_descriptions@[i],
                    h.vertex_description_types@[i],
                );
            }
        }
        Ok(RenderGroupInfo { shader_name, id, vertex_descriptions })
    }

    /// Pointwise equality with a host record: name bytes equal, tag equal,
    /// attribute sequences equal under the code encoding.
    pub fn matches_host(&self, h: &HostRenderGroupInfo) -> (r: bool)
        ensures
            r == self.corresponds(*h),
    {
        let encoded = self.id.encode();
        if encoded != h.local_id {
            proof {
                assert(!self.corresponds(*h));
            }
            return false;
        }
        let n = self.vertex_descriptions.len();
        if h.vertex_description_types.len() != n {
            return false;
        }
        let mut i: usize = 0;
        while i < n
            invariant
                n == self.vertex_descriptions@.len(),
                h.vertex_description_types@.len() == n,
                0 <= i <= n,
                forall|j: int|
                    0 <= j < i ==> h.vertex_description_types@[j]
                        == self.vertex_descriptions@[j].code_spec(),
            decreases n - i,
        {
            if self.vertex_descriptions[i].code() != h.vertex_description_types[i] {
                return false;
            }
            i += 1;
        }
        let bytes = self.shader_name.as_str().as_bytes_vec();
        bytes_match_nul_terminated(&bytes, &h.shader_name)
    }
}

/// Converting an emitter-type descriptor to host form and back yields a
/// descriptor pointwise equal to the original: same name and same
/// identifier.
pub proof fn lemma_emitter_type_round_trip<EmitterTypeId: TagSet>(
    orig: EmitterTypeInfo<EmitterTypeId>,
    h: HostEmitterTypeInfo,
    back: EmitterTypeInfo<EmitterTypeId>,
)
    requires
        orig.corresponds(h),
        back.corresponds(h),
    ensures
        back.name@ == orig.name@,
        back.id == orig.id,
{
    lemma_name_encoding_injective(orig.name@, back.name@);
    EmitterTypeId::lemma_tag_codec(orig.id, 0);
    EmitterTypeId::lemma_tag_codec(back.id, 0);
    assert(EmitterTypeId::tag_at(orig.id.tag_index()) == EmitterTypeId::tag_at(
        back.id.tag_index(),
    ));
}

/// Converting a render-group descriptor to host form and back yields a
/// descriptor pointwise equal to the original: same shader name, same
/// identifier and the same attribute sequence.
pub proof fn lemma_render_group_round_trip<RenderGroupIdType: TagSet>(
    orig: RenderGroupInfo<RenderGroupIdType>,
    h: HostRenderGroupInfo,
    back: RenderGroupInfo<RenderGroupIdType>,
)
    requires
        orig.corresponds(h),
        back.corresponds(h),
    ensures
        back.shader_name@ == orig.shader_name@,
        back.id == orig.id,
        back.vertex_descriptions@ == orig.vertex_descriptions@,
{
    lemma_name_encoding_injective(orig.shader_name@, back.shader_name@);
    RenderGroupIdType::lemma_tag_codec(orig.id, 0);
    RenderGroupIdType::lemma_tag_codec(back.id, 0);
    assert(RenderGroupIdType::tag_at(orig.id.tag_index()) == RenderGroupIdType::tag_at(
        back.id.tag_index(),
    ));
    assert forall|i: int|
        0 <= i < orig.vertex_descriptions@.len() implies orig.vertex_descriptions@[i]
        == back.vertex_descriptions@[i] by {
        lemma_vertex_attribute_bijection(orig.vertex_descriptions@[i], 0);
        lemma_vertex_attribute_bijection(back.vertex_descriptions@[i], 0);
        assert(h.vertex_description_types@[i] == orig.vertex_descriptions@[i].code_spec());
        assert(h.vertex_description_types@[i] == back.vertex_descriptions@[i].code_spec());
        assert(attribute_at(orig.vertex_descriptions@[i].code_spec()) == attribute_at(
            back.vertex_descriptions@[i].code_spec(),
        ));
    }
    assert(back.vertex_descriptions@ =~= orig.vertex_descriptions@);
}

/// Two character sequences with the same nul-terminated UTF-8 encoding are
/// the same sequence.
proof fn lemma_name_encoding_injective(a: Seq<char>, b: Seq<char>)
    requires
        encode_utf8(a).push(0u8) == encode_utf8(b).push(0u8),
    ensures
        a == b,
{
    assert(encode_utf8(a) =~= encode_utf8(b)) by {
        assert(encode_utf8(a).push(0u8).drop_last() =~= encode_utf8(a));
        assert(encode_utf8(b).push(0u8).drop_last() =~= encode_utf8(b));
    }
    vstd::utf8::encode_utf8_decode_utf8(a);
    vstd::utf8::encode_utf8_decode_utf8(b);
}

/// Compare a raw byte string with a nul-terminated host byte string:
/// true exactly when the host bytes are the raw bytes followed by one
/// terminating nul.
fn bytes_match_nul_terminated(raw: &Vec<u8>, terminated: &Vec<u8>) -> (r: bool)
    ensures
        r == (terminated@ == raw@.push(0u8)),
{
    if terminated.len() < 1 || terminated.len() - 1 != raw.len() {
        proof {
            assert(raw@.push(0u8).len() == raw@.len() + 1);
        }
        return false;
    }
    let n = raw.len();
    let mut i: usize = 0;
    while i < n
        invariant
            n == raw@.len(),
            terminated@.len() == n + 1,
            0 <= i <= n,
            forall|j: int| 0 <= j < i ==> terminated@[j] == raw@[j],
        decreases n - i,
    {
        if raw[i] != terminated[i] {
            proof {
                assert(raw@.push(0u8)[i as int] == raw@[i as int]);
            }
            return false;
        }
        i += 1;
    }
    if terminated[n] != 0 {
        proof {
            assert(raw@.push(0u8)[n as int] == 0u8);
        }
        return false;
    }
    proof {
        assert(terminated@ =~= raw@.push(0u8));
    }
    true
}

} // verus!
