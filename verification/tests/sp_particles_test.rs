//! Conversions between typed descriptors and the host's record shapes.

use sapiens_rs::sp::host::{ConvertError, HostEmitterTypeInfo, HostRenderGroupInfo};
use sapiens_rs::sp::particles::{EmitterTypeInfo, RenderGroupInfo, VertexAttributeType};
use sapiens_rs::tags::TagSet;
use sapiens_rs::usermod::particles::{EmitterType, RenderGroup};

#[test]
fn test_render_group_info_from_sp() {
    let sp_render_group = HostRenderGroupInfo {
        shader_name: b"fire\0".to_vec(),
        local_id: RenderGroup::Fire.encode(),
        vertex_description_types: vec![
            VertexAttributeType::Vec3.code(),
            VertexAttributeType::Vec2.code(),
            VertexAttributeType::Vec4.code(),
        ],
    };

    let render_group: RenderGroupInfo<RenderGroup> =
        RenderGroupInfo::from_host(&sp_render_group).unwrap();

    assert_eq!(render_group.shader_name, "fire");
    assert_eq!(render_group.id, RenderGroup::Fire);
    assert_eq!(render_group.vertex_descriptions.len(), 3);
    assert_eq!(render_group.vertex_descriptions[0], VertexAttributeType::Vec3);
    assert_eq!(render_group.vertex_descriptions[1], VertexAttributeType::Vec2);
    assert_eq!(render_group.vertex_descriptions[2], VertexAttributeType::Vec4);
}

#[test]
fn test_sp_particle_render_group_info_from_rs() {
    let render_group = RenderGroupInfo {
        shader_name: "fire".to_string(),
        id: RenderGroup::Fire,
        vertex_descriptions: vec![
            VertexAttributeType::Vec3,
            VertexAttributeType::Vec2,
            VertexAttributeType::Vec4,
        ],
    };

    let sp_render_group: HostRenderGroupInfo = render_group.to_host().unwrap();

    assert_eq!(sp_render_group.shader_name, b"fire\0".to_vec());
    assert_eq!(sp_render_group.local_id, 1);
    assert_eq!(sp_render_group.vertex_description_types.len(), 3);
    assert_eq!(
        sp_render_group.vertex_description_types[0],
        VertexAttributeType::Vec3.code(),
    );
    assert_eq!(
        sp_render_group.vertex_description_types[1],
        VertexAttributeType::Vec2.code(),
    );
    assert_eq!(
        sp_render_group.vertex_description_types[2],
        VertexAttributeType::Vec4.code(),
    );
}

#[test]
fn test_emitter_type_info_from_sp() {
    let sp_emitter_type_info = HostEmitterTypeInfo {
        name: b"campfire\0".to_vec(),
        local_id: EmitterType::Campfire.encode(),
    };

    let emitter_type_info: EmitterTypeInfo<EmitterType> =
        EmitterTypeInfo::from_host(&sp_emitter_type_info).unwrap();

    assert_eq!(emitter_type_info.name, "campfire".to_string());
    assert_eq!(emitter_type_info.id, EmitterType::Campfire);
}

#[test]
fn test_sp_emitter_type_info_from_rs() {
    let emitter_type_info = EmitterTypeInfo {
        name: "campfire".to_string(),
        id: EmitterType::Campfire,
    };

    let sp_emitter_type_info: HostEmitterTypeInfo = emitter_type_info.to_host().unwrap();

    assert_eq!(sp_emitter_type_info.name, b"campfire\0".to_vec());
    assert_eq!(sp_emitter_type_info.local_id, 0);
}

#[test]
fn render_group_round_trip() {
    let orig = RenderGroupInfo {
        shader_name: "sparkShader".to_string(),
        id: RenderGroup::Spark,
        vertex_descriptions: vec![VertexAttributeType::Float, VertexAttributeType::Vec4],
    };
    let host = orig.to_host().unwrap();
    let back: RenderGroupInfo<RenderGroup> = RenderGroupInfo::from_host(&host).unwrap();

    assert_eq!(back.shader_name, orig.shader_name);
    assert_eq!(back.id, orig.id);
    assert_eq!(back.vertex_descriptions, orig.vertex_descriptions);
    assert!(back.matches_host(&host));
    assert!(orig.matches_host(&host));
}

#[test]
fn emitter_type_round_trip() {
    let orig = EmitterTypeInfo { name: "feathers".to_string(), id: EmitterType::Feathers };
    let host = orig.to_host().unwrap();
    let back: EmitterTypeInfo<EmitterType> = EmitterTypeInfo::from_host(&host).unwrap();

    assert_eq!(back.name, orig.name);
    assert_eq!(back.id, orig.id);
    assert!(back.matches_host(&host));
}

#[test]
fn empty_attribute_sequence_round_trips() {
    let orig = RenderGroupInfo {
        shader_name: "bare".to_string(),
        id: RenderGroup::Standard,
        vertex_descriptions: vec![],
    };
    let host = orig.to_host().unwrap();
    assert_eq!(host.vertex_description_types.len(), 0);

    let back: RenderGroupInfo<RenderGroup> = RenderGroupInfo::from_host(&host).unwrap();
    assert_eq!(back.vertex_descriptions.len(), 0);
    assert_eq!(back.shader_name, "bare");
    assert!(back.matches_host(&host));
}

#[test]
fn name_with_interior_nul_is_rejected() {
    let emitter = EmitterTypeInfo {
        name: "camp\0fire".to_string(),
        id: EmitterType::Campfire,
    };
    assert_eq!(emitter.to_host().unwrap_err(), ConvertError::NameContainsInteriorNul);

    let group = RenderGroupInfo {
        shader_name: "spark\0".to_string(),
        id: RenderGroup::Spark,
        vertex_descriptions: vec![],
    };
    assert_eq!(group.to_host().unwrap_err(), ConvertError::NameContainsInteriorNul);
}

#[test]
fn host_name_not_utf8_is_rejected() {
    let host = HostEmitterTypeInfo { name: vec![0xff, 0xfe, 0x00], local_id: 0 };
    let r: Result<EmitterTypeInfo<EmitterType>, ConvertError> = EmitterTypeInfo::from_host(&host);
    assert_eq!(r.unwrap_err(), ConvertError::NameNotUtf8);
}

#[test]
fn host_unknown_tag_is_rejected() {
    let host = HostEmitterTypeInfo { name: b"campfire\0".to_vec(), local_id: 99 };
    let r: Result<EmitterTypeInfo<EmitterType>, ConvertError> = EmitterTypeInfo::from_host(&host);
    assert_eq!(r.unwrap_err(), ConvertError::TagDecode);
}

#[test]
fn bad_name_is_reported_before_bad_tag() {
    let host = HostEmitterTypeInfo { name: vec![0xff, 0x00], local_id: 99 };
    let r: Result<EmitterTypeInfo<EmitterType>, ConvertError> = EmitterTypeInfo::from_host(&host);
    assert_eq!(r.unwrap_err(), ConvertError::NameNotUtf8);
}

#[test]
fn host_unknown_vertex_code_is_rejected() {
    let host = HostRenderGroupInfo {
        shader_name: b"fire\0".to_vec(),
        local_id: 1,
        vertex_description_types: vec![2, 7, 3],
    };
    let r: Result<RenderGroupInfo<RenderGroup>, ConvertError> = RenderGroupInfo::from_host(&host);
    assert_eq!(r.unwrap_err(), ConvertError::TagDecode);
}

#[test]
fn vertex_attribute_codes_are_a_bijection() {
    let kinds = [
        VertexAttributeType::Float,
        VertexAttributeType::Vec2,
        VertexAttributeType::Vec3,
        VertexAttributeType::Vec4,
    ];
    let codes = [0, 1, 2, 3];
    for i in 0..4 {
        assert_eq!(kinds[i].code(), codes[i]);
        assert_eq!(VertexAttributeType::from_code(codes[i]).unwrap(), kinds[i]);
    }
    assert_eq!(
        VertexAttributeType::from_code(4).unwrap_err(),
        ConvertError::TagDecode,
    );
    assert_eq!(
        VertexAttributeType::from_code(-1).unwrap_err(),
        ConvertError::TagDecode,
    );
}

#[test]
fn matches_host_detects_differences() {
    let emitter = EmitterTypeInfo { name: "campfire".to_string(), id: EmitterType::Campfire };
    let other_name = HostEmitterTypeInfo { name: b"campsite\0".to_vec(), local_id: 0 };
    let other_id = HostEmitterTypeInfo { name: b"campfire\0".to_vec(), local_id: 1 };
    let missing_nul = HostEmitterTypeInfo { name: b"campfire".to_vec(), local_id: 0 };
    assert!(!emitter.matches_host(&other_name));
    assert!(!emitter.matches_host(&other_id));
    assert!(!emitter.matches_host(&missing_nul));

    let group = RenderGroupInfo {
        shader_name: "spark".to_string(),
        id: RenderGroup::Spark,
        vertex_descriptions: vec![VertexAttributeType::Vec2],
    };
    let host = group.to_host().unwrap();
    assert!(group.matches_host(&host));
    let other_codes = HostRenderGroupInfo {
        shader_name: b"spark\0".to_vec(),
        local_id: 3,
        vertex_description_types: vec![2],
    };
    assert!(!group.matches_host(&other_codes));
}
