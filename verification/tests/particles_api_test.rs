//! The exported entry points of the example plugin: counts, list buffers,
//! and the per-callback trampolines.

use sapiens_rs::entry::{emitter_was_added_entry, update_emitter_entry, update_particle_entry};
use sapiens_rs::tags::{TagDecodeError, TagSet};
use sapiens_rs::usermod::particles::{
    get_emitter_types, get_render_group_types, sp_get_emitter_types, sp_get_emitter_types_count,
    sp_get_render_group_types, sp_get_render_group_types_count, EmitterType, RenderGroup,
    VanillaEmitterType,
};

#[test]
fn test_emitter_types_count() {
    let emitter_types_count = get_emitter_types().len() as i32;
    let ffi_emitter_types_count = sp_get_emitter_types_count();

    assert_eq!(emitter_types_count, ffi_emitter_types_count);
}

#[test]
fn test_get_emitter_types() {
    let emitters = get_emitter_types();
    let ffi_emitters = sp_get_emitter_types();

    assert_eq!(emitters.len(), ffi_emitters.len());
    for i in 0..emitters.len() {
        assert!(emitters[i].matches_host(&ffi_emitters[i]));
    }
}

#[test]
fn test_render_group_types_count() {
    let render_group_types_count = get_render_group_types().len() as i32;
    let ffi_render_group_types_count = sp_get_render_group_types_count();

    assert_eq!(render_group_types_count, ffi_render_group_types_count);
}

#[test]
fn test_get_render_group_types() {
    let render_types = get_render_group_types();
    let ffi_render_types = sp_get_render_group_types();

    assert_eq!(render_types.len(), ffi_render_types.len());
    for i in 0..render_types.len() {
        assert!(render_types[i].matches_host(&ffi_render_types[i]));
    }
}

#[test]
fn emitter_type_list_host_bytes() {
    assert_eq!(sp_get_emitter_types_count(), 3);

    let buf = sp_get_emitter_types();
    assert_eq!(buf.len(), 3);
    assert_eq!(buf[0].name, b"campfire\0".to_vec());
    assert_eq!(buf[0].local_id, 0);
    assert_eq!(buf[1].name, b"woodChop\0".to_vec());
    assert_eq!(buf[1].local_id, 1);
    assert_eq!(buf[2].name, b"feathers\0".to_vec());
    assert_eq!(buf[2].local_id, 2);
}

#[test]
fn render_group_list_host_records() {
    assert_eq!(sp_get_render_group_types_count(), 4);

    let buf = sp_get_render_group_types();
    assert_eq!(buf.len(), 4);
    let expected_names: [&[u8]; 4] = [
        b"smokeParticle\0",
        b"fireParticle\0",
        b"particle\0",
        b"spark\0",
    ];
    for i in 0..4 {
        assert_eq!(buf[i].shader_name, expected_names[i].to_vec());
        assert_eq!(buf[i].local_id, i as u32);
        // the host codes for (Vec3, Vec2, Vec4)
        assert_eq!(buf[i].vertex_description_types, vec![2, 1, 3]);
    }
}

#[test]
fn count_entry_matches_list_entry_length() {
    assert_eq!(sp_get_emitter_types_count() as usize, sp_get_emitter_types().len());
    assert_eq!(
        sp_get_render_group_types_count() as usize,
        sp_get_render_group_types().len(),
    );
}

#[test]
fn emitter_was_added_woodchop_adds_particles() {
    let mut observed: Option<VanillaEmitterType> = None;
    let mut add_calls: Vec<u32> = Vec::new();

    let r = emitter_was_added_entry::<VanillaEmitterType, _>(1, |tag| {
        observed = Some(tag);
        for _ in 0..32 {
            // what the add-particle capability hands the host for the
            // standard render group
            add_calls.push(RenderGroup::Standard.encode());
        }
        true
    });

    assert_eq!(r, Ok(true));
    assert_eq!(observed, Some(VanillaEmitterType::WoodChop));
    assert_eq!(add_calls.len(), 32);
    assert!(add_calls.iter().all(|&c| c == 2));
}

#[test]
fn emitter_was_added_unknown_tag_fails() {
    let mut add_calls: u32 = 0;

    let r = emitter_was_added_entry::<VanillaEmitterType, _>(99, |_tag| {
        add_calls += 1;
        true
    });

    assert_eq!(r, Err(TagDecodeError));
    assert_eq!(add_calls, 0);
}

#[test]
fn update_particle_smoke_expires() {
    let mut life_left: f64 = 0.005;
    let delta_time: f64 = 1.0 / 60.0;
    let mut observed: Option<RenderGroup> = None;

    let r = update_particle_entry::<RenderGroup, _>(0, |tag| {
        observed = Some(tag);
        life_left -= delta_time;
        life_left > 0.0
    });

    assert_eq!(r, Ok(false));
    assert_eq!(observed, Some(RenderGroup::Smoke));
    assert!(life_left < 0.0);
}

#[test]
fn update_particle_unknown_render_group_fails() {
    let r = update_particle_entry::<RenderGroup, _>(17, |_tag| true);
    assert_eq!(r, Err(TagDecodeError));
}

#[test]
fn update_emitter_decodes_tag() {
    let mut observed: Option<EmitterType> = None;

    let r = update_emitter_entry::<EmitterType, _>(0, |tag| {
        observed = Some(tag);
    });

    assert_eq!(r, Ok(()));
    assert_eq!(observed, Some(EmitterType::Campfire));
}

#[test]
fn update_emitter_unknown_tag_fails() {
    let mut calls: u32 = 0;
    let r = update_emitter_entry::<EmitterType, _>(4, |_tag| {
        calls += 1;
    });
    assert_eq!(r, Err(TagDecodeError));
    assert_eq!(calls, 0);
}

#[test]
fn tag_round_trip() {
    assert_eq!(VanillaEmitterType::Campfire.encode(), 0);
    assert_eq!(VanillaEmitterType::WoodChop.encode(), 1);
    assert_eq!(VanillaEmitterType::Feathers.encode(), 2);
    assert_eq!(VanillaEmitterType::decode(2), Ok(VanillaEmitterType::Feathers));
    assert_eq!(VanillaEmitterType::decode(3), Err(TagDecodeError));
}

#[test]
fn declared_tag_sets_round_trip() {
    for id in 0..4u32 {
        let t = EmitterType::decode(id).unwrap();
        assert_eq!(t.encode(), id);
    }
    assert_eq!(EmitterType::decode(4), Err(TagDecodeError));
    assert_eq!(EmitterType::decode(99), Err(TagDecodeError));

    for id in 0..4u32 {
        let g = RenderGroup::decode(id).unwrap();
        assert_eq!(g.encode(), id);
    }
    assert_eq!(RenderGroup::decode(4), Err(TagDecodeError));
}
