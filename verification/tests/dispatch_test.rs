//! The dispatch table: recognized handler names and their host symbols.

use sapiens_rs::dispatch::{host_symbol_name, recognize_export, HookKind, UnknownExportName};

#[test]
fn recognized_handler_names() {
    let table = [
        ("get_emitter_types_count", HookKind::GetEmitterTypesCount, "spGetEmitterTypesCount"),
        ("get_emitter_types", HookKind::GetEmitterTypes, "spGetEmitterTypes"),
        (
            "get_render_group_types_count",
            HookKind::GetRenderGroupTypesCount,
            "spGetRenderGroupTypesCount",
        ),
        ("get_render_group_types", HookKind::GetRenderGroupTypes, "spGetRenderGroupTypes"),
        ("emitter_was_added", HookKind::EmitterWasAdded, "spEmitterWasAdded"),
        ("update_emitter", HookKind::UpdateEmitter, "spUpdateEmitter"),
        ("update_particle", HookKind::UpdateParticle, "spUpdateParticle"),
    ];
    for (handler, kind, symbol) in table {
        assert_eq!(recognize_export(handler), Ok(kind));
        assert_eq!(host_symbol_name(kind), symbol);
    }
}

#[test]
fn unknown_export_name_is_rejected() {
    assert_eq!(recognize_export("get_emitter_type"), Err(UnknownExportName));
    assert_eq!(recognize_export(""), Err(UnknownExportName));
    assert_eq!(recognize_export("spGetEmitterTypes"), Err(UnknownExportName));
    assert_eq!(recognize_export("make_coffee"), Err(UnknownExportName));
}
