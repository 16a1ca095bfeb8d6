use gamercade_audio::editor::{
    AudioEditorMode, GraphicsEditor, GraphicsEditorMode, SaveStateDefinition, Sounds, MAX_SCALE,
};

#[test]
fn graphics_editor_opens_on_palettes() {
    let e = GraphicsEditor::default();
    assert_eq!(e.mode, GraphicsEditorMode::Palette);
    assert_eq!(e.scale, 1);
    assert_eq!(GraphicsEditor::new(), e);
}

#[test]
fn sprite_scale_is_held_in_range() {
    let mut e = GraphicsEditor::new();
    e.set_scale(0);
    assert_eq!(e.scale, 1);
    e.set_scale(250);
    assert_eq!(e.scale, MAX_SCALE);
    e.set_scale(42);
    assert_eq!(e.scale, 42);
    assert_eq!(e.mode, GraphicsEditorMode::Palette);
}

#[test]
fn plain_editor_values() {
    assert_ne!(AudioEditorMode::Instrument, AudioEditorMode::Sfx);
    assert_eq!(Sounds {}, Sounds {});
    let s = SaveStateDefinition { memories: vec!["memory".to_string()], mutable_globals: vec![] };
    assert_eq!(s.memories.len(), 1);
    assert!(s.mutable_globals.is_empty());
}
