use vstd::prelude::*;

verus! {

/// Pages of the audio editor.
#[derive(Clone, Copy, Debug, PartialEq, Eq, Structural)]
pub enum AudioEditorMode {
    Instrument,
    Sfx,
    Songs,
    Chains,
    Patterns,
}

/// Pages of the graphics editor.
#[derive(Clone, Copy, Debug, PartialEq, Eq, Structural)]
pub enum GraphicsEditorMode {
    Palette,
    SpriteSheet,
    Sprite,
}

/// Smallest sprite scale.
pub const MIN_SCALE: usize = 1;

/// Largest sprite scale.
pub const MAX_SCALE: usize = 100;

/// The graphics editor's page and sprite scale.
#[derive(Clone, Copy, Debug, PartialEq, Eq, Structural)]
pub struct GraphicsEditor {
    pub mode: GraphicsEditorMode,
    pub scale: usize,
}

impl GraphicsEditor {
    /// Opens on the palettes at scale 1.
    pub fn new() -> (r: Self)
        ensures
            r == (GraphicsEditor { mode: GraphicsEditorMode::Palette, scale: 1 }),
    {
        GraphicsEditor { mode: GraphicsEditorMode::Palette, scale: 1 }
    }

    /// Sets the sprite scale, held within `MIN_SCALE..=MAX_SCALE`.
    pub fn set_scale(&mut self, scale: usize)
        ensures
            final(self).mode == old(self).mode,
            final(self).scale == (if scale < MIN_SCALE {
                MIN_SCALE
            } else if scale > MAX_SCALE {
                MAX_SCALE
            } else {
                scale
            }),
    {
        self.scale = if scale < MIN_SCALE {
            MIN_SCALE
        } else if scale > MAX_SCALE {
            MAX_SCALE
        } else {
            scale
        };
    }
}

impl Default for GraphicsEditor {
    fn default() -> (r: Self)
        ensures
            r == (GraphicsEditor { mode: GraphicsEditorMode::Palette, scale: 1 }),
    {
        GraphicsEditor::new()
    }
}

/// Names of the cartridge memories and mutable globals a save state holds.
#[derive(Clone, Debug)]
pub struct SaveStateDefinition {
    pub memories: Vec<String>,
    pub mutable_globals: Vec<String>,
}

/// The sound part of a console ROM.
#[derive(Clone, Copy, Debug, PartialEq, Eq, Structural)]
pub struct Sounds {}

} // verus!
