pub mod algorithm;
pub mod oscillator;
pub mod envelope;
pub mod wavetable;
pub mod pipeline;
pub mod fm;
pub mod voice;
pub mod engine;
pub mod editor;
pub mod rollback;
