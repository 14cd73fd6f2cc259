//! Ready-made passes. Each builds its pass's node; the callback that
//! records the pass's commands is the caller's.

pub mod blit;
pub mod blur;
pub mod clear;
pub mod imgui_draw;
pub mod shadow;
