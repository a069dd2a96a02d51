//! The parts every shell needs: surface context, host events, GUI texture
//! registry and geometry.

pub mod event_loop;
pub mod gui_state;
pub mod setup;
pub mod vertex_package;
