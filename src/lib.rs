//! The verified core of a real-time demo that draws animated sine-wave rings
//! on a GPU surface: buffer layouts, the boundary quad, the wave slots of the
//! control panel, surface configuration and the window event decisions.
pub mod events;
pub mod layout;
pub mod quad;
pub mod slots;
pub mod surface;
