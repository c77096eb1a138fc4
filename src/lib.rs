//! Locomotion control for an immersive session: grabbing and dragging moves
//! the user through space, through one of several movement backends.
pub mod input;
pub mod mode_button;
pub mod monado_movement;
pub mod object_set;
pub mod reparentable_movement;
pub mod solar_sailer;
pub mod vector;
pub mod velocity;
pub mod zone_movement;
