//! The entity classes.
pub mod branch;
pub mod brush;
pub mod button;
pub mod case;
pub mod chamber_door;
pub mod cube;
pub mod declared;
pub mod door;
pub mod dynamic_prop;
pub mod env;
pub mod filter;
pub mod floor_button;
pub mod light;
pub mod logic;
pub mod movelinear;
pub mod player;
pub mod point;
pub mod portal;
pub mod rotating;
pub mod sky;
pub mod still;
pub mod tables;
pub mod trigger;
pub mod trigger_kinds;
pub mod world;
