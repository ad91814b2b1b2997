//! Laws: what holds of the classes across calls.
pub mod asked;
pub mod filters;
pub mod logic;
pub mod lookups;
pub mod marks;
pub mod movers;
pub mod names;
pub mod numbered;
pub mod outputs;
pub mod portals;
pub mod props;
pub mod shuffle;
pub mod table;
pub mod triggers;
pub mod wellformed;
