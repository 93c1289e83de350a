//! Game rules of The Seeker: player state machines, skill timing, weapon tuning,
//! inventory layout and UI decisions, written over plain values.

pub mod console;
pub mod dof;
pub mod flicker;
pub mod gamestate;
pub mod hud;
pub mod inventory;
pub mod level;
pub mod locale;
pub mod locomotion;
pub mod motion_tables;
pub mod skill_id;
pub mod skill_slots;
pub mod skills;
pub mod state_registry;
pub mod stats;
pub mod stepping;
pub mod switches;
pub mod text;
pub mod toolbar;
pub mod visibility;
pub mod weapon;
