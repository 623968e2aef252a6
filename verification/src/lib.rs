//! The rules of a top-down action roguelite, free of any engine.
//!
//! The player walks through linked rooms, fights melee and ranged enemies and
//! gathers skill experience that is carried from one cycle to the next. The
//! crate holds the ledgers and state machines behind that loop: the skill
//! ledger, the save record, the per-cycle cache of room layouts, the room
//! transition and the enemy alert machine. An engine binding feeds it
//! collisions, timer expiries and random numbers, and carries out what it
//! decides.

pub mod numeric;

pub mod save_data;
pub mod skills;
pub mod audio;
pub mod cycles;
pub mod geometry;
pub mod rand;
pub mod enemy;
pub mod room;
pub mod player;
pub mod states;
pub mod physics;
pub mod damage;
pub mod projectiles;
pub mod assets;
pub mod camera;
pub mod healthbars;
pub mod menus;
pub mod util;
pub mod text;
