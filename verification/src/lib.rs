//! The decisions of a manager of Factorio servers, verified: where the
//! artifacts of the cache lie and who fetches them, how an instance is
//! built from them and launched, how the status of a running engine follows
//! its log, and how its files are kept when it is gone. Reading and writing
//! the disk, the web and the process table are the caller's; this crate says
//! what to read and what to do with it.

pub mod cache;
pub mod compose;
pub mod credentials;
pub mod data;
pub mod download;
pub mod error;
pub mod factorio_tracker;
pub mod factorio_version;
pub mod in_flight;
pub mod instance;
pub mod manager;
pub mod mod_list;
pub mod mod_portal;
pub mod paths;
pub mod platform;
pub mod text;
pub mod utilities;
pub mod version;
pub mod versions;
