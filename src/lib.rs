//! Interactive navigation for a map and simulation viewer: jumping the camera
//! and selection to an entity named by a short locator, and locking the camera
//! onto a simulated agent's trip.
pub mod geometry;
pub mod ids;
pub mod world;
pub mod ui;
pub mod locator;
pub mod warp;
pub mod agent;
