//! Rendering and change tracking for the resource cards of a traffic
//! management console.
pub mod card;
pub mod gatearmarray;
pub mod item;
pub mod patch;
pub mod rampmeter;
pub mod resource;
pub mod role;
pub mod text;
pub mod user;
pub mod view;
