pub mod attribute;
pub mod attribute_manager;
pub mod block_registry;
pub mod collision;
pub mod command;
pub mod data;
pub mod entity;
pub mod facing;
pub mod fluid;
pub mod geometry;
pub mod motion;
pub mod protocol;
