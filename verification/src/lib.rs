//! Client-side logic of the FANUC RMI web application: robot models, HMI
//! I/O types, the packet and response bookkeeping of the WebSocket client,
//! and the state that the client keeps from server events.

pub mod text;
pub mod robot_models;
pub mod hmi;
pub mod packets;
pub mod console;
pub mod dto;
pub mod wizard;
pub mod composer;
pub mod messages;
pub mod client;
pub mod csv;
pub mod robot_settings;
pub mod hmi_sync;
pub mod program_view;
pub mod frame_tool;
