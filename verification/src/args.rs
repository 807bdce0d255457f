//! The settings of a run.

use vstd::prelude::*;

verus! {

/// The settings of a run.
#[derive(Debug)]
pub struct Args {
    /// The address to connect to.
    pub ip: String,
    /// How many bots join.
    pub count: u32,
    /// Milliseconds to wait before each bot joins.
    pub delay: u64,
    /// Milliseconds after which an attempt to connect is given up.
    pub timeout: u64,
    /// What to say in the chat, over and over.
    pub spam_message: Option<String>,
    /// The fewest ticks between two chat messages.
    pub spam_message_delay_min: u32,
    /// One more than the most ticks between two chat messages.
    pub spam_message_delay_max: u32,
    /// Whether bots look around.
    pub enable_rotation: bool,
    /// Whether bots swing their arms.
    pub enable_swing: bool,
    /// Whether bots walk about.
    pub enable_movement: bool,
    /// Whether walking bots jump.
    pub enable_jumping: bool,
    /// Whether bots fall and slow down.
    pub enable_physics: bool,
}

} // verus!
