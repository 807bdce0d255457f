//! The mind of a bot that joins a block game server, says things in the chat,
//! swings its arms, walks about, looks around and falls.
//!
//! The library decides; it does not do.  A [`client::Client`] is plain data.
//! What comes in from the network, from the clock, from luck and from the
//! floating point unit is handed to its methods as plain values, and what is to
//! be sent or done is handed back as plain values:
//!
//! - [`receive`]: packets from the server;
//! - [`tick`]: what a bot does on its own;
//! - [`client`]: joining, chatting, dying, sending and closing;
//! - [`crypt`]: the answer to a server that asks for encryption;
//! - [`wire`]: bytes; [`packet`]: packets; [`float`] and [`term`]: numbers;
//! - [`naming`] and [`args`]: the names of the bots and the settings of a run;
//! - [`outcomes`] and [`meaning`]: what each operation and each value comes to;
//! - [`laws`], [`motion`], [`course`] and [`habits`]: what holds of all this.

pub mod args;
pub mod client;
pub mod course;
pub mod crypt;
pub mod float;
pub mod habits;
pub mod laws;
pub mod meaning;
pub mod motion;
pub mod naming;
pub mod outcomes;
pub mod packet;
pub mod random;
pub mod receive;
pub mod term;
pub mod tick;
pub mod wire;
