//! Decision logic of a voice-channel bot: splitting the members of a channel
//! into balanced teams, and the move-and-wait cycle that juggles a user
//! between two voice channels.

pub mod teams;
pub mod render;
pub mod juggle;
