//! Keyboard event translation: modifier reconciliation, dead-key
//! composition, layout tables and a compact wire format for key events.

pub mod codec;
pub mod deadkey;
pub mod event;
pub mod laws;
pub mod layout;
pub mod listener;
pub mod modtext;
pub mod phys;
pub mod simulator;
pub mod types;
pub mod winkeys;
