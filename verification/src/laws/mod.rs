//! What holds of whole conversations.

pub mod beginning;
pub mod composing;
pub mod ending;
pub mod history;
pub mod looping;
pub mod merging;
pub mod remembering;
pub mod repeating;
pub mod testing;
pub mod views;
pub mod waiting;
pub mod wording;
