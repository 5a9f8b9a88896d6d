//! The AI features' shared logic: the HTTP seam, reading the JSON object out
//! of a model's reply, and the status check on the Messages API's answer.

pub mod reply;
pub mod shownotes;
