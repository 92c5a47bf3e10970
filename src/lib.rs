pub mod extract;
pub mod record;
pub mod journal;
pub mod forward;
pub mod pipeline;
pub mod pattern;
