// Core of a terminal audio player: the playback controller, the seek rules, the search
// filter, and the bookkeeping of the streaming and spectrum-analysis pipeline.
pub mod app;
pub mod cursor;
pub mod pipeline;
pub mod queue;
pub mod search;
pub mod seek;
