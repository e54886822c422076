pub mod emitter;

pub use emitter::{AppEvent, EventEmitter};
