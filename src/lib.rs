//! Translate a text and speak the translation: the decisions of the
//! translate / pick a voice / synthesize / write pipeline, with their contracts.
//! The services and the file are driven from outside, one `Action` at a time.
pub mod error;
pub mod language;
pub mod pipeline;
pub mod run;
pub mod voice;

pub use error::{Error, ErrorKind};
pub use pipeline::{Action, Event, Pipeline, Request, Stage};
pub use voice::{Engine, Gender, VoiceDescriptor};
