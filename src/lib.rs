//! Topic addressing for the hermes voice-assistant bus: typed topic
//! identifiers and their slash-delimited wire paths.

pub mod decode;
pub mod laws;
pub mod path;
pub mod ontology;
pub mod topics;
