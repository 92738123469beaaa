//! Weather lookup for a free-text address through one of several providers:
//! the command grammar, the credential store, the normalisation of provider
//! payloads into forecast records, and the choice of the record nearest to a
//! requested time.

pub mod credential;
pub mod geo;
pub mod help;
pub mod init;
pub mod json;
pub mod number;
pub mod provider;
pub mod select;
pub mod text;
pub mod time;
pub mod wind;
pub mod work;
