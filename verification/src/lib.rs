//! A compiler core for an Avro-IDL-like protocol definition language, plus
//! the pure data shapes and request builders of a Keybase chat-bot client.
//!
//! The compiler reads one protocol source file (imports, typedefs, enums,
//! fixed-size byte arrays, records and switch-style variants), models it as
//! typed declarations, and renders equivalent Rust type declarations, in
//! source order.  Every stage carries a contract over a ghost model of the
//! text it consumes or produces.

use vstd::prelude::*;

pub mod api;
pub mod bot;
pub mod chat;
pub mod driver;
pub mod emit;
pub mod laws;
pub mod lit;
pub mod mapper;
pub mod model;
pub mod parse;
pub mod scan;
pub mod util;

pub use api::{APIResult, KBError, StatusRes};
pub use chat::{APIRPC, ChannelParams, OptionsOnly, ReadConvParams};
pub use driver::compile;
pub use model::{CompileError, Declaration, EmitConfig, ProtocolFile, TypeExpr};
pub use parse::parse_protocol;
