//! On-chain entry point that mints one non-fungible token through a fixed
//! sequence of cross-program calls.
//!
//! The crate is built in layers.
//!
//! * `address`, `error` and `account` hold the plain values that the program
//!   reasons about.
//! * `instruction` is the wire format of the program's own instruction, with
//!   its round-trip laws; `text` holds what it needs of UTF-8 and of decimal
//!   notation.
//! * `cpi` and `request` describe the calls that the program hands to the
//!   runtime: a request is plain data, an instruction is what the called
//!   program's builder makes of it.
//! * `pipeline` runs a planned sequence of requests and reports what was
//!   handed over and where it stopped.
//! * `runtime` is the narrow border to the host. Nothing behind it is proved;
//!   each item says what is taken on trust.
//! * `utils` and `processor` hold the validators, the helper pipelines and
//!   the mint pipeline with the entry point.
pub mod account;
pub mod address;
pub mod cpi;
pub mod error;
pub mod instruction;
pub mod pipeline;
pub mod processor;
pub mod request;
pub mod runtime;
pub mod text;
pub mod utils;
