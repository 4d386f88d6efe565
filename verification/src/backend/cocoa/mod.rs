//! The host side of input: what the native event carries, translated
//! into what the seat sends.

pub mod input;

pub use input::InputTranslator;
