//! Transport layer for an ATECC-family secure element.
//!
//! The device speaks over one of two physical media, chosen when the
//! transport is opened: plain I2C, or its native single wire interface
//! (SWI) emulated over a UART.  This crate holds the protocol logic of
//! that layer — the SWI bit-per-byte codec, the length-prefixed I2C read
//! with its bounded retries, the SWI poll protocol, and the wake and
//! sleep sequences — as verified code.  The physical port calls, and the
//! blocking delays between them, are carried out by the embedding
//! program, which follows the action plans and state machines published
//! here.

pub mod action;
pub mod codec;
pub mod error;
pub mod i2c;
pub mod swi;
pub mod transport;
