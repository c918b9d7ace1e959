//! Splitting of an outbound TLS ClientHello record into two TLS records.
//!
//! A middlebox that matches the plaintext server name, or the shape of a
//! handshake, inside a single segment sees neither once the record that
//! carries the ClientHello leaves as two records. The server's record layer
//! joins handshake fragments of one content type again, so the handshake
//! itself is unchanged.
//!
//! The modules, leaves first:
//!
//! * [`reader`]: bounds-checked reads of record fields from a byte buffer;
//! * [`hello`]: does a buffer begin a ClientHello record;
//! * [`sni`]: the middle of the host name in the `server_name` extension;
//! * [`splitter`]: the cut itself, two records out of one;
//! * [`detour`]: the write state machine that sends the two records through
//!   a sink that may not be ready.

pub mod detour;
pub mod hello;
pub mod reader;
pub mod sni;
pub mod splitter;

pub use detour::{Detour, DetourState, Outcome, Reply, WriteStep};
pub use hello::is_hello;
pub use reader::{skip_u16_prefixed, skip_u8_prefixed, u16_at, u8_at};
pub use sni::find_sni;
pub use splitter::{choose_split, fragmentate, split};
