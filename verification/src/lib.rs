//! Shared wire format for proxying service requests across the trust
//! boundary between a deprivileged guest kernel and its untrusted host.
//!
//! The guest cannot make system calls directly. Instead it marshals a call
//! into a fixed-layout [`Request`], hands the page-sized [`Block`] holding it
//! to the host, and reads the outcome back out of the same storage as a
//! [`Reply`]. Every field that crosses the boundary is a register-width
//! scalar ([`Register`]), so the layout is the same on both sides.

mod proxy;
mod register;

pub use proxy::decode_reply;
pub use proxy::encode_err;
pub use proxy::encode_ok;
pub use proxy::encode_result;
pub use proxy::errno_word;
pub use proxy::is_error_word;
pub use proxy::lemma_err_round_trip;
pub use proxy::lemma_ok_round_trip;
pub use proxy::result_words;
pub use proxy::Block;
pub use proxy::Message;
pub use proxy::Reply;
pub use proxy::Request;
pub use proxy::BUF_CAPACITY;
pub use proxy::MESSAGE_SIZE;
pub use proxy::PAGE_SIZE;
pub use proxy::WORD_SIZE;
pub use register::Register;
