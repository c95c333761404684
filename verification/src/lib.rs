//! Small helpers for handling data: bits and bytes, hexadecimal and base58 text, raw
//! bytes of values, timestamps, and cells that keep secrets out of sight.
//!
//! Each function states what it returns in terms of sequences, integers and the views of
//! the types.

pub mod bit;
pub mod byte_array;
pub mod convert;
pub mod decimal;
pub mod encoding;
pub mod epoch_time;
pub mod extend_bytes;
pub mod hex;
pub mod hidden;
pub mod password;
pub mod safe_array;
pub mod serde;
pub mod string_specs;

pub use self::byte_array::{ByteArray, ByteArrayError};
pub use self::hidden::Hidden;
pub use self::password::SafePassword;
