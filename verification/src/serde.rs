//! What is handed to a serializer, and what is made of what a deserializer hands back.

pub mod hex;
