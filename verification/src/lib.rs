//! A streaming JSON encoder.
//!
//! Values and nested structures are serialized directly into one reusable,
//! growable byte buffer, producing JSON-syntax output without an
//! intermediate value tree. The buffer, the string escaping, the integer
//! formatting and the structural builders (objects, arrays, one-shot value
//! slots, snapshot/rollback) are all specified against a sequence-of-bytes
//! model and verified.

mod buffer;
pub mod builders;
pub mod callbacks;
pub mod encoder;
pub mod escape;
pub mod laws;
pub mod numbers;

pub use buffer::Buffer;
pub use builders::{JsonObj, JsonVal, JsonVec, JsonVecSnapshot};
pub use callbacks::{JsonArrayEncoder, JsonObjectEncoder};
pub use encoder::{JsonEncodable, JsonEncoder};
