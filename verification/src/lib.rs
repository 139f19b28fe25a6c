//! An in-memory, position-tracked byte buffer presenting a sequential
//! read/write stream interface over three container ownership shapes:
//! an owned growable buffer, a borrowed fixed-size mutable region, and
//! an owned fixed-size heap region.

pub mod container;
pub mod laws;
pub mod stream;

pub use container::ByteContainer;
pub use stream::BufStream;
pub use stream::Io;
