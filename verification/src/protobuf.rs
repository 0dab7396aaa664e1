//! The well-known protobuf messages that the library's messages embed.

use vstd::prelude::*;

verus! {

/// A point in time as protobuf writes it: whole seconds since the Unix
/// epoch, and nanoseconds that count forward from that second.
#[derive(Copy, Clone, Debug, Default, PartialEq, Eq, Structural)]
pub struct Timestamp {
    pub seconds: i64,
    pub nanos: i32,
}

/// A message of any type in serialised form, with the URL that names its
/// type.
#[derive(Clone, Debug, Default, PartialEq, Eq)]
pub struct Any {
    pub type_url: String,
    pub value: Vec<u8>,
}

} // verus!
