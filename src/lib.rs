//! A codec between the Concise Binary Object Representation and plain values.
use vstd::prelude::*;

pub mod cbor;
pub mod error;
pub mod write;
pub mod serialize;
pub mod read;
pub mod deserialize;
pub mod laws;

pub use deserialize::{Deserializer, Item};
pub use error::{Error, OtherKind, SerdeWhen};
pub use read::{EitherLifetime, Reader, SliceReader};
pub use serialize::{
    SerializeMap, SerializeSeq, SerializeStruct, SerializeStructVariant, SerializeTuple,
    SerializeTupleStruct, SerializeTupleVariant, Serializer,
};
pub use write::{SliceWriter, Writer};

verus! {

/// The result type of the codec.
pub type Result<T> = core::result::Result<T, Error>;

} // verus!
