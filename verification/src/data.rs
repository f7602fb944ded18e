//! The deferred payload container: a two-state holder that is either an
//! already-decoded payload object or the still-encoded byte buffer it came
//! from on the wire. Heavy cryptographic payload bodies are carried verbatim
//! and decoded at the consumer's discretion, so the network reactor never
//! pays for them; the runtime around this library dispatches that work to a
//! blocking worker pool.

use vstd::prelude::*;

verus! {

/// The shared immutable byte buffer that backs the encoded state. Cloning it
/// shares the underlying storage instead of copying it.
#[verifier::external_type_specification]
#[verifier::external_body]
pub struct ExBytes(bytes::Bytes);

/// What a buffer holds, as a sequence of bytes.
pub uninterp spec fn bytes_spec(b: bytes::Bytes) -> Seq<u8>;

/// Relies on `bytes::Bytes::from`: the buffer takes ownership of the vector's
/// bytes unchanged.
#[verifier::external_body]
pub fn bytes_from_vec(v: Vec<u8>) -> (r: bytes::Bytes)
    ensures
        bytes_spec(r) == v@,
{
    bytes::Bytes::from(v)
}

/// Relies on `bytes::Bytes::as_ref`: the slice of all bytes the buffer holds.
#[verifier::external_body]
pub fn bytes_as_slice(b: &bytes::Bytes) -> (r: &[u8])
    ensures
        r@ == bytes_spec(*b),
{
    b.as_ref()
}

/// Relies on `bytes::Bytes::clone`: the clone shares the same bytes, so
/// cloning a deferred buffer is cheap and exact.
pub assume_specification[ <bytes::Bytes as Clone>::clone ](b: &bytes::Bytes) -> (r:
    bytes::Bytes)
    ensures
        bytes_spec(r) == bytes_spec(*b),
;

/// Decoding a payload body failed: the bytes do not form a value of the
/// payload type.
#[derive(Clone, Copy, Debug, PartialEq, Eq, Structural)]
pub enum DecodeError {
    /// The buffer does not deserialize to the expected payload type.
    Malformed,
}

/// A payload type that travels on the wire: it has a byte image, and a parser
/// that accepts exactly the byte images of well-formed values.
pub trait Payload: Sized {
    /// Well-formedness of a value of the payload type.
    spec fn wf(&self) -> bool;

    /// The byte image of a value.
    spec fn spec_bytes(&self) -> Seq<u8>;

    /// Whether a byte sequence deserializes to a value.
    spec fn parses(bytes: Seq<u8>) -> bool;

    /// Serializes the value to its byte image, which its own parser
    /// accepts back.
    fn to_bytes(&self) -> (r: Vec<u8>)
        requires
            self.wf(),
        ensures
            r@ == self.spec_bytes(),
            Self::parses(r@),
    ;

    /// Deserializes a byte image; errs exactly when the bytes parse to no
    /// value, and otherwise returns a well-formed value with that image.
    fn from_bytes(bytes: &[u8]) -> (r: Result<Self, DecodeError>)
        ensures
            r is Ok <==> Self::parses(bytes@),
            r matches Ok(v) ==> v.wf() && v.spec_bytes() == bytes@,
    ;

    /// Decides well-formedness, exactly.
    fn check_wf(&self) -> (r: bool)
        ensures
            r == self.wf(),
    ;
}

/// A deferred payload: either the decoded object, or the encoded buffer it
/// arrived as. A container created `Buffer` becomes an object only through an
/// explicit decode that consumes it; its view is the byte image either way.
#[derive(Clone, Debug)]
pub enum Data<T> {
    /// The payload, already decoded.
    Object(T),
    /// The payload, still in its encoded wire form.
    Buffer(bytes::Bytes),
}

impl<T: Payload> View for Data<T> {
    type V = Seq<u8>;

    open spec fn view(&self) -> Seq<u8> {
        match self {
            Data::Object(x) => x.spec_bytes(),
            Data::Buffer(b) => bytes_spec(*b),
        }
    }
}

impl<T: Payload> Data<T> {
    /// Well-formedness: a held object must itself be well-formed.
    pub open spec fn wf(&self) -> bool {
        match self {
            Data::Object(x) => x.wf(),
            Data::Buffer(_) => true,
        }
    }

    /// Decides well-formedness, exactly: a held buffer always qualifies, a
    /// held object is asked.
    pub fn check_wf(&self) -> (r: bool)
        ensures
            r == self.wf(),
    {
        match self {
            Data::Object(x) => x.check_wf(),
            Data::Buffer(_) => true,
        }
    }

    /// The number of bytes the payload occupies on the wire.
    pub fn byte_len(&self) -> (r: usize)
        requires
            self.wf(),
        ensures
            r == self@.len(),
    {
        match self {
            Data::Object(x) => x.to_bytes().len(),
            Data::Buffer(b) => bytes_as_slice(b).len(),
        }
    }

    /// Wraps an encoded buffer.
    pub fn from_buffer(buffer: Vec<u8>) -> (r: Data<T>)
        ensures
            r@ == buffer@,
            r is Buffer,
            r.wf(),
    {
        Data::Buffer(bytes_from_vec(buffer))
    }

    /// Returns the payload object: the held one, or the held buffer decoded
    /// here and now. Errs exactly when a held buffer does not parse.
    pub fn deserialize_blocking(self) -> (r: Result<T, DecodeError>)
        requires
            self.wf(),
        ensures
            self matches Data::Object(x) ==> r == Ok::<T, DecodeError>(x),
            self is Buffer ==> (r is Ok <==> T::parses(self@)),
            r matches Ok(v) ==> v.wf() && v.spec_bytes() == self@,
    {
        match self {
            Data::Object(x) => Ok(x),
            Data::Buffer(b) => T::from_bytes(bytes_as_slice(&b)),
        }
    }

    /// Appends the byte image of the payload: a held object is serialized, a
    /// held buffer is written verbatim, bit for bit.
    pub fn serialize_blocking_into(&self, writer: &mut Vec<u8>)
        requires
            self.wf(),
        ensures
            final(writer)@ == old(writer)@ + self@,
    {
        match self {
            Data::Object(x) => {
                let bts = x.to_bytes();
                crate::wire::append_slice(writer, bts.as_slice());
            },
            Data::Buffer(b) => {
                crate::wire::append_slice(writer, bytes_as_slice(b));
            },
        }
    }
}

} // verus!
