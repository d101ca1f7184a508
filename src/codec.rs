use vstd::prelude::*;
use crate::error::ErrorCode;

verus! {

/// A record type stored in an account: a discriminator that names the type,
/// followed by the serialized fields.
///
/// An implementation states its layout as spec functions, proves that parsing
/// reads back what serializing wrote (with anything after it), and supplies
/// executable functions that follow the layout.
pub trait AccountData: Sized {
    /// The bytes that open every serialized value of this type.
    spec fn discriminator_spec() -> Seq<u8>;

    /// The serialized fields of `self`, without the discriminator.
    spec fn fields_spec(&self) -> Seq<u8>;

    /// The value whose fields open `bytes`, if they parse; trailing bytes are
    /// ignored.
    spec fn parse_fields_spec(bytes: Seq<u8>) -> Option<Self>;

    /// Parsing the serialized fields, whatever follows them, gives the value back.
    proof fn lemma_parse_fields(v: Self, rest: Seq<u8>)
        ensures
            Self::parse_fields_spec(v.fields_spec() + rest) == Some(v),
    ;

    fn discriminator() -> (r: Vec<u8>)
        ensures
            r@ == Self::discriminator_spec(),
    ;

    fn serialize_fields(&self) -> (r: Vec<u8>)
        ensures
            r@ == self.fields_spec(),
    ;

    fn parse_fields(bytes: &[u8]) -> (r: Option<Self>)
        ensures
            r == Self::parse_fields_spec(bytes@),
    ;
}

/// The full serialized form of `v`: discriminator, then fields.
pub open spec fn encode_spec<T: AccountData>(v: T) -> Seq<u8> {
    T::discriminator_spec() + v.fields_spec()
}

/// `bytes` opens with the discriminator of `T`.
pub open spec fn has_discriminator<T: AccountData>(bytes: Seq<u8>) -> bool {
    let d = T::discriminator_spec();
    d.len() <= bytes.len() && bytes.subrange(0, d.len() as int) == d
}

/// Decoding that skips the discriminator's place without reading it.
pub open spec fn decode_unchecked_spec<T: AccountData>(bytes: Seq<u8>) -> Result<T, ErrorCode> {
    let n = T::discriminator_spec().len();
    if bytes.len() < n {
        Err(ErrorCode::AccountDidNotDeserialize)
    } else {
        match T::parse_fields_spec(bytes.subrange(n as int, bytes.len() as int)) {
            Some(v) => Ok(v),
            None => Err(ErrorCode::AccountDidNotDeserialize),
        }
    }
}

/// Decoding that first requires the discriminator of `T`.
pub open spec fn decode_spec<T: AccountData>(bytes: Seq<u8>) -> Result<T, ErrorCode> {
    if !has_discriminator::<T>(bytes) {
        Err(ErrorCode::AccountDiscriminatorMismatch)
    } else {
        decode_unchecked_spec::<T>(bytes)
    }
}

/// Serializes `v` with its discriminator.
pub fn try_serialize<T: AccountData>(v: &T) -> (r: Vec<u8>)
    ensures
        r@ == encode_spec(*v),
{
    let mut out = T::discriminator();
    let mut fields = v.serialize_fields();
    out.append(&mut fields);
    out
}

/// Decodes a value of `T`, checking the discriminator first.
pub fn try_deserialize<T: AccountData>(bytes: &[u8]) -> (r: Result<T, ErrorCode>)
    ensures
        r == decode_spec::<T>(bytes@),
{
    let d = T::discriminator();
    if d.len() > bytes.len() {
        return Err(ErrorCode::AccountDiscriminatorMismatch);
    }
    let mut i: usize = 0;
    while i < d.len()
        invariant
            d@ == T::discriminator_spec(),
            d@.len() <= bytes@.len(),
            i <= d@.len(),
            forall|j: int| 0 <= j < i ==> bytes@[j] == d@[j],
        decreases d@.len() - i,
    {
        if bytes[i] != d[i] {
            assert(bytes@.subrange(0, d@.len() as int)[i as int] != d@[i as int]);
            return Err(ErrorCode::AccountDiscriminatorMismatch);
        }
        i = i + 1;
    }
    assert(bytes@.subrange(0, d@.len() as int) =~= d@);
    try_deserialize_unchecked(bytes)
}

/// Decodes a value of `T` without checking the discriminator: the bytes in
/// its place are skipped. A value of another type with the same layout is
/// accepted, so use this only where the type is known by other means.
pub fn try_deserialize_unchecked<T: AccountData>(bytes: &[u8]) -> (r: Result<T, ErrorCode>)
    ensures
        r == decode_unchecked_spec::<T>(bytes@),
{
    let d = T::discriminator();
    if bytes.len() < d.len() {
        return Err(ErrorCode::AccountDidNotDeserialize);
    }
    let (_, rest) = bytes.split_at(d.len());
    match T::parse_fields(rest) {
        Some(v) => Ok(v),
        None => Err(ErrorCode::AccountDidNotDeserialize),
    }
}

/// Decoding the serialized form of a value, whatever bytes follow it, gives
/// the value back.
pub proof fn lemma_round_trip_with_trailing<T: AccountData>(v: T, rest: Seq<u8>)
    ensures
        decode_spec::<T>(encode_spec(v) + rest) == Ok::<T, ErrorCode>(v),
        decode_unchecked_spec::<T>(encode_spec(v) + rest) == Ok::<T, ErrorCode>(v),
{
    let d = T::discriminator_spec();
    let b = encode_spec(v) + rest;
    assert(b.subrange(0, d.len() as int) =~= d);
    assert(b.subrange(d.len() as int, b.len() as int) =~= v.fields_spec() + rest);
    T::lemma_parse_fields(v, rest);
}

/// Decoding the serialized form of a value gives the value back.
pub proof fn lemma_round_trip<T: AccountData>(v: T)
    ensures
        decode_spec::<T>(encode_spec(v)) == Ok::<T, ErrorCode>(v),
{
    lemma_round_trip_with_trailing(v, Seq::empty());
    assert(encode_spec(v) + Seq::<u8>::empty() =~= encode_spec(v));
}

} // verus!
