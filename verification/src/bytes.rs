//! Plain byte strings: content identifiers, raw payloads and encoded blocks.
use cid::Cid as BlockCid;
use vstd::prelude::*;

verus! {

/// The number by which an actor is known on chain.
pub type ActorID = u64;

/// Whether two byte strings are the same.
pub fn bytes_eq(a: &Vec<u8>, b: &Vec<u8>) -> (r: bool)
    ensures
        r == (a@ == b@),
{
    if a.len() != b.len() {
        return false;
    }
    let mut i: usize = 0;
    while i < a.len()
        invariant
            i <= a.len(),
            a.len() == b.len(),
            forall|j: int| 0 <= j < i ==> a@[j] == b@[j],
        decreases a.len() - i,
    {
        if a[i] != b[i] {
            return false;
        }
        i += 1;
    }
    assert(a@ =~= b@);
    true
}

/// A copy of a byte string.
pub fn bytes_clone(a: &Vec<u8>) -> (r: Vec<u8>)
    ensures
        r@ == a@,
{
    let r = a.clone();
    assert(r@ =~= a@);
    r
}

/// The binary form of the content identifier that bytes begin with, if they begin with one.
pub uninterp spec fn cid_form(bytes: Seq<u8>) -> Option<Seq<u8>>;

/// Whether bytes are the binary form of a content identifier.
pub open spec fn is_cid(bytes: Seq<u8>) -> bool {
    cid_form(bytes) == Some(bytes)
}

/// `Cid::try_from` of the `cid` crate on bytes, and `to_bytes`. It claims that the outcome depends
/// on the bytes only. What follows the identifier is ignored.
#[verifier::external_body]
fn read_cid(bytes: &Vec<u8>) -> (r: Option<Vec<u8>>)
    ensures
        r is Some == cid_form(bytes@) is Some,
        r is Some ==> cid_form(bytes@) == Some(r->0@),
{
    BlockCid::try_from(bytes.as_slice()).ok().map(|cid| cid.to_bytes())
}

/// `Cid::default` of the `cid` crate. It claims that the identifier is of version one, with the
/// codec, hash and length all zero.
#[verifier::external_body]
fn default_cid() -> (r: Cid)
    ensures
        r@ == seq![1u8, 0u8, 0u8, 0u8],
{
    Cid { bytes: BlockCid::default().to_bytes() }
}

/// Bytes as a value.
pub type Bytes = Seq<u8>;

/// The address of a block: the bytes of a content identifier.
#[derive(Debug, PartialEq, Eq)]
pub struct Cid {
    /// The identifier in its binary form.
    pub(crate) bytes: Vec<u8>,
}

impl View for Cid {
    type V = Seq<u8>;

    closed spec fn view(&self) -> Seq<u8> {
        self.bytes@
    }
}

impl Clone for Cid {
    fn clone(&self) -> (r: Self)
        ensures
            r@ == self@,
    {
        proof {
            use_type_invariant(self);
        }
        Cid { bytes: bytes_clone(&self.bytes) }
    }
}

impl Default for Cid {
    fn default() -> (r: Self)
        ensures
            r@ == seq![1u8, 0u8, 0u8, 0u8],
    {
        default_cid()
    }
}

impl Cid {
    /// The bytes are those of an identifier.
    #[verifier::type_invariant]
    pub closed spec fn parsed(&self) -> bool {
        is_cid(self.bytes@)
    }

    /// Reads an identifier from its binary form.
    pub fn from_bytes(bytes: Vec<u8>) -> (r: Option<Self>)
        ensures
            r is Some == is_cid(bytes@),
            r is Some ==> r->0@ == bytes@,
    {
        match read_cid(&bytes) {
            Some(form) => if bytes_eq(&form, &bytes) {
                Some(Cid { bytes })
            } else {
                None
            },
            None => None,
        }
    }

    /// The identifier in its binary form.
    pub fn to_bytes(&self) -> (r: Vec<u8>)
        ensures
            r@ == self@,
    {
        bytes_clone(&self.bytes)
    }

    /// Whether two identifiers are the same.
    pub fn same(&self, other: &Cid) -> (r: bool)
        ensures
            r == (self@ == other@),
    {
        bytes_eq(&self.bytes, &other.bytes)
    }
}

/// Bytes whose encoding is left to whoever reads them.
#[derive(Debug, PartialEq, Eq)]
pub struct RawBytes {
    /// The bytes themselves.
    pub bytes: Vec<u8>,
}

impl View for RawBytes {
    type V = Seq<u8>;

    open spec fn view(&self) -> Seq<u8> {
        self.bytes@
    }
}

impl Clone for RawBytes {
    fn clone(&self) -> (r: Self)
        ensures
            r@ == self@,
    {
        RawBytes { bytes: bytes_clone(&self.bytes) }
    }
}

impl Default for RawBytes {
    fn default() -> (r: Self)
        ensures
            r@ == Seq::<u8>::empty(),
    {
        RawBytes { bytes: Vec::new() }
    }
}

impl RawBytes {
    /// Wraps bytes that are already encoded.
    pub fn new(bytes: Vec<u8>) -> (r: Self)
        ensures
            r@ == bytes@,
    {
        RawBytes { bytes }
    }

    /// The bytes.
    pub fn bytes(&self) -> (r: &Vec<u8>)
        ensures
            r@ == self@,
    {
        &self.bytes
    }
}

/// The codec of plain CBOR.
pub const CBOR: u64 = 0x51;

/// A block with the codec of its encoding.
#[derive(Debug, PartialEq, Eq)]
pub struct IpldBlock {
    /// The codec.
    pub codec: u64,
    /// The bytes.
    pub data: Vec<u8>,
}

impl View for IpldBlock {
    type V = (u64, Seq<u8>);

    open spec fn view(&self) -> (u64, Seq<u8>) {
        (self.codec, self.data@)
    }
}

impl Clone for IpldBlock {
    fn clone(&self) -> (r: Self)
        ensures
            r@ == self@,
    {
        IpldBlock { codec: self.codec, data: bytes_clone(&self.data) }
    }
}

/// The encoding that an error comes from.
#[derive(Debug, Clone, Copy, PartialEq, Eq, Structural)]
pub enum CodecProtocol {
    /// An encoding that is not known.
    Unsupported,
    /// CBOR.
    Cbor,
    /// Raw bytes.
    Raw,
}

/// Something could not be encoded or decoded.
#[derive(Debug, PartialEq, Eq)]
pub struct EncodingError {
    /// What went wrong.
    pub description: String,
    /// The encoding.
    pub protocol: CodecProtocol,
}

/// An optional block as a value.
pub open spec fn block_view(block: Option<IpldBlock>) -> Option<(u64, Seq<u8>)> {
    match block {
        Some(b) => Some(b@),
        None => None,
    }
}

} // verus!
