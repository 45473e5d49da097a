//! Principals: the byte strings that identify actors.

use vstd::prelude::*;

verus! {

/// The longest byte string that is a principal.
pub const MAX_PRINCIPAL_BYTES: usize = 29;

/// The principal that the textual form `text` denotes, or the words in
/// which `candid::Principal::from_text` says why it denotes none.
///
/// That function decodes base32, checks a CRC32 prefix and the grouping by
/// dashes.
pub uninterp spec fn principal_of_text(text: Seq<char>) -> Result<Seq<u8>, Seq<char>>;

/// The textual form of the principal with the given bytes, as
/// `candid::Principal::to_text` prints it.
pub uninterp spec fn text_of_principal(bytes: Seq<u8>) -> Seq<char>;

/// The self-authenticating principal of a public key: the SHA-224 digest of
/// the key followed by a tag byte, as `candid::Principal::self_authenticating`
/// computes it.
pub uninterp spec fn self_authenticating_id(public_key: Seq<u8>) -> Seq<u8>;

/// Calls `candid::Principal::from_text`. The result is the named decoding of
/// `text`, an error in the words of its `Display`; a decoded principal has
/// at most 29 bytes, the capacity of the outside type.
#[verifier::external_body]
fn decode_principal_text(text: &str) -> (r: Result<Vec<u8>, String>)
    ensures
        match r {
            Ok(bytes) => principal_of_text(text@) == Ok::<Seq<u8>, Seq<char>>(bytes@)
                && bytes@.len() <= MAX_PRINCIPAL_BYTES,
            Err(why) => principal_of_text(text@) == Err::<Seq<u8>, Seq<char>>(why@),
        },
{
    match candid::Principal::from_text(text) {
        Ok(p) => Ok(p.as_slice().to_vec()),
        Err(e) => Err(e.to_string()),
    }
}

/// Calls `candid::Principal::to_text` on the principal made of `bytes`.
/// `candid::Principal::from_slice` panics on more than 29 bytes, which the
/// precondition rules out.
#[verifier::external_body]
fn encode_principal_text(bytes: &Vec<u8>) -> (r: String)
    requires
        bytes@.len() <= MAX_PRINCIPAL_BYTES,
    ensures
        r@ == text_of_principal(bytes@),
{
    candid::Principal::from_slice(bytes).to_text()
}

/// Calls `candid::Principal::self_authenticating`, whose result always has
/// 29 bytes: 28 of digest and one tag byte.
#[verifier::external_body]
fn self_authenticating_bytes(public_key: &Vec<u8>) -> (r: Vec<u8>)
    ensures
        r@ == self_authenticating_id(public_key@),
        r@.len() == MAX_PRINCIPAL_BYTES,
{
    candid::Principal::self_authenticating(public_key).as_slice().to_vec()
}

/// An actor's identifier: an opaque string of at most 29 bytes.
#[derive(Debug, PartialEq, Eq, Hash)]
pub struct Principal {
    pub(crate) bytes: Vec<u8>,
}

impl View for Principal {
    type V = Seq<u8>;

    open(crate) spec fn view(&self) -> Seq<u8> {
        self.bytes@
    }
}

impl Clone for Principal {
    fn clone(&self) -> (r: Self)
        ensures
            r@ == self@,
    {
        proof {
            use_type_invariant(self);
        }
        Principal { bytes: self.bytes.clone() }
    }
}

impl Principal {
    #[verifier::type_invariant]
    pub(crate) open spec fn within_capacity(self) -> bool {
        self.bytes@.len() <= MAX_PRINCIPAL_BYTES
    }

    /// The principal with exactly these bytes; `None` when there are more
    /// than 29 of them.
    pub fn from_slice(bytes: &[u8]) -> (r: Option<Principal>)
        ensures
            r.is_some() == (bytes@.len() <= MAX_PRINCIPAL_BYTES),
            r matches Some(p) ==> p@ == bytes@,
    {
        if bytes.len() <= MAX_PRINCIPAL_BYTES {
            Some(Principal { bytes: vstd::slice::slice_to_vec(bytes) })
        } else {
            None
        }
    }

    /// The bytes of the principal, of which there are at most 29.
    pub fn as_slice(&self) -> (r: &[u8])
        ensures
            r@ == self@,
            r@.len() <= MAX_PRINCIPAL_BYTES,
    {
        proof {
            use_type_invariant(self);
        }
        self.bytes.as_slice()
    }

    /// Parses the textual form of a principal.
    pub fn from_text(text: &str) -> (r: Result<Principal, String>)
        ensures
            match r {
                Ok(p) => principal_of_text(text@) == Ok::<Seq<u8>, Seq<char>>(p@),
                Err(why) => principal_of_text(text@) == Err::<Seq<u8>, Seq<char>>(why@),
            },
    {
        match decode_principal_text(text) {
            Ok(bytes) => Ok(Principal { bytes }),
            Err(why) => Err(why),
        }
    }

    /// The textual form of the principal.
    pub fn to_text(&self) -> (r: String)
        ensures
            r@ == text_of_principal(self@),
    {
        proof {
            use_type_invariant(self);
        }
        encode_principal_text(&self.bytes)
    }

    /// The principal that a public key authenticates by itself.
    pub fn self_authenticating(public_key: &Vec<u8>) -> (r: Principal)
        ensures
            r@ == self_authenticating_id(public_key@),
    {
        Principal { bytes: self_authenticating_bytes(public_key) }
    }

    /// Whether two principals are the same actor.
    pub fn same_as(&self, other: &Principal) -> (r: bool)
        ensures
            r == (self@ == other@),
    {
        let same = self.bytes == other.bytes;
        assert(same == (self.bytes@ =~= other.bytes@));
        same
    }
}

} // verus!
