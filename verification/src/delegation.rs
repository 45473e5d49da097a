//! Delegation chains, the credential that carries one, and the derivation of
//! the principal that a credential speaks for.

use vstd::prelude::*;
use crate::principal::{Principal, self_authenticating_id, MAX_PRINCIPAL_BYTES};
use ic_agent::identity::{AnonymousIdentity, DelegatedIdentity, DelegationError, Secp256k1Identity};
use ic_agent::identity::{Delegation as AgentDelegation, SignedDelegation as AgentSignedDelegation};
use ic_agent::Identity;
use k256::SecretKey;

verus! {

/// A grant of signing authority to `pubkey`, good until `expiration`,
/// optionally restricted to `targets`.
#[derive(Debug, Clone, PartialEq, Eq)]
pub struct Delegation {
    pub pubkey: Vec<u8>,
    pub expiration: u64,
    pub targets: Option<Vec<Principal>>,
}

/// A delegation with the issuer's signature over it.
#[derive(Debug, Clone, PartialEq, Eq)]
pub struct SignedDelegation {
    pub delegation: Delegation,
    pub signature: Vec<u8>,
}

/// A credential: the key of the identity that is spoken for, the key that
/// signs the current request (a JWK-encoded secp256k1 secret key), and the
/// delegations that lead from the first to the second.
#[derive(Debug, Clone, PartialEq, Eq)]
pub struct DelegatedIdentityWire {
    pub from_key: Vec<u8>,
    pub to_secret: String,
    pub delegation_chain: Vec<SignedDelegation>,
}

/// The mathematical content of a [`Delegation`].
pub struct DelegationView {
    pub pubkey: Seq<u8>,
    pub expiration: u64,
    pub targets: Option<Seq<Seq<u8>>>,
}

/// The mathematical content of a [`SignedDelegation`].
pub struct SignedDelegationView {
    pub delegation: DelegationView,
    pub signature: Seq<u8>,
}

/// The mathematical content of a [`DelegatedIdentityWire`].
pub struct CredentialView {
    pub from_key: Seq<u8>,
    pub to_secret: Seq<char>,
    pub chain: Seq<SignedDelegationView>,
}

impl View for Delegation {
    type V = DelegationView;

    open spec fn view(&self) -> DelegationView {
        DelegationView {
            pubkey: self.pubkey@,
            expiration: self.expiration,
            targets: match self.targets {
                Some(targets) => Some(targets@.map_values(|p: Principal| p@)),
                None => None,
            },
        }
    }
}

impl View for SignedDelegation {
    type V = SignedDelegationView;

    open spec fn view(&self) -> SignedDelegationView {
        SignedDelegationView { delegation: self.delegation@, signature: self.signature@ }
    }
}

impl View for DelegatedIdentityWire {
    type V = CredentialView;

    open spec fn view(&self) -> CredentialView {
        CredentialView {
            from_key: self.from_key@,
            to_secret: self.to_secret@,
            chain: links_view(self.delegation_chain@),
        }
    }
}

/// The contents of a run of links.
pub open spec fn links_view(links: Seq<SignedDelegation>) -> Seq<SignedDelegationView> {
    links.map_values(|l: SignedDelegation| l@)
}

/// Whether a run of links is signed link by link, starting from a key.
#[derive(Debug, Clone, Copy, PartialEq, Eq, Structural)]
pub enum SignatureCheck {
    /// Every link is signed by the key before it.
    Signed,
    /// Some link's signature does not verify under the key before it.
    BadSignature,
    /// A key or a signature could not be read, or a key names an algorithm
    /// that is not supported.
    KeyRejected,
}

/// Why a credential is refused.
#[derive(Debug, Clone, Copy, PartialEq, Eq, Structural)]
pub enum AuthError {
    /// A link is broken or forged, or the chain does not end in the
    /// terminal signing key.
    InvalidDelegation,
    /// A link is past its expiration.
    DelegationExpired,
    /// A key, or a signature, is not in a form that can be read, or a key
    /// names an algorithm that is not supported.
    KeyFormatError,
    /// The chain is empty and the terminal signing key is not the root key.
    EmptyChainKeyMismatch,
}

/// What `ic_agent::identity::DelegatedIdentity::new` finds when it walks
/// `chain` from `from_key`: which of its signature checks, if any, fails.
pub uninterp spec fn signature_check(from_key: Seq<u8>, chain: Seq<SignedDelegationView>) -> SignatureCheck;

/// The principal of the identity that a JWK-encoded secp256k1 secret key
/// makes, as `ic_agent::identity::Secp256k1Identity` reports it; `None`
/// where the text is no such key.
pub uninterp spec fn jwk_principal(to_secret: Seq<char>) -> Option<Seq<u8>>;

/// Calls `ic_agent::identity::DelegatedIdentity::new` with the anonymous
/// identity as the delegate. That constructor verifies each link's signature
/// under the key before it and only then compares the last key with the
/// delegate, so with this delegate its answer tells how the signature walk
/// ended: `BrokenChain` without a delegation after a complete walk,
/// `BrokenChain` with the delegation whose signature failed, and any other
/// error for a key or signature that it could not use. A target is handed
/// over with `candid::Principal::from_slice`, which takes up to 29 bytes: no
/// [`Principal`] has more.
#[verifier::external_body]
fn check_signatures(from_key: &Vec<u8>, chain: &[SignedDelegation]) -> (r: SignatureCheck)
    ensures
        r == signature_check(from_key@, links_view(chain@)),
{
    let links = chain.iter().map(|l| AgentSignedDelegation {
        delegation: AgentDelegation {
            pubkey: l.delegation.pubkey.clone(),
            expiration: l.delegation.expiration,
            targets: l.delegation.targets.as_ref().map(|t| {
                t.iter().map(|p| candid::Principal::from_slice(&p.bytes)).collect()
            }),
        },
        signature: l.signature.clone(),
    }).collect();
    match DelegatedIdentity::new(from_key.clone(), Box::new(AnonymousIdentity), links) {
        Ok(_) | Err(DelegationError::BrokenChain { to: None, .. }) => SignatureCheck::Signed,
        Err(DelegationError::BrokenChain { to: Some(_), .. }) => SignatureCheck::BadSignature,
        Err(_) => SignatureCheck::KeyRejected,
    }
}

/// Reads a JWK-encoded secp256k1 secret key with
/// `k256::SecretKey::from_jwk_str`, makes the identity of it with
/// `ic_agent::identity::Secp256k1Identity::from_private_key` and asks that
/// identity for its principal (`sender`), which has at most 29 bytes.
#[verifier::external_body]
fn terminal_sender(to_secret: &str) -> (r: Option<Vec<u8>>)
    ensures
        r.is_some() == jwk_principal(to_secret@).is_some(),
        r matches Some(bytes) ==> jwk_principal(to_secret@) == Some(bytes@)
            && bytes@.len() <= MAX_PRINCIPAL_BYTES,
{
    let key = SecretKey::from_jwk_str(to_secret).ok()?;
    let sender = Secp256k1Identity::from_private_key(key).sender().ok()?;
    Some(sender.as_slice().to_vec())
}

/// The key under which link `i` of the chain must be signed: the root key
/// for the first link, the key that the link before delegates to for the
/// others.
pub open spec fn signer_key(c: CredentialView, i: int) -> Seq<u8> {
    if i == 0 {
        c.from_key
    } else {
        c.chain[i - 1].delegation.pubkey
    }
}

/// Whether link `i` is signed by the key before it.
pub open spec fn link_check(c: CredentialView, i: int) -> SignatureCheck {
    signature_check(signer_key(c, i), seq![c.chain[i]])
}

/// Why link `i` stops the walk at time `now`, if it does: a signature that
/// does not verify, a key that cannot be used, or, for a link that is signed,
/// an expiration that `now` has reached.
pub open spec fn link_failure(c: CredentialView, now: u64, i: int) -> Option<AuthError> {
    match link_check(c, i) {
        SignatureCheck::BadSignature => Some(AuthError::InvalidDelegation),
        SignatureCheck::KeyRejected => Some(AuthError::KeyFormatError),
        SignatureCheck::Signed => if now < c.chain[i].delegation.expiration {
            None
        } else {
            Some(AuthError::DelegationExpired)
        },
    }
}

/// Whether `i` is the first link that stops the walk.
pub open spec fn stops_at(c: CredentialView, now: u64, i: int) -> bool {
    &&& 0 <= i < c.chain.len()
    &&& link_failure(c, now, i) is Some
    &&& forall|j: int| 0 <= j < i ==> link_failure(c, now, j) is None
}

/// Whether every one of the first `n` links lets the walk pass.
pub open spec fn passes(c: CredentialView, now: u64, n: int) -> bool {
    forall|j: int| 0 <= j < n ==> link_failure(c, now, j) is None
}

/// The key that the chain ends in: the root key for an empty chain, the key
/// that the last link delegates to otherwise.
pub open spec fn last_key(c: CredentialView) -> Seq<u8> {
    signer_key(c, c.chain.len() as int)
}

/// Whether the terminal signing key is the key that the chain ends in.
pub open spec fn terminal_matches(c: CredentialView) -> bool {
    jwk_principal(c.to_secret) == Some(self_authenticating_id(last_key(c)))
}

/// The outcome of deriving the principal of a credential at time `now`.
///
/// The chain is walked from the root key: the first link that is not signed
/// by the key before it, or is signed but expired, decides the error. After
/// a complete walk the terminal signing key must be readable and must be the
/// key that the chain ends in. The principal is the root key's own, whatever
/// the chain delegates to.
pub open spec fn derivation(c: CredentialView, now: u64) -> Result<Seq<u8>, AuthError> {
    if exists|i: int| stops_at(c, now, i) {
        Err(link_failure(c, now, choose|i: int| stops_at(c, now, i)).unwrap())
    } else if jwk_principal(c.to_secret) is None {
        Err(AuthError::KeyFormatError)
    } else if !terminal_matches(c) {
        if c.chain.len() == 0 {
            Err(AuthError::EmptyChainKeyMismatch)
        } else {
            Err(AuthError::InvalidDelegation)
        }
    } else {
        Ok(self_authenticating_id(c.from_key))
    }
}

/// At most one link is the first to stop the walk.
pub proof fn lemma_stop_unique(c: CredentialView, now: u64, i: int, k: int)
    requires
        stops_at(c, now, i),
        stops_at(c, now, k),
    ensures
        i == k,
{
    if i < k {
        assert(link_failure(c, now, i) is None);
    } else if k < i {
        assert(link_failure(c, now, k) is None);
    }
}

/// Where link `i` is the first to stop the walk, the derivation fails with
/// that link's error.
pub proof fn lemma_stop_decides(c: CredentialView, now: u64, i: int)
    requires
        stops_at(c, now, i),
    ensures
        derivation(c, now) == Err::<Seq<u8>, AuthError>(link_failure(c, now, i).unwrap()),
{
    let k = choose|k: int| stops_at(c, now, k);
    lemma_stop_unique(c, now, i, k);
}

/// Where no link stops the walk, the terminal key decides.
pub proof fn lemma_pass_decides(c: CredentialView, now: u64)
    requires
        passes(c, now, c.chain.len() as int),
    ensures
        derivation(c, now) == if jwk_principal(c.to_secret) is None {
            Err::<Seq<u8>, AuthError>(AuthError::KeyFormatError)
        } else if terminal_matches(c) {
            Ok(self_authenticating_id(c.from_key))
        } else if c.chain.len() == 0 {
            Err(AuthError::EmptyChainKeyMismatch)
        } else {
            Err(AuthError::InvalidDelegation)
        },
{
    if exists|i: int| stops_at(c, now, i) {
        let i = choose|i: int| stops_at(c, now, i);
        assert(link_failure(c, now, i) is None);
    }
}

/// A credential is accepted exactly when no link stops the walk and the
/// terminal signing key is the key that the chain ends in; the principal is
/// then the root key's own.
pub proof fn law_accepted_exactly_when_chain_holds(c: CredentialView, now: u64)
    ensures
        derivation(c, now) is Ok <==> passes(c, now, c.chain.len() as int) && terminal_matches(c),
        derivation(c, now) is Ok ==> derivation(c, now) == Ok::<Seq<u8>, AuthError>(
            self_authenticating_id(c.from_key),
        ),
{
    if passes(c, now, c.chain.len() as int) {
        lemma_pass_decides(c, now);
    } else {
        let j = choose|j: int| 0 <= j < c.chain.len() && link_failure(c, now, j) is Some;
        let f = lemma_first_stop(c, now, j);
        lemma_stop_decides(c, now, f);
    }
}

/// A link that fails is the first to stop the walk, or a link before it is.
pub proof fn lemma_first_stop(c: CredentialView, now: u64, i: int) -> (f: int)
    requires
        0 <= i < c.chain.len(),
        link_failure(c, now, i) is Some,
    ensures
        0 <= f <= i,
        stops_at(c, now, f),
    decreases i,
{
    if passes(c, now, i) {
        i
    } else {
        let j = choose|j: int| 0 <= j < i && link_failure(c, now, j) is Some;
        lemma_first_stop(c, now, j)
    }
}

/// A credential whose links are each signed by the key before it and not
/// yet expired, and whose terminal signing key is the key that the chain
/// ends in, yields the principal of the root key.
pub proof fn law_valid_chain_yields_root_principal(c: CredentialView, now: u64)
    requires
        forall|i: int| 0 <= i < c.chain.len() ==> link_check(c, i) == SignatureCheck::Signed,
        forall|i: int| 0 <= i < c.chain.len() ==> now < c.chain[i].delegation.expiration,
        terminal_matches(c),
    ensures
        derivation(c, now) == Ok::<Seq<u8>, AuthError>(self_authenticating_id(c.from_key)),
{
    lemma_pass_decides(c, now);
}

/// A link whose signature does not verify makes the derivation fail as an
/// invalid delegation, whatever the links after it hold, provided that no
/// link before it that the walk reaches stops the walk for another reason
/// (an expiration, an unusable key).
pub proof fn law_forged_link_is_invalid(c: CredentialView, now: u64, i: int)
    requires
        0 <= i < c.chain.len(),
        link_check(c, i) == SignatureCheck::BadSignature,
        forall|j: int|
            0 <= j < i && passes(c, now, j) ==> link_failure(c, now, j) is None || link_failure(
                c,
                now,
                j,
            ) == Some(AuthError::InvalidDelegation),
    ensures
        derivation(c, now) == Err::<Seq<u8>, AuthError>(AuthError::InvalidDelegation),
{
    let f = lemma_first_stop(c, now, i);
    lemma_stop_decides(c, now, f);
    assert(passes(c, now, f));
}

/// A signed link whose expiration the time of verification has reached
/// makes the derivation fail as expired, whatever the links after it hold,
/// provided that no link before it that the walk reaches stops the walk for
/// another reason (a signature that does not verify, an unusable key).
pub proof fn law_expired_link_is_expired(c: CredentialView, now: u64, i: int)
    requires
        0 <= i < c.chain.len(),
        link_check(c, i) == SignatureCheck::Signed,
        now >= c.chain[i].delegation.expiration,
        forall|j: int|
            0 <= j < i && passes(c, now, j) ==> link_failure(c, now, j) is None || link_failure(
                c,
                now,
                j,
            ) == Some(AuthError::DelegationExpired),
    ensures
        derivation(c, now) == Err::<Seq<u8>, AuthError>(AuthError::DelegationExpired),
{
    let f = lemma_first_stop(c, now, i);
    lemma_stop_decides(c, now, f);
    assert(passes(c, now, f));
}

/// In particular, where every link is signed by the key before it, one
/// expired link is enough for the derivation to fail as expired.
pub proof fn law_expiry_overrides_valid_signatures(c: CredentialView, now: u64, i: int)
    requires
        0 <= i < c.chain.len(),
        now >= c.chain[i].delegation.expiration,
        forall|j: int| 0 <= j < c.chain.len() ==> link_check(c, j) == SignatureCheck::Signed,
    ensures
        derivation(c, now) == Err::<Seq<u8>, AuthError>(AuthError::DelegationExpired),
{
    law_expired_link_is_expired(c, now, i);
}

/// The outcome of a derivation is the same at any two times that lie
/// within the validity window of every link.
pub proof fn law_derivation_repeatable(c: CredentialView, first: u64, second: u64)
    requires
        forall|i: int| 0 <= i < c.chain.len() ==> first < c.chain[i].delegation.expiration,
        forall|i: int| 0 <= i < c.chain.len() ==> second < c.chain[i].delegation.expiration,
    ensures
        derivation(c, first) == derivation(c, second),
{
    assert forall|i: int| 0 <= i < c.chain.len() implies link_failure(c, first, i)
        == link_failure(c, second, i) by {}
    if exists|i: int| stops_at(c, first, i) {
        let f = choose|i: int| stops_at(c, first, i);
        assert(stops_at(c, second, f));
        lemma_stop_decides(c, first, f);
        lemma_stop_decides(c, second, f);
    } else if exists|i: int| stops_at(c, second, i) {
        let f = choose|i: int| stops_at(c, second, i);
        assert(stops_at(c, first, f));
    } else {
    }
}

/// The content of a derived principal, or the error, as [`derivation`]
/// states outcomes.
pub open spec fn outcome_view(r: Result<Principal, AuthError>) -> Result<Seq<u8>, AuthError> {
    match r {
        Ok(p) => Ok(p@),
        Err(e) => Err(e),
    }
}

/// Derives the principal that a credential speaks for at time `now`, which
/// is in the unit of the links' expirations.
pub fn derive_principal(credential: &DelegatedIdentityWire, now: u64) -> (r: Result<
    Principal,
    AuthError,
>)
    ensures
        outcome_view(r) == derivation(credential@, now),
{
    let ghost c = credential@;
    let chain = credential.delegation_chain.as_slice();
    let n = chain.len();
    let mut i: usize = 0;
    while i < n
        invariant
            0 <= i <= n,
            n == chain@.len(),
            chain@ == credential.delegation_chain@,
            c == credential@,
            passes(c, now, i as int),
        decreases n - i,
    {
        let signer = if i == 0 {
            &credential.from_key
        } else {
            &chain[i - 1].delegation.pubkey
        };
        let link = vstd::slice::slice_subrange(chain, i, i + 1);
        assert(links_view(link@) =~= seq![c.chain[i as int]]);
        let check = check_signatures(signer, link);
        assert(check == link_check(c, i as int));
        match check {
            SignatureCheck::BadSignature => {
                proof {
                    lemma_stop_decides(c, now, i as int);
                }
                return Err(AuthError::InvalidDelegation);
            },
            SignatureCheck::KeyRejected => {
                proof {
                    lemma_stop_decides(c, now, i as int);
                }
                return Err(AuthError::KeyFormatError);
            },
            SignatureCheck::Signed => {},
        }
        if now >= chain[i].delegation.expiration {
            proof {
                lemma_stop_decides(c, now, i as int);
            }
            return Err(AuthError::DelegationExpired);
        }
        i += 1;
    }
    let last = if n == 0 {
        &credential.from_key
    } else {
        &chain[n - 1].delegation.pubkey
    };
    proof {
        lemma_pass_decides(c, now);
    }
    let terminal = match terminal_sender(credential.to_secret.as_str()) {
        Some(bytes) => Principal { bytes },
        None => {
            return Err(AuthError::KeyFormatError);
        },
    };
    if !terminal.same_as(&Principal::self_authenticating(last)) {
        if n == 0 {
            return Err(AuthError::EmptyChainKeyMismatch);
        }
        return Err(AuthError::InvalidDelegation);
    }
    Ok(Principal::self_authenticating(&credential.from_key))
}

/// Whether a delegation extends to `target`: it is restricted to no targets,
/// or `target` is among those that it is restricted to.
pub open spec fn permits(d: DelegationView, target: Seq<u8>) -> bool {
    match d.targets {
        None => true,
        Some(targets) => targets.contains(target),
    }
}

/// Whether every link of a chain extends to `target`.
pub open spec fn chain_permits(chain: Seq<SignedDelegationView>, target: Seq<u8>) -> bool {
    forall|i: int| 0 <= i < chain.len() ==> permits(#[trigger] chain[i].delegation, target)
}

impl Delegation {
    /// Whether the delegation extends to `target`.
    pub fn permits(&self, target: &Principal) -> (r: bool)
        ensures
            r == permits(self@, target@),
    {
        match &self.targets {
            None => true,
            Some(targets) => {
                let ghost names = targets@.map_values(|p: Principal| p@);
                let mut i: usize = 0;
                while i < targets.len()
                    invariant
                        0 <= i <= targets@.len(),
                        self.targets == Some(*targets),
                        names == targets@.map_values(|p: Principal| p@),
                        forall|j: int| 0 <= j < i ==> names[j] != target@,
                    decreases targets@.len() - i,
                {
                    if targets[i].same_as(target) {
                        assert(names[i as int] == target@);
                        assert(self@.targets == Some(names));
                        assert(names.contains(target@));
                        return true;
                    }
                    i += 1;
                }
                false
            },
        }
    }
}

impl DelegatedIdentityWire {
    /// Whether every link of the credential's chain extends to `target`.
    pub fn permits(&self, target: &Principal) -> (r: bool)
        ensures
            r == chain_permits(self@.chain, target@),
    {
        let mut i: usize = 0;
        while i < self.delegation_chain.len()
            invariant
                0 <= i <= self.delegation_chain@.len(),
                forall|j: int| 0 <= j < i ==> permits(#[trigger] self@.chain[j].delegation, target@),
            decreases self.delegation_chain@.len() - i,
        {
            if !self.delegation_chain[i].delegation.permits(target) {
                assert(!permits(self@.chain[i as int].delegation, target@));
                return false;
            }
            i += 1;
        }
        true
    }
}

} // verus!
