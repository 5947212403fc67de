use crate::hexfmt::{hex_chars_0x, to_hex_0x};
use sha3::Digest;
use std::str::FromStr;
use vstd::prelude::*;
use vstd::slice::slice_subrange;

verus! {

/// Error for a derivation step that rejected the fixed path or the drawn
/// key material. The path being fixed, this is a programmer-error class,
/// not a runtime condition.
#[derive(Debug)]
pub struct KeyDerivationError;

impl KeyDerivationError {
    /// Diagnostic text for this error, offered in place of a `Display` impl.
    pub fn message(&self) -> (m: &'static str)
        ensures
            m@ == "could not derive an account along the fixed path"@,
    {
        "could not derive an account along the fixed path"
    }
}

/// The base58 text of the master extended private key that hierarchical
/// derivation for the test network produces from a 32-byte seed.
pub uninterp spec fn master_of(seed: Seq<u8>) -> Seq<char>;

/// Whether the scalar that master-key derivation draws from a seed is
/// usable: true of all but a vanishing fraction of seeds.
pub uninterp spec fn master_seed_usable(seed: Seq<u8>) -> bool;

/// The base58 text of the child extended private key derived from the
/// master key text along a path of raw child numbers (high bit = hardened).
pub uninterp spec fn derived_key_of(master: Seq<char>, path: Seq<u32>) -> Seq<char>;

/// Whether child derivation returns a key: the text parses as an extended
/// private key and the path fits the depth counter.
pub uninterp spec fn child_derivable(master: Seq<char>, path: Seq<u32>) -> bool;

/// The bech32 text of the regtest pay-to-witness-public-key-hash address
/// belonging to an extended private key's public key.
pub uninterp spec fn address_of(key: Seq<char>) -> Seq<char>;

/// Whether the address derivation accepts the text: exactly when it parses
/// as an extended private key.
pub uninterp spec fn addressable(key: Seq<char>) -> bool;

/// The 65-byte uncompressed curve point belonging to a 32-byte secret
/// scalar on the secp256k1 curve.
pub uninterp spec fn secp_pubkey_of(key: Seq<u8>) -> Seq<u8>;

/// The 32-byte Keccak-256 digest of a byte sequence.
pub uninterp spec fn keccak_of(data: Seq<u8>) -> Seq<u8>;

/// A byte sequence read as a big-endian natural number.
pub open spec fn be_bytes_nat(s: Seq<u8>) -> nat
    decreases s.len(),
{
    if s.len() == 0 {
        0
    } else {
        be_bytes_nat(s.drop_last()) * 256 + s.last() as nat
    }
}

/// The order of the secp256k1 curve group.
pub open spec fn secp_curve_order() -> nat {
    0xfffffffffffffffffffffffffffffffebaaedce6af48a03bbfd25e8cd0364141nat
}

/// A 32-byte string names a usable secret scalar exactly when, read
/// big-endian, it is neither zero nor at or above the curve order.
pub open spec fn valid_secret_scalar(key: Seq<u8>) -> bool {
    0 < be_bytes_nat(key) < secp_curve_order()
}

/// Relies on `rand::random`, which draws from a cryptographically secure
/// generator. Nothing can be promised of the value drawn.
#[verifier::external_body]
fn random_seed() -> [u8; 32] {
    rand::random()
}

/// Relies on `bitcoin::bip32::Xpriv::new_master` for the test network kind:
/// from a seed it computes the master extended private key, a function of
/// the seed alone, rendered here in its base58 form. It rejects a seed
/// exactly when the scalar derived from it is unusable — a statistically
/// unreachable case, so success cannot be stated more plainly than by its
/// name.
#[verifier::external_body]
fn new_master_key(seed: &[u8; 32]) -> (r: Result<String, KeyDerivationError>)
    ensures
        r is Ok <==> master_seed_usable(seed@),
        r matches Ok(m) ==> m@ == master_of(seed@) && m@.len() > 0,
{
    match bitcoin::bip32::Xpriv::new_master(bitcoin::NetworkKind::Test, seed) {
        Ok(x) => Ok(x.to_string()),
        Err(_) => Err(KeyDerivationError),
    }
}

/// Relies on `bitcoin::bip32::Xpriv::derive_priv`: child derivation is a
/// function of the parent key and the path alone; raw child numbers carry
/// the hardened mark in their high bit, as `ChildNumber::from` reads them.
/// It fails on text that is no extended private key and on a path that
/// overflows the depth counter. One caveat stands: a derivation step whose
/// intermediate scalar falls outside the curve group aborts the process
/// inside the crate rather than erring; constructing such a master and
/// path would take a preimage of the underlying hash, and no plain clause
/// can name that set to leave it out.
#[verifier::external_body]
fn derive_child_key(master: &str, path: &[u32]) -> (r: Result<String, KeyDerivationError>)
    ensures
        r is Ok <==> child_derivable(master@, path@),
        r matches Ok(k) ==> k@ == derived_key_of(master@, path@) && k@.len() > 0,
{
    let parent = match bitcoin::bip32::Xpriv::from_str(master) {
        Ok(x) => x,
        Err(_) => return Err(KeyDerivationError),
    };
    let nums: Vec<bitcoin::bip32::ChildNumber> =
        path.iter().map(|n| bitcoin::bip32::ChildNumber::from(*n)).collect();
    let secp = bitcoin::secp256k1::Secp256k1::new();
    match parent.derive_priv(&secp, &nums) {
        Ok(c) => Ok(c.to_string()),
        Err(_) => Err(KeyDerivationError),
    }
}

/// Relies on `bitcoin::Address::p2wpkh` over the key's compressed public
/// key (`CompressedPublicKey::from_private_key`) for the regtest network:
/// the address is a function of the extended private key text alone. It
/// fails exactly on text that is no extended private key: the key parsed,
/// its public key and address always exist.
#[verifier::external_body]
fn derived_address(key: &str) -> (r: Result<String, KeyDerivationError>)
    ensures
        r is Ok <==> addressable(key@),
        r matches Ok(a) ==> a@ == address_of(key@) && a@.len() > 0,
{
    let x = match bitcoin::bip32::Xpriv::from_str(key) {
        Ok(x) => x,
        Err(_) => return Err(KeyDerivationError),
    };
    let secp = bitcoin::secp256k1::Secp256k1::new();
    let pk = match bitcoin::CompressedPublicKey::from_private_key(&secp, &x.to_priv()) {
        Ok(p) => p,
        Err(_) => return Err(KeyDerivationError),
    };
    Ok(bitcoin::Address::p2wpkh(&pk, bitcoin::Network::Regtest).to_string())
}

/// Relies on `secp256k1::PublicKey::from_secret_key`, a function of the
/// secret scalar alone, serialized uncompressed (65 bytes).
/// `SecretKey::from_slice` accepts exactly the 32-byte strings that name
/// a non-zero scalar below the curve order.
#[verifier::external_body]
fn eth_public_key(key: &[u8; 32]) -> (r: Result<Vec<u8>, KeyDerivationError>)
    ensures
        r is Ok <==> valid_secret_scalar(key@),
        r matches Ok(p) ==> p@ == secp_pubkey_of(key@) && p@.len() == 65,
{
    let sk = match bitcoin::secp256k1::SecretKey::from_slice(key) {
        Ok(k) => k,
        Err(_) => return Err(KeyDerivationError),
    };
    let secp = bitcoin::secp256k1::Secp256k1::new();
    let pk = bitcoin::secp256k1::PublicKey::from_secret_key(&secp, &sk);
    Ok(pk.serialize_uncompressed().to_vec())
}

/// Relies on `sha3::Keccak256`: the digest is a function of the input
/// bytes alone and is 32 bytes long.
#[verifier::external_body]
fn keccak256(data: &[u8]) -> (r: Vec<u8>)
    ensures
        r@ == keccak_of(data@),
        r@.len() == 32,
{
    sha3::Keccak256::digest(data).to_vec()
}

/// The raw child number that marks an index as hardened.
pub const HARDENED: u32 = 0x8000_0000;

/// The fixed derivation path: purpose 44', coin type 1' (test networks),
/// account 0', change 0, index 0.
pub open spec fn fixed_derivation_path() -> Seq<u32> {
    seq![(0x8000_0000u32 + 44) as u32, (0x8000_0000u32 + 1) as u32, 0x8000_0000u32, 0u32, 0u32]
}

/// Build the fixed derivation path as raw child numbers.
pub fn derivation_path() -> (p: Vec<u32>)
    ensures
        p@ == fixed_derivation_path(),
{
    let p: Vec<u32> = vec![HARDENED + 44, HARDENED + 1, HARDENED, 0, 0];
    proof {
        assert(p@ =~= fixed_derivation_path());
    }
    p
}

/// A Bitcoin test account: the master extended private key (the artifact
/// persisted to configuration), the private key derived from it at the
/// fixed path, and that key's address, used only for funding.
pub struct BitcoinAccount {
    pub master: String,
    pub derived_key: String,
    pub address: String,
}

impl BitcoinAccount {
    /// All three text renderings are present: base58 of a 78-byte key
    /// payload and bech32 of an address are never empty.
    pub open spec fn text_complete(&self) -> bool {
        &&& self.master@.len() > 0
        &&& self.derived_key@.len() > 0
        &&& self.address@.len() > 0
    }
}

/// An Ethereum test account: a single raw signing key, persisted directly.
pub struct EthereumAccount {
    pub private_key: [u8; 32],
}

/// Whether every step of the fixed derivation scheme accepts a seed: the
/// master key can be drawn from it, the child key derived along the fixed
/// path, and the address formed. All but a vanishing fraction of seeds
/// qualify.
pub open spec fn bitcoin_seed_derivable(seed: Seq<u8>) -> bool {
    &&& master_seed_usable(seed)
    &&& child_derivable(master_of(seed), fixed_derivation_path())
    &&& addressable(derived_key_of(master_of(seed), fixed_derivation_path()))
}

/// What it means for a Bitcoin account to be derived from a seed: master
/// key from the seed, derived key from the master along the fixed path,
/// address from the derived key.
pub open spec fn bitcoin_account_from(a: BitcoinAccount, seed: Seq<u8>) -> bool {
    &&& a.master@ == master_of(seed)
    &&& a.derived_key@ == derived_key_of(master_of(seed), fixed_derivation_path())
    &&& a.address@ == address_of(derived_key_of(master_of(seed), fixed_derivation_path()))
}

/// Derive a complete Bitcoin account from a seed. Deterministic: the
/// result is a function of the seed and the fixed path alone, and the
/// derivation succeeds exactly when every step accepts the seed.
pub fn bitcoin_account_from_seed(seed: &[u8; 32]) -> (r: Result<
    BitcoinAccount,
    KeyDerivationError,
>)
    ensures
        r is Ok <==> bitcoin_seed_derivable(seed@),
        r matches Ok(a) ==> bitcoin_account_from(a, seed@) && a.text_complete(),
{
    let master = match new_master_key(seed) {
        Ok(m) => m,
        Err(e) => return Err(e),
    };
    let path = derivation_path();
    let derived_key = match derive_child_key(master.as_str(), path.as_slice()) {
        Ok(k) => k,
        Err(e) => return Err(e),
    };
    let address = match derived_address(derived_key.as_str()) {
        Ok(a) => a,
        Err(e) => return Err(e),
    };
    Ok(BitcoinAccount { master, derived_key, address })
}

/// Generate a Bitcoin account from a fresh 32-byte seed drawn from the
/// secure source. No failure of the library's own precedes the draw: an
/// error can only mean that the drawn seed was one of the vanishing
/// fraction that some derivation step rejects.
pub fn generate_bitcoin_account() -> (r: Result<BitcoinAccount, KeyDerivationError>)
    ensures
        r matches Ok(a) ==> a.text_complete() && exists|s: Seq<u8>|
            s.len() == 32 && bitcoin_account_from(a, s),
        r is Err ==> exists|s: Seq<u8>| s.len() == 32 && !bitcoin_seed_derivable(s),
{
    let seed = random_seed();
    let r = bitcoin_account_from_seed(&seed);
    proof {
        if r is Ok {
            assert(seed@.len() == 32 && bitcoin_account_from(r->Ok_0, seed@));
        }
    }
    r
}

/// Generate an Ethereum account: a raw key drawn directly from the secure
/// source. Cannot fail.
pub fn generate_ethereum_account() -> (a: EthereumAccount)
    ensures
        a.private_key@.len() == 32,
{
    EthereumAccount { private_key: random_seed() }
}

/// The textual account address belonging to an Ethereum signing key: the
/// `0x`-prefixed hex form of the last 20 bytes of the Keccak-256 digest of
/// the key's uncompressed public curve point without its leading marker
/// byte.
pub open spec fn eth_address_chars(key: Seq<u8>) -> Seq<char> {
    hex_chars_0x(keccak_of(secp_pubkey_of(key).drop_first()).skip(12))
}

/// Compute the account address for an Ethereum signing key. Succeeds for
/// exactly the keys that name a usable secret scalar.
pub fn ethereum_address(key: &[u8; 32]) -> (r: Result<String, KeyDerivationError>)
    ensures
        r is Ok <==> valid_secret_scalar(key@),
        r matches Ok(a) ==> a@ == eth_address_chars(key@),
{
    let pk = match eth_public_key(key) {
        Ok(p) => p,
        Err(e) => return Err(e),
    };
    let point = slice_subrange(pk.as_slice(), 1, 65);
    proof {
        assert(point@ =~= secp_pubkey_of(key@).drop_first());
    }
    let digest = keccak256(point);
    let tail = slice_subrange(digest.as_slice(), 12, 32);
    proof {
        assert(tail@ =~= keccak_of(secp_pubkey_of(key@).drop_first()).skip(12));
    }
    Ok(to_hex_0x(tail))
}

/// The key material of one run: exactly two Bitcoin accounts and exactly
/// two Ethereum accounts, each Ethereum account beside its derived textual
/// address, which funding alone consumes.
pub struct AccountSet {
    pub bitcoin_0: BitcoinAccount,
    pub bitcoin_1: BitcoinAccount,
    pub ethereum_0: EthereumAccount,
    pub ethereum_1: EthereumAccount,
    pub eth_address_0: String,
    pub eth_address_1: String,
}

impl AccountSet {
    /// Every account was derived as the fixed scheme demands: each Bitcoin
    /// account from some 32-byte seed, and each Ethereum address from its
    /// own account's usable key.
    pub open spec fn wf(&self) -> bool {
        &&& exists|s: Seq<u8>| s.len() == 32 && bitcoin_account_from(self.bitcoin_0, s)
        &&& exists|s: Seq<u8>| s.len() == 32 && bitcoin_account_from(self.bitcoin_1, s)
        &&& self.bitcoin_0.text_complete()
        &&& self.bitcoin_1.text_complete()
        &&& valid_secret_scalar(self.ethereum_0.private_key@)
        &&& valid_secret_scalar(self.ethereum_1.private_key@)
        &&& self.eth_address_0@ == eth_address_chars(self.ethereum_0.private_key@)
        &&& self.eth_address_1@ == eth_address_chars(self.ethereum_1.private_key@)
    }
}

/// Generate the accounts of one run: two Bitcoin and two Ethereum accounts
/// from fresh seeds, with the Ethereum addresses derived at once, so that
/// no later stage meets underivable key material. An error can only mean
/// that a drawn seed or key was one that a derivation step rejects.
pub fn generate_accounts() -> (r: Result<AccountSet, KeyDerivationError>)
    ensures
        r matches Ok(s) ==> s.wf(),
        r is Err ==> (exists|s: Seq<u8>| s.len() == 32 && !bitcoin_seed_derivable(s)) || (
        exists|k: Seq<u8>| k.len() == 32 && !valid_secret_scalar(k)),
{
    let bitcoin_0 = match generate_bitcoin_account() {
        Ok(a) => a,
        Err(e) => return Err(e),
    };
    let bitcoin_1 = match generate_bitcoin_account() {
        Ok(a) => a,
        Err(e) => return Err(e),
    };
    let ethereum_0 = generate_ethereum_account();
    let ethereum_1 = generate_ethereum_account();
    let eth_address_0 = match ethereum_address(&ethereum_0.private_key) {
        Ok(a) => a,
        Err(e) => return Err(e),
    };
    let eth_address_1 = match ethereum_address(&ethereum_1.private_key) {
        Ok(a) => a,
        Err(e) => return Err(e),
    };
    Ok(AccountSet { bitcoin_0, bitcoin_1, ethereum_0, ethereum_1, eth_address_0, eth_address_1 })
}

/// Law: hierarchical derivation is deterministic. Two Bitcoin accounts
/// derived from the same seed along the fixed path agree in master key,
/// derived private key and address; re-deriving is a round trip.
pub proof fn lemma_bitcoin_derivation_deterministic(
    a: BitcoinAccount,
    b: BitcoinAccount,
    seed: Seq<u8>,
)
    requires
        bitcoin_account_from(a, seed),
        bitcoin_account_from(b, seed),
    ensures
        a.master@ == b.master@,
        a.derived_key@ == b.derived_key@,
        a.address@ == b.address@,
{
}

/// Law: the derived private key and the address are functions of the
/// master key and the path alone, so re-deriving from the same master key
/// along the same path yields the same private key and the same address.
pub proof fn lemma_rederive_from_master(a: BitcoinAccount, b: BitcoinAccount, path: Seq<u32>)
    requires
        a.master@ == b.master@,
        a.derived_key@ == derived_key_of(a.master@, path),
        b.derived_key@ == derived_key_of(b.master@, path),
        a.address@ == address_of(a.derived_key@),
        b.address@ == address_of(b.derived_key@),
    ensures
        a.derived_key@ == b.derived_key@,
        a.address@ == b.address@,
{
}

} // verus!
