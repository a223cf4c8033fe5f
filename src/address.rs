use cardano_serialization_lib::{Address, BaseAddress, Credential, RewardAddress};
use vstd::prelude::*;
use vstd::string::StrSliceExecFns;

verus! {

/// Whether a bech32 text carries an address payload: its last `1` (the separator,
/// if there is one) is followed by more than six characters, the checksum alone
/// being six. `Address::from_bech32` cannot read a text with an empty payload.
pub open spec fn payload_present(text: Seq<char>) -> bool {
    forall|i: int|
        0 <= i < text.len() && #[trigger] text[i] == '1' && text.len() - i - 1 <= 6
            ==> exists|j: int| i < j < text.len() && text[j] == '1'
}

/// What decoding a bech32 address text gives: `None` when it does not decode;
/// otherwise `Some(Some((network, credential)))` for a base address, with its
/// network id and the bytes of its staking credential, and `Some(None)` for every
/// other shape of address.
pub uninterp spec fn address_stake_part(text: Seq<char>) -> Option<Option<(u8, Seq<u8>)>>;

/// The bech32 text of the reward address of `network` and the credential with
/// bytes `credential`, when that credential can be read back.
pub uninterp spec fn reward_text(network: u8, credential: Seq<u8>) -> Option<Seq<char>>;

pub open spec fn stake_part_view(part: Option<Option<(u8, Vec<u8>)>>) -> Option<Option<(u8, Seq<u8>)>> {
    match part {
        None => None,
        Some(None) => Some(None),
        Some(Some((network, credential))) => Some(Some((network, credential@))),
    }
}

/// Relies on `Address::from_bech32`, then `BaseAddress::from_address` and the
/// base address's network id and staking credential (as its bytes): each a
/// function of the text alone.
#[verifier::external_body]
fn decode_stake_part(text: &str) -> (r: Option<Option<(u8, Vec<u8>)>>)
    requires
        payload_present(text@),
    ensures
        stake_part_view(r) == address_stake_part(text@),
{
    match Address::from_bech32(text) {
        Ok(address) => Some(
            BaseAddress::from_address(&address).map(|base| (base.network_id(), base.stake_cred().to_bytes())),
        ),
        Err(_) => None,
    }
}

/// Relies on `Credential::from_bytes`, `RewardAddress::new`, `RewardAddress::to_address`
/// and `Address::to_bech32` with the default prefix: a function of the arguments alone.
#[verifier::external_body]
fn reward_address_text(network: u8, credential: &Vec<u8>) -> (r: Option<String>)
    ensures
        match r {
            Some(s) => reward_text(network, credential@) == Some(s@),
            None => reward_text(network, credential@) is None,
        },
{
    let credential = Credential::from_bytes(credential.clone()).ok()?;
    RewardAddress::new(network, &credential).to_address().to_bech32(None).ok()
}

/// Why a stake key could not be derived from an address.
#[derive(Debug, Clone, Copy, PartialEq, Eq)]
pub enum AddressError {
    /// The text is not a bech32 address.
    Malformed,
    /// The reward address could not be written as bech32.
    Unencodable,
}

/// The outcome of deriving the stake address of an address text: the reward
/// address of a base address's network and staking credential, `None` for an
/// address of any other shape, an error for a text that is no address.
pub open spec fn stake_key_of(text: Seq<char>) -> Result<Option<Seq<char>>, AddressError> {
    if !payload_present(text) {
        Err(AddressError::Malformed)
    } else {
        match address_stake_part(text) {
            None => Err(AddressError::Malformed),
            Some(None) => Ok(None),
            Some(Some((network, credential))) => match reward_text(network, credential) {
                Some(s) => Ok(Some(s)),
                None => Err(AddressError::Unencodable),
            },
        }
    }
}

/// The stake address derived from an address text, if one is.
pub open spec fn derived_key(text: Seq<char>) -> Option<Seq<char>> {
    match stake_key_of(text) {
        Ok(Some(s)) => Some(s),
        _ => None,
    }
}

pub open spec fn key_view(key: Result<Option<String>, AddressError>) -> Result<Option<Seq<char>>, AddressError> {
    match key {
        Ok(Some(s)) => Ok(Some(s@)),
        Ok(None) => Ok(None),
        Err(e) => Err(e),
    }
}

/// Whether `text` carries an address payload (see `payload_present`).
fn has_payload(text: &str) -> (r: bool)
    ensures
        r == payload_present(text@),
{
    let n = text.unicode_len();
    let mut k: usize = n;
    while k > 0
        invariant
            k <= n,
            n == text@.len(),
            forall|j: int| k <= j < n ==> text@[j] != '1',
        decreases k,
    {
        if text.get_char(k - 1) == '1' {
            let i = k - 1;
            if n - k > 6 {
                assert forall|i2: int|
                    0 <= i2 < text@.len() && #[trigger] text@[i2] == '1' && text@.len() - i2 - 1 <= 6
                        implies exists|j: int| i2 < j < text@.len() && text@[j] == '1' by {
                    assert(i2 < i);
                    assert(text@[i as int] == '1');
                }
                return true;
            } else {
                assert(text@[i as int] == '1');
                assert(!(exists|j: int| i < j < text@.len() && text@[j] == '1'));
                return false;
            }
        }
        k -= 1;
    }
    true
}

/// Derives the stake address that controls `addr`: `Some` for a base address (one
/// that carries a staking credential), `None` for every other shape.
pub fn get_address_stake_key(addr: &str) -> (r: Result<Option<String>, AddressError>)
    ensures
        key_view(r) == stake_key_of(addr@),
{
    if !has_payload(addr) {
        return Err(AddressError::Malformed);
    }
    match decode_stake_part(addr) {
        None => Err(AddressError::Malformed),
        Some(None) => Ok(None),
        Some(Some((network, credential))) => match reward_address_text(network, &credential) {
            Some(text) => Ok(Some(text)),
            None => Err(AddressError::Unencodable),
        },
    }
}

/// Whether a derived stake key is `stake_address`: a failed derivation and an
/// address without a staking credential both count as no match.
pub fn stake_key_matches(key: &Result<Option<String>, AddressError>, stake_address: &str) -> (r: bool)
    ensures
        r == (key is Ok && key->Ok_0 is Some && key->Ok_0->Some_0@ == stake_address@),
{
    match key {
        Ok(Some(k)) => {
            let expected = stake_address.to_owned();
            *k == expected
        },
        _ => false,
    }
}

/// Whether `address` is controlled by `stake_address`; an address that does not
/// decode belongs to no stake address.
pub fn address_belongs_to_stake_address(address: &str, stake_address: &str) -> (r: bool)
    ensures
        r == (derived_key(address@) == Some(stake_address@)),
{
    let key = get_address_stake_key(address);
    stake_key_matches(&key, stake_address)
}

/// Base addresses that share a network and a staking credential derive the same
/// stake address, whatever their payment credentials: the reward address of that
/// network and credential.
pub proof fn lemma_shared_stake_credential(a: Seq<char>, b: Seq<char>, network: u8, credential: Seq<u8>)
    requires
        payload_present(a),
        payload_present(b),
        address_stake_part(a) == Some(Some((network, credential))),
        address_stake_part(b) == Some(Some((network, credential))),
    ensures
        stake_key_of(a) == stake_key_of(b),
        derived_key(a) == reward_text(network, credential),
{
}

/// An address text that decodes to an address without a staking credential
/// derives no stake address, and that is no error.
pub proof fn lemma_no_stake_credential(text: Seq<char>)
    requires
        payload_present(text),
        address_stake_part(text) == Some(None::<(u8, Seq<u8>)>),
    ensures
        stake_key_of(text) == Ok::<Option<Seq<char>>, AddressError>(None),
{
}

} // verus!
