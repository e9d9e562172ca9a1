//! Account keys as the library holds them: 32 plain bytes.

use std::str::FromStr;
use vstd::prelude::*;

verus! {

/// The 32 bytes of an account's public key.
#[derive(Clone, Copy, Debug, PartialEq, Eq, Hash)]
pub struct AccountKey {
    pub bytes: [u8; 32],
}

impl View for AccountKey {
    type V = Seq<u8>;

    open spec fn view(&self) -> Seq<u8> {
        self.bytes@
    }
}

/// What `solana_program::pubkey::Pubkey::from_str` makes of a text: the 32
/// bytes of the key that the text encodes in base 58, or nothing where the
/// text is no such encoding.
pub uninterp spec fn pubkey_from_str(text: Seq<char>) -> Option<Seq<u8>>;

/// Calls `Pubkey::from_str` of `solana_program` and hands back the bytes of
/// the key on success. The contract only names the result: the same text
/// always decodes to the same key, or always to none.
#[verifier::external_body]
fn pubkey_from_text(text: &str) -> (key: Option<AccountKey>)
    ensures
        match key {
            Some(k) => pubkey_from_str(text@) == Some(k@),
            None => pubkey_from_str(text@).is_none(),
        },
{
    match solana_program::pubkey::Pubkey::from_str(text) {
        Ok(key) => Some(AccountKey { bytes: key.to_bytes() }),
        Err(_) => None,
    }
}

impl AccountKey {
    /// The key with these bytes, if `bytes` has the length of a key;
    /// otherwise unspecified.
    pub open spec fn of_bytes(bytes: Seq<u8>) -> AccountKey {
        choose|key: AccountKey| key@ == bytes
    }

    /// The key that a text encodes, in terms of `pubkey_from_str`.
    pub open spec fn decoded(text: Seq<char>) -> Option<AccountKey> {
        match pubkey_from_str(text) {
            Some(bytes) => Some(Self::of_bytes(bytes)),
            None => None,
        }
    }

    /// Two keys with the same bytes are the same key.
    pub proof fn lemma_view_injective(a: AccountKey, b: AccountKey)
        ensures
            a@ == b@ <==> a == b,
    {
        if a@ == b@ {
            assert(a.bytes =~= b.bytes);
        }
    }

    /// `of_bytes` gives back the key whose bytes it is given.
    pub proof fn lemma_of_bytes(key: AccountKey)
        ensures
            Self::of_bytes(key@) == key,
    {
        Self::lemma_view_injective(Self::of_bytes(key@), key);
    }

    pub fn new(bytes: [u8; 32]) -> (key: AccountKey)
        ensures
            key.bytes == bytes,
    {
        AccountKey { bytes }
    }

    pub fn to_bytes(&self) -> (bytes: [u8; 32])
        ensures
            bytes == self.bytes,
    {
        self.bytes
    }

    /// Whether two keys have the same bytes.
    pub fn same(&self, other: &AccountKey) -> (same: bool)
        ensures
            same == (*self == *other),
            same == (self@ == other@),
    {
        let mut i: usize = 0;
        while i < 32
            invariant
                i <= 32,
                forall|j: int| 0 <= j < i ==> self.bytes[j] == other.bytes[j],
            decreases 32 - i,
        {
            if self.bytes[i] != other.bytes[i] {
                return false;
            }
            i += 1;
        }
        assert(self.bytes =~= other.bytes);
        true
    }

    /// Decodes the base-58 text of a key.
    pub fn parse(text: &str) -> (key: Option<AccountKey>)
        ensures
            key == Self::decoded(text@),
            match key {
                Some(k) => pubkey_from_str(text@) == Some(k@),
                None => pubkey_from_str(text@).is_none(),
            },
    {
        let key = pubkey_from_text(text);
        proof {
            if let Some(k) = key {
                Self::lemma_of_bytes(k);
            }
        }
        key
    }
}

impl Default for AccountKey {
    /// The key of 32 zero bytes.
    fn default() -> (key: AccountKey)
        ensures
            key@ == Seq::new(32, |i: int| 0u8),
    {
        let key = AccountKey { bytes: [0u8; 32] };
        assert(key@ =~= Seq::new(32, |i: int| 0u8));
        key
    }
}

} // verus!
