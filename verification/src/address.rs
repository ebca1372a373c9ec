use vstd::prelude::*;

verus! {

/// The identity of an account or a program: 32 bytes.
#[derive(Clone, Copy, Debug, PartialEq, Eq, Hash)]
pub struct Address {
    pub bytes: [u8; 32],
}

impl View for Address {
    type V = Seq<u8>;

    open spec fn view(&self) -> Seq<u8> {
        self.bytes@
    }
}

/// The base-58 text of a sequence of bytes, in the Bitcoin alphabet.
pub uninterp spec fn base58(bytes: Seq<u8>) -> Seq<char>;

/// Calls `Pubkey::new_from_array` and the `Display` impl of `Pubkey`, which writes
/// `bs58::encode` of the key's 32 bytes. The contract only gives that text a name.
#[verifier::external_body]
fn encode_base58(address: &Address) -> (text: String)
    ensures
        text@ == base58(address@),
{
    anchor_lang::prelude::Pubkey::new_from_array(address.bytes).to_string()
}

impl Address {
    pub fn new(bytes: [u8; 32]) -> (address: Address)
        ensures
            address.bytes == bytes,
    {
        Address { bytes }
    }

    pub fn to_bytes(&self) -> (bytes: [u8; 32])
        ensures
            bytes == self.bytes,
    {
        self.bytes
    }

    /// Whether two addresses hold the same 32 bytes.
    pub fn same(&self, other: &Address) -> (equal: bool)
        ensures
            equal == (*self == *other),
            equal == (self@ == other@),
    {
        let mut i: usize = 0;
        while i < 32
            invariant
                i <= 32,
                forall|j: int| 0 <= j < i ==> self.bytes[j] == other.bytes[j],
            decreases 32 - i,
        {
            if self.bytes[i] != other.bytes[i] {
                return false;
            }
            i += 1;
        }
        assert(self.bytes@ =~= other.bytes@);
        assert(self.bytes == other.bytes);
        true
    }

    /// The address as users read it: base-58 text.
    pub fn to_string(&self) -> (text: String)
        ensures
            text@ == base58(self@),
    {
        encode_base58(self)
    }
}

/// Two addresses are the same exactly when they hold the same bytes.
pub proof fn lemma_same_bytes_same_address(a: Address, b: Address)
    ensures
        a@ == b@ <==> a == b,
{
    if a@ == b@ {
        assert(a.bytes@ =~= b.bytes@);
        assert(a.bytes == b.bytes);
    }
}

} // verus!
