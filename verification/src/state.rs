use vstd::prelude::*;
use vstd::std_specs::cmp::PartialEqSpecImpl;

verus! {

/// The identity of an account: thirty-two bytes.
#[derive(Clone, Copy, Debug)]
pub struct Address {
    pub bytes: [u8; 32],
}

impl View for Address {
    type V = Seq<u8>;

    open spec fn view(&self) -> Seq<u8> {
        self.bytes@
    }
}

/// Thirty-two zero bytes.
pub open spec fn zero_bytes() -> Seq<u8> {
    Seq::new(32, |i: int| 0u8)
}

/// The address of thirty-two zero bytes.
pub open spec fn zero_address() -> Address {
    Address { bytes: vstd::array::spec_array_fill_for_copy_type::<u8, 32>(0u8) }
}

impl Address {
    /// The address made of the given bytes.
    pub fn new(bytes: [u8; 32]) -> (address: Address)
        ensures
            address.bytes == bytes,
    {
        Address { bytes }
    }

    /// The all-zero address that a record holds before anything is written to it.
    pub fn zero() -> (address: Address)
        ensures
            address == zero_address(),
            address@ == zero_bytes(),
    {
        let address = Address { bytes: [0u8; 32] };
        assert(address@ =~= zero_bytes());
        address
    }

    /// The bytes of the address, as a seed or for an outside call.
    pub fn to_vec(&self) -> (bytes: Vec<u8>)
        ensures
            bytes@ == self@,
    {
        let mut bytes: Vec<u8> = Vec::new();
        let mut i: usize = 0;
        while i < 32
            invariant
                i <= 32,
                bytes@ == self@.subrange(0, i as int),
            decreases 32 - i,
        {
            bytes.push(self.bytes[i]);
            assert(bytes@ =~= self@.subrange(0, i + 1));
            i += 1;
        }
        assert(bytes@ =~= self@);
        bytes
    }
}

impl PartialEq for Address {
    fn eq(&self, other: &Address) -> (equal: bool) {
        let mut i: usize = 0;
        while i < 32
            invariant
                i <= 32,
                forall|j: int| 0 <= j < i ==> self.bytes[j] == other.bytes[j],
            decreases 32 - i,
        {
            if self.bytes[i] != other.bytes[i] {
                return false;
            }
            i += 1;
        }
        assert(self.bytes =~= other.bytes);
        true
    }
}

impl Eq for Address {

}

impl PartialEqSpecImpl for Address {
    open spec fn obeys_eq_spec() -> bool {
        true
    }

    open spec fn eq_spec(&self, other: &Address) -> bool {
        *self == *other
    }
}

/// Two addresses are the same value exactly when they hold the same bytes.
pub proof fn address_is_its_bytes(a: Address, b: Address)
    ensures
        (a == b) <==> (a@ == b@),
{
    if a@ == b@ {
        assert(a.bytes =~= b.bytes);
    }
}

/// The address that holds the given bytes.
pub open spec fn address_from(bytes: Seq<u8>) -> Address {
    choose|address: Address| address@ == bytes
}

/// An address is the one that holds its bytes.
pub proof fn address_from_its_bytes(address: Address)
    ensures
        address_from(address@) == address,
{
    address_is_its_bytes(address_from(address@), address);
}

/// The persistent description of one drop.
#[derive(Debug, PartialEq, Eq)]
pub struct Drop {
    /// The caller-chosen identity of the drop.
    pub claim_id: String,
    /// Display name.
    pub name: String,
    /// Description.
    pub description: String,
    /// Who initialized the drop.
    pub creator: Address,
    /// The mint of the item that stands for the whole collection.
    pub collection: Address,
    /// Whether the drop has no supply ceiling.
    pub infinite: bool,
    /// What is left of a finite supply.
    pub left_mint: u64,
    pub ticker: String,
    pub uri: String,
    /// Nonce of the record's own address.
    pub drop_nonce: u8,
    /// Nonce of the drop's signing authority.
    pub signer_nonce: u8,
}

impl Clone for Drop {
    fn clone(&self) -> (copy: Drop)
        ensures
            copy == *self,
    {
        Drop {
            claim_id: self.claim_id.clone(),
            name: self.name.clone(),
            description: self.description.clone(),
            creator: self.creator,
            collection: self.collection,
            infinite: self.infinite,
            left_mint: self.left_mint,
            ticker: self.ticker.clone(),
            uri: self.uri.clone(),
            drop_nonce: self.drop_nonce,
            signer_nonce: self.signer_nonce,
        }
    }
}

impl Drop {
    /// Whether the supply lets one more item be minted: always for an unlimited drop,
    /// and for a finite one while something is left.
    pub open spec fn open_for_claims(&self) -> bool {
        self.infinite || self.left_mint > 0
    }

    /// The record after one item has been minted from it: a finite supply is one
    /// lower, an unlimited drop is as it was.
    pub open spec fn after_mint(self) -> Drop {
        if !self.infinite && self.left_mint > 0 {
            Drop { left_mint: (self.left_mint - 1) as u64, ..self }
        } else {
            self
        }
    }

    /// Exec form of [`Drop::open_for_claims`].
    pub fn can_mint(&self) -> (open: bool)
        ensures
            open == self.open_for_claims(),
    {
        self.infinite || self.left_mint > 0
    }

    /// Takes one item off a finite supply.
    pub fn record_mint(&mut self)
        ensures
            *final(self) == old(self).after_mint(),
    {
        if !self.infinite && self.left_mint > 0 {
            self.left_mint = self.left_mint - 1;
        }
    }
}

/// The ledger entry of one requester on one drop.
#[derive(Clone, Copy, Debug, PartialEq, Eq)]
pub struct Claimed {
    /// Whether the claim was fulfilled.
    pub minted: bool,
    pub master_mint: Address,
    pub master_metadata: Address,
    pub master_edition: Address,
    /// Nonce of the entry's own address.
    pub nonce: u8,
}

/// The entry as it is allocated, before anything is claimed on it.
pub open spec fn unclaimed_entry() -> Claimed {
    Claimed {
        minted: false,
        master_mint: zero_address(),
        master_metadata: zero_address(),
        master_edition: zero_address(),
        nonce: 0,
    }
}

impl Claimed {
    /// An entry on which nothing has been claimed yet.
    pub fn unclaimed() -> (entry: Claimed)
        ensures
            entry == unclaimed_entry(),
    {
        Claimed {
            minted: false,
            master_mint: Address::zero(),
            master_metadata: Address::zero(),
            master_edition: Address::zero(),
            nonce: 0,
        }
    }
}

/// The programs and the rent account that every unit of work names.
#[derive(Clone, Copy, Debug, PartialEq, Eq)]
pub struct Programs {
    pub system_program: Address,
    pub token_program: Address,
    pub associated_token_program: Address,
    pub metadata_program: Address,
    pub rent: Address,
}

} // verus!
