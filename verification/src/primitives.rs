//! The identifiers that outcomes and failures refer to.

use vstd::prelude::*;

use crate::hex::{append_byte_hex, append_prefixed_hex, hex_of, prefixed_hex_of};

verus! {

/// Thirty-two bytes: a hash, and the shape of every identifier here.
#[derive(Debug, Clone, Copy, Eq)]
pub struct Bytes32(pub [u8; 32]);

/// The identifier of a transaction.
pub type TxId = Bytes32;

impl View for Bytes32 {
    type V = Seq<u8>;

    open spec fn view(&self) -> Seq<u8> {
        self.0@
    }
}

impl PartialEq for Bytes32 {
    fn eq(&self, other: &Bytes32) -> (same: bool) {
        let mut i: usize = 0;
        while i < 32
            invariant
                i <= 32,
                forall|j: int| 0 <= j < i ==> self.0@[j] == other.0@[j],
            decreases 32 - i,
        {
            if self.0[i] != other.0[i] {
                return false;
            }
            i = i + 1;
        }
        assert(self.0 =~= other.0);
        true
    }
}

impl vstd::std_specs::cmp::PartialEqSpecImpl for Bytes32 {
    open spec fn obeys_eq_spec() -> bool {
        true
    }

    open spec fn eq_spec(&self, other: &Bytes32) -> bool {
        *self == *other
    }
}

impl Bytes32 {
    /// The identifier made of the given bytes.
    pub fn new(bytes: [u8; 32]) -> (id: Bytes32)
        ensures
            id == Bytes32(bytes),
    {
        Bytes32(bytes)
    }

    /// The identifier whose bytes are all zero.
    pub fn zeroed() -> (id: Bytes32)
        ensures
            id@ == Seq::new(32, |i: int| 0u8),
    {
        let id = Bytes32([0u8;32]);
        assert(id@ =~= Seq::new(32, |i: int| 0u8));
        id
    }

    /// How the identifier is shown: `0x` and its sixty-four hexadecimal
    /// digits.
    pub open spec fn text(self) -> Seq<char> {
        prefixed_hex_of(self@)
    }

    /// Appends the identifier, as it is shown, to `out`.
    pub fn append_to(&self, out: &mut String)
        ensures
            final(out)@ == old(out)@ + self.text(),
    {
        append_prefixed_hex(out, self.0.as_slice());
    }

    /// The identifier as it is shown.
    pub fn to_hex(&self) -> (text: String)
        ensures
            text@ == self.text(),
    {
        let mut text = String::new();
        self.append_to(&mut text);
        assert(text@ =~= self.text());
        text
    }
}

/// The identifier of a contract.
#[derive(Debug, Clone, Copy, PartialEq, Eq)]
pub struct ContractId(pub Bytes32);

impl ContractId {
    /// How the identifier is shown: as its thirty-two bytes are.
    pub open spec fn text(self) -> Seq<char> {
        self.0.text()
    }

    /// Appends the identifier, as it is shown, to `out`.
    pub fn append_to(&self, out: &mut String)
        ensures
            final(out)@ == old(out)@ + self.text(),
    {
        self.0.append_to(out);
    }
}

/// The number that tells one relayed message from every other.
#[derive(Debug, Clone, Copy, PartialEq, Eq)]
pub struct Nonce(pub Bytes32);

impl Nonce {
    /// How the nonce is shown: as its thirty-two bytes are.
    pub open spec fn text(self) -> Seq<char> {
        self.0.text()
    }

    /// Appends the nonce, as it is shown, to `out`.
    pub fn append_to(&self, out: &mut String)
        ensures
            final(out)@ == old(out)@ + self.text(),
    {
        self.0.append_to(out);
    }
}

/// The identifier of a block.
#[derive(Debug, Clone, Copy, PartialEq, Eq)]
pub struct BlockId(pub Bytes32);

/// The identifier of an unspent output: the transaction that made it and
/// the output's place in that transaction.
#[derive(Debug, Clone, Copy, PartialEq, Eq)]
pub struct UtxoId {
    /// The transaction that made the output.
    pub tx_id: TxId,
    /// The place of the output among the outputs of that transaction.
    pub output_index: u8,
}

impl UtxoId {
    /// The identifier of output `output_index` of transaction `tx_id`.
    pub fn new(tx_id: TxId, output_index: u8) -> (id: UtxoId)
        ensures
            id == (UtxoId { tx_id, output_index }),
    {
        UtxoId { tx_id, output_index }
    }

    /// How the identifier is shown: the transaction's identifier as it is
    /// shown, followed by the two hexadecimal digits of the output's place.
    pub open spec fn text(self) -> Seq<char> {
        self.tx_id.text() + hex_of(seq![self.output_index])
    }

    /// Appends the identifier, as it is shown, to `out`.
    pub fn append_to(&self, out: &mut String)
        ensures
            final(out)@ == old(out)@ + self.text(),
    {
        self.tx_id.append_to(out);
        append_byte_hex(out, self.output_index);
        assert(out@ =~= old(out)@ + self.text());
    }
}

} // verus!
