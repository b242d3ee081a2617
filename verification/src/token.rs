//! Tokens and the pairs that a pool trades.

use vstd::prelude::*;

verus! {

/// A 20-byte account or contract address.
#[derive(Clone, Copy, Debug)]
pub struct Address {
    pub bytes: [u8; 20],
}

impl Address {
    /// The address of twenty zero bytes, which stands for "no contract".
    pub open spec fn spec_is_zero(self) -> bool {
        forall|i: int| 0 <= i < 20 ==> self.bytes[i] == 0
    }

    #[verifier::when_used_as_spec(spec_is_zero)]
    pub fn is_zero(self) -> (z: bool)
        ensures
            z == self.spec_is_zero(),
    {
        let mut i: usize = 0;
        while i < 20
            invariant
                i <= 20,
                forall|j: int| 0 <= j < i ==> self.bytes[j] == 0,
            decreases 20 - i,
        {
            if self.bytes[i] != 0 {
                return false;
            }
            i += 1;
        }
        true
    }

    /// Whether this address is the lower of the two, read as a big-endian
    /// number. A pool lists the token with the lower address first.
    pub open spec fn spec_is_below(self, other: Address) -> bool {
        bytes_below(self.bytes@, other.bytes@, 0)
    }

    #[verifier::when_used_as_spec(spec_is_below)]
    pub fn is_below(self, other: Address) -> (r: bool)
        ensures
            r == self.spec_is_below(other),
    {
        let mut i: usize = 0;
        while i < 20
            invariant
                i <= 20,
                bytes_below(self.bytes@, other.bytes@, 0) == bytes_below(
                    self.bytes@,
                    other.bytes@,
                    i as int,
                ),
            decreases 20 - i,
        {
            if self.bytes[i] != other.bytes[i] {
                return self.bytes[i] < other.bytes[i];
            }
            i += 1;
        }
        false
    }
}

/// The address that `ethers` reads from a piece of text, which is forty
/// hexadecimal digits with or without `0x` in front; `None` where it rejects
/// the text.
pub uninterp spec fn address_from_text(text: Seq<char>) -> Option<Address>;

/// `FromStr` of `ethers::types::H160`: the address written in `text`, `None`
/// where the text is no address.
#[verifier::external_body]
pub(crate) fn parse_address(text: &str) -> (r: Option<Address>)
    ensures
        r == address_from_text(text@),
{
    text.parse::<ethers::types::H160>().ok().map(|a| Address { bytes: a.0 })
}

/// Whether `a` comes before `b` when both are read from index `from` on, byte
/// by byte, the first difference deciding.
pub open spec fn bytes_below(a: Seq<u8>, b: Seq<u8>, from: int) -> bool
    decreases a.len() - from,
{
    if from < 0 || from >= a.len() || from >= b.len() {
        false
    } else if a[from] != b[from] {
        a[from] < b[from]
    } else {
        bytes_below(a, b, from + 1)
    }
}

/// A copy of a list of addresses.
pub fn copy_addresses(path: &Vec<Address>) -> (r: Vec<Address>)
    ensures
        r@ == path@,
{
    let mut copy: Vec<Address> = Vec::new();
    let mut i: usize = 0;
    while i < path.len()
        invariant
            i <= path.len(),
            copy@ == path@.subrange(0, i as int),
        decreases path.len() - i,
    {
        copy.push(path[i]);
        assert(copy@ =~= path@.subrange(0, i + 1));
        i += 1;
    }
    assert(path@.subrange(0, path.len() as int) =~= path@);
    copy
}

/// A token: its ticker, its contract and the number of decimal places of its
/// base unit.
#[derive(Debug)]
pub struct Token {
    pub symbol: String,
    pub address: Address,
    pub decimals: u8,
}

impl Clone for Token {
    fn clone(&self) -> (r: Token)
        ensures
            r == *self,
    {
        Token { symbol: self.symbol.clone(), address: self.address, decimals: self.decimals }
    }
}

/// The two tokens of a pool, in the pool's own order.
#[derive(Debug)]
pub struct TokenPair {
    pub symbol: String,
    pub token_0: Token,
    pub token_1: Token,
}

impl Clone for TokenPair {
    fn clone(&self) -> (r: TokenPair)
        ensures
            r == *self,
    {
        TokenPair {
            symbol: self.symbol.clone(),
            token_0: self.token_0.clone(),
            token_1: self.token_1.clone(),
        }
    }
}

} // verus!
