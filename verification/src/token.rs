use vstd::prelude::*;

verus! {

/// Identity of an asset: either the chain's native settlement currency or a
/// named token.  The engine only ever compares token identities; it never
/// inspects a token beyond its code.
#[derive(Debug)]
pub struct TokenId {
    native: bool,
    code: Vec<u8>,
}

impl View for TokenId {
    type V = (bool, Seq<u8>);

    closed spec fn view(&self) -> (bool, Seq<u8>) {
        (self.native, self.code@)
    }
}

impl TokenId {
    /// The native settlement currency.  It carries no code.
    pub fn native() -> (t: TokenId)
        ensures
            t@ == (true, Seq::<u8>::empty()),
    {
        let t = TokenId { native: true, code: Vec::new() };
        proof {
            assert(t@.1 =~= Seq::<u8>::empty());
        }
        t
    }

    /// A named token, identified by its code bytes.
    pub fn from_bytes(code: Vec<u8>) -> (t: TokenId)
        ensures
            t@ == (false, code@),
    {
        TokenId { native: false, code }
    }

    /// Whether this asset is the native settlement currency.
    pub fn is_native(&self) -> (r: bool)
        ensures
            r == self@.0,
    {
        self.native
    }

    /// Whether two asset identities are the same asset.
    pub fn same_asset(&self, other: &TokenId) -> (r: bool)
        ensures
            r == (self@ == other@),
    {
        if self.native != other.native {
            return false;
        }
        if self.code.len() != other.code.len() {
            return false;
        }
        let n: usize = self.code.len();
        for i in 0..n
            invariant
                n == self.code.len(),
                n == other.code.len(),
                self.native == other.native,
                forall|j: int| 0 <= j < i ==> self.code@[j] == other.code@[j],
        {
            if self.code[i] != other.code[i] {
                return false;
            }
        }
        proof {
            assert(self.code@ =~= other.code@);
        }
        true
    }
}

impl Clone for TokenId {
    /// A clone is the same asset identity.
    fn clone(&self) -> (t: Self)
        ensures
            t@ == self@,
    {
        TokenId { native: self.native, code: self.code.clone() }
    }
}

} // verus!
