//! Dependency tokens.
//!
//! A hook declares the values it depends on; the engine keeps a type-erased
//! snapshot of them and re-initializes the hook when the snapshot changes.
//! A [`DepsToken`] erases the dependency value into a type tag plus a
//! sequence of words.  Two tokens are equal exactly when the type tags match
//! and the encoded words match, so a mismatched dependency type never
//! compares equal and never faults.
//!
//! The [`Deps`] trait is the contract an encodable dependency type meets:
//! its encoding must be injective, so that token equality coincides with
//! value equality.

use vstd::prelude::*;

verus! {

/// A type-erased, equality-comparable snapshot of a hook's dependencies.
pub struct DepsToken {
    /// Identifies the dependency type; tokens of different types never
    /// compare equal.
    pub type_tag: u64,
    /// The dependency value, encoded as words.
    pub words: Vec<u64>,
}

impl DepsToken {
    /// Structural equality: same type tag, same encoded words.
    pub fn equals(&self, other: &DepsToken) -> (r: bool)
        ensures
            r == (self.type_tag == other.type_tag && self.words@ == other.words@),
    {
        if self.type_tag != other.type_tag {
            return false;
        }
        if self.words.len() != other.words.len() {
            return false;
        }
        let n = self.words.len();
        let mut i: usize = 0;
        while i < n
            invariant
                n == self.words@.len(),
                n == other.words@.len(),
                0 <= i <= n,
                forall|j: int| 0 <= j < i ==> self.words@[j] == other.words@[j],
            decreases n - i,
        {
            if self.words[i] != other.words[i] {
                return false;
            }
            i = i + 1;
        }
        proof {
            assert(self.words@ =~= other.words@);
        }
        true
    }
}

/// A dependency value that can be erased into a [`DepsToken`].
///
/// `tag` names the type; `words` encodes the value.  The encoding must be
/// injective (`lemma_words_injective`), so that two tokens of the same type
/// are equal exactly when the values are.  The unit dependency `()` encodes
/// to an empty word list and therefore never changes.
pub trait Deps: Sized {
    /// The tag all tokens of this type carry.
    spec fn tag() -> u64;

    /// The word encoding of this value.
    spec fn words(&self) -> Seq<u64>;

    /// The encoding is injective: equal words mean equal values.
    proof fn lemma_words_injective(a: &Self, b: &Self)
        requires
            a.words() == b.words(),
        ensures
            a == b,
    ;

    /// Erase this value into a token.
    fn to_token(&self) -> (t: DepsToken)
        ensures
            t.type_tag == Self::tag(),
            t.words@ == self.words(),
    ;
}

/// Token equality is exactly value equality, for any dependency type.
/// Mismatched types are handled before this point: their tags differ, so
/// their tokens already compare unequal.
pub proof fn lemma_token_equality_is_value_equality<D: Deps>(a: &D, b: &D)
    ensures
        (a.words() == b.words()) == (*a == *b),
{
    if a.words() == b.words() {
        D::lemma_words_injective(a, b);
    }
}

impl Deps for () {
    open spec fn tag() -> u64 {
        0
    }

    open spec fn words(&self) -> Seq<u64> {
        Seq::empty()
    }

    proof fn lemma_words_injective(a: &Self, b: &Self) {
    }

    fn to_token(&self) -> (t: DepsToken) {
        DepsToken { type_tag: 0, words: Vec::new() }
    }
}

impl Deps for u64 {
    open spec fn tag() -> u64 {
        1
    }

    open spec fn words(&self) -> Seq<u64> {
        seq![*self]
    }

    proof fn lemma_words_injective(a: &Self, b: &Self) {
        assert(a.words()[0] == *a);
        assert(b.words()[0] == *b);
    }

    fn to_token(&self) -> (t: DepsToken) {
        let mut words: Vec<u64> = Vec::new();
        words.push(*self);
        DepsToken { type_tag: 1, words }
    }
}

impl Deps for bool {
    open spec fn tag() -> u64 {
        2
    }

    open spec fn words(&self) -> Seq<u64> {
        seq![if *self { 1u64 } else { 0u64 }]
    }

    proof fn lemma_words_injective(a: &Self, b: &Self) {
        assert(a.words()[0] == (if *a { 1u64 } else { 0u64 }));
        assert(b.words()[0] == (if *b { 1u64 } else { 0u64 }));
    }

    fn to_token(&self) -> (t: DepsToken) {
        let mut words: Vec<u64> = Vec::new();
        words.push(if *self { 1 } else { 0 });
        DepsToken { type_tag: 2, words }
    }
}

impl Deps for (u64, u64) {
    open spec fn tag() -> u64 {
        3
    }

    open spec fn words(&self) -> Seq<u64> {
        seq![self.0, self.1]
    }

    proof fn lemma_words_injective(a: &Self, b: &Self) {
        assert(a.words()[0] == b.words()[0]);
        assert(a.words()[1] == b.words()[1]);
    }

    fn to_token(&self) -> (t: DepsToken) {
        let mut words: Vec<u64> = Vec::new();
        words.push(self.0);
        words.push(self.1);
        DepsToken { type_tag: 3, words }
    }
}

} // verus!
