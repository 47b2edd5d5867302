//! Error messages. A message is a sequence of fragments: literal text, and
//! binary64 values that are shown in their decimal form (`{}`) when the
//! message is rendered. The library never renders the numbers itself; it
//! keeps their IEEE-754 bit patterns.
use vstd::prelude::*;

use crate::text::{contains_seq, contains_str};

verus! {

/// A fragment of a message, as the contracts see it.
pub enum Piece {
    Text(Seq<char>),
    Float(u64),
}

/// A fragment of a message.
#[derive(Clone, Debug)]
pub enum Fragment {
    /// Literal text.
    Text(String),
    /// A binary64 value, by its bit pattern, shown in decimal when rendered.
    Float(u64),
}

impl View for Fragment {
    type V = Piece;

    open spec fn view(&self) -> Piece {
        match self {
            Fragment::Text(s) => Piece::Text(s@),
            Fragment::Float(b) => Piece::Float(*b),
        }
    }
}

/// The error returned when sanitized data fails validation, or a blob
/// cannot be turned into an object.
#[derive(Clone, Debug)]
pub struct ErrorMessage {
    pub fragments: Vec<Fragment>,
}

impl View for ErrorMessage {
    type V = Seq<Piece>;

    open spec fn view(&self) -> Seq<Piece> {
        self.fragments@.map_values(|f: Fragment| f@)
    }
}

/// A message made of one piece of text.
pub open spec fn text(s: Seq<char>) -> Seq<Piece> {
    seq![Piece::Text(s)]
}

/// The failure a check reports: `None` when it passes.
pub open spec fn failure(r: Result<(), ErrorMessage>) -> Option<Seq<Piece>> {
    match r {
        Ok(()) => None,
        Err(e) => Some(e@),
    }
}

/// Some text piece of `m` holds `needle`.
pub open spec fn message_contains(m: Seq<Piece>, needle: Seq<char>) -> bool {
    exists|k: int|
        0 <= k < m.len() && (#[trigger] m[k] matches Piece::Text(t) && contains_seq(t, needle))
}

impl ErrorMessage {
    /// A message made of the text `s`.
    pub fn from_text(s: String) -> (m: ErrorMessage)
        ensures
            m@ == text(s@),
    {
        let mut fragments: Vec<Fragment> = Vec::new();
        fragments.push(Fragment::Text(s));
        let m = ErrorMessage { fragments };
        assert(m@ =~= text(s@));
        m
    }

    /// A message made of the text `s`.
    pub fn from_str(s: &str) -> (m: ErrorMessage)
        ensures
            m@ == text(s@),
    {
        Self::from_text(String::from_str(s))
    }

    /// Appends a piece of text.
    pub fn push_text(&mut self, s: String)
        ensures
            final(self)@ == old(self)@.push(Piece::Text(s@)),
    {
        self.fragments.push(Fragment::Text(s));
        assert(final(self)@ =~= old(self)@.push(Piece::Text(s@)));
    }

    /// Appends a binary64 value given by its bit pattern.
    pub fn push_float(&mut self, bits: u64)
        ensures
            final(self)@ == old(self)@.push(Piece::Float(bits)),
    {
        self.fragments.push(Fragment::Float(bits));
        assert(final(self)@ =~= old(self)@.push(Piece::Float(bits)));
    }

    /// Appends all pieces of `other`.
    pub fn append(&mut self, other: ErrorMessage)
        ensures
            final(self)@ == old(self)@ + other@,
    {
        let mut other = other;
        let ghost orig = self@;
        let ghost tail = other@;
        self.fragments.append(&mut other.fragments);
        assert(self@ =~= orig + tail);
    }

    /// `other` preceded by the text `prefix`.
    pub fn prefixed(prefix: String, other: ErrorMessage) -> (m: ErrorMessage)
        ensures
            m@ == text(prefix@) + other@,
    {
        let mut m = Self::from_text(prefix);
        m.append(other);
        m
    }

    /// Whether one of the text pieces holds `needle`.
    pub fn contains(&self, needle: &str) -> (r: bool)
        ensures
            r == message_contains(self@, needle@),
    {
        let n: usize = self.fragments.len();
        let mut k: usize = 0;
        while k < n
            invariant
                n == self.fragments@.len(),
                k <= n,
                forall|j: int|
                    0 <= j < k ==> !(#[trigger] self@[j] matches Piece::Text(t) && contains_seq(
                        t,
                        needle@,
                    )),
            decreases n - k,
        {
            match &self.fragments[k] {
                Fragment::Text(t) => {
                    if contains_str(t.as_str(), needle) {
                        assert(self@[k as int] == Piece::Text(t@));
                        return true;
                    }
                },
                Fragment::Float(_) => {},
            }
            k = k + 1;
        }
        false
    }
}

} // verus!
