//! Peer identifiers: short textual aliases by which clients look each other up.

use vstd::prelude::*;

verus! {

/// Fewest characters an identifier may have.
pub const MIN_LENGTH: usize = 6;

/// Most characters an identifier may have.
pub const MAX_LENGTH: usize = 16;

/// Why a string is not a peer identifier.
#[derive(Debug, Clone, Copy, PartialEq, Eq, Structural)]
pub enum PeerIdError {
    Empty,
    TooShort,
    TooLong,
    InvalidCharacters,
}

/// The characters an identifier is made of: digits, lower-case letters, `-` and `_`.
pub open spec fn valid_char(c: char) -> bool {
    ||| '0' <= c <= '9'
    ||| 'a' <= c <= 'z'
    ||| c == '-'
    ||| c == '_'
}

/// Every character of `s` is a valid one.
pub open spec fn all_valid_chars(s: Seq<char>) -> bool {
    forall|i: int| 0 <= i < s.len() ==> valid_char(#[trigger] s[i])
}

/// The verdict on the text `s`. Length is judged first, in characters,
/// then the characters themselves; the first check that fails names the
/// error.
pub open spec fn validation(s: Seq<char>) -> Result<(), PeerIdError> {
    if s.len() == 0 {
        Err(PeerIdError::Empty)
    } else if s.len() < MIN_LENGTH {
        Err(PeerIdError::TooShort)
    } else if s.len() > MAX_LENGTH {
        Err(PeerIdError::TooLong)
    } else if !all_valid_chars(s) {
        Err(PeerIdError::InvalidCharacters)
    } else {
        Ok(())
    }
}

/// What it takes to be an identifier: six to sixteen valid characters.
pub open spec fn well_formed_id(s: Seq<char>) -> bool {
    MIN_LENGTH <= s.len() <= MAX_LENGTH && all_valid_chars(s)
}


/// A peer identifier. `new` hands out validated ones only; the default one is
/// the empty string, which stands for "no identifier yet" and is not valid.
#[derive(Debug, Hash)]
pub struct PeerId(String);

impl View for PeerId {
    type V = Seq<char>;

    closed spec fn view(&self) -> Seq<char> {
        self.0@
    }
}

impl PeerId {
    /// The identifier passed validation.
    pub open spec fn is_valid(&self) -> bool {
        well_formed_id(self@)
    }

    /// Validates `id` and wraps a copy of it. Nothing is normalised.
    pub fn new(id: &str) -> (r: Result<Self, PeerIdError>)
        ensures
            r matches Ok(p) ==> p@ == id@ && p.is_valid(),
            r matches Err(e) ==> validation(id@) == Err::<(), PeerIdError>(e),
            r is Ok <==> validation(id@) is Ok,
            r is Ok <==> well_formed_id(id@),
    {
        match Self::validate(id) {
            Ok(()) => Ok(PeerId(id.to_owned())),
            Err(e) => Err(e),
        }
    }

    /// Judges `id`: its length in characters first, then its characters. The
    /// first check that fails names the error.
    pub fn validate(id: &str) -> (r: Result<(), PeerIdError>)
        ensures
            r == validation(id@),
    {
        let count = id.unicode_len();
        if count == 0 {
            return Err(PeerIdError::Empty);
        }
        if count < MIN_LENGTH {
            return Err(PeerIdError::TooShort);
        }
        if count > MAX_LENGTH {
            return Err(PeerIdError::TooLong);
        }
        let mut i: usize = 0;
        while i < count
            invariant
                i <= count,
                count == id@.len(),
                MIN_LENGTH <= count <= MAX_LENGTH,
                forall|j: int| 0 <= j < i ==> valid_char(#[trigger] id@[j]),
            decreases count - i,
        {
            let c = id.get_char(i);
            if !is_valid_char(c) {
                return Err(PeerIdError::InvalidCharacters);
            }
            i += 1;
        }
        Ok(())
    }

    /// The identifier as text, exactly as it was given.
    pub fn as_str(&self) -> (s: &str)
        ensures
            s@ == self@,
    {
        self.0.as_str()
    }

    /// The identifier as an owned string, exactly as it was given.
    pub fn to_text(&self) -> (s: String)
        ensures
            s@ == self@,
    {
        self.0.clone()
    }

    /// Whether the identifier passed validation.
    pub fn check_valid(&self) -> (b: bool)
        ensures
            b == self.is_valid(),
    {
        Self::validate(self.0.as_str()).is_ok()
    }
}

/// Whether `c` may occur in an identifier.
pub fn is_valid_char(c: char) -> (b: bool)
    ensures
        b == valid_char(c),
{
    ('0' <= c && c <= '9') || ('a' <= c && c <= 'z') || c == '-' || c == '_'
}

impl Clone for PeerId {
    fn clone(&self) -> (r: Self)
        ensures
            r@ == self@,
    {
        PeerId(self.0.clone())
    }
}

impl Default for PeerId {
    fn default() -> (r: Self)
        ensures
            r@ == Seq::<char>::empty(),
    {
        PeerId(String::new())
    }
}

impl PartialEq for PeerId {
    fn eq(&self, other: &Self) -> (b: bool) {
        self.0 == other.0
    }
}

impl Eq for PeerId {}

impl vstd::std_specs::cmp::PartialEqSpecImpl for PeerId {
    open spec fn obeys_eq_spec() -> bool {
        true
    }

    open spec fn eq_spec(&self, other: &Self) -> bool {
        self@ == other@
    }
}

impl std::str::FromStr for PeerId {
    type Err = PeerIdError;

    fn from_str(s: &str) -> (r: Result<Self, PeerIdError>)
        ensures
            r is Ok <==> well_formed_id(s@),
            r matches Ok(p) ==> p@ == s@,
            r matches Err(e) ==> validation(s@) == Err::<(), PeerIdError>(e),
    {
        Self::new(s)
    }
}

impl TryFrom<&str> for PeerId {
    type Error = PeerIdError;

    fn try_from(value: &str) -> (r: Result<Self, PeerIdError>)
        ensures
            r is Ok <==> well_formed_id(value@),
            r matches Ok(p) ==> p@ == value@,
            r matches Err(e) ==> validation(value@) == Err::<(), PeerIdError>(e),
    {
        Self::new(value)
    }
}

impl vstd::std_specs::convert::TryFromSpecImpl<&str> for PeerId {
    /// The result holds a string of its own, which no function of the
    /// borrowed one names: what the conversion gives is stated on `try_from`
    /// itself, by the text.
    open spec fn obeys_try_from_spec() -> bool {
        false
    }

    open spec fn try_from_spec(v: &str) -> Result<Self, PeerIdError> {
        Err(PeerIdError::Empty)
    }
}

impl TryFrom<String> for PeerId {
    type Error = PeerIdError;

    fn try_from(value: String) -> (r: Result<Self, PeerIdError>)
        ensures
            r is Ok <==> well_formed_id(value@),
            r matches Ok(p) ==> p@ == value@,
            r matches Err(e) ==> validation(value@) == Err::<(), PeerIdError>(e),
    {
        match Self::validate(value.as_str()) {
            Ok(()) => Ok(PeerId(value)),
            Err(e) => Err(e),
        }
    }
}

impl vstd::std_specs::convert::TryFromSpecImpl<String> for PeerId {
    open spec fn obeys_try_from_spec() -> bool {
        true
    }

    closed spec fn try_from_spec(v: String) -> Result<Self, PeerIdError> {
        match validation(v@) {
            Ok(()) => Ok(PeerId(v)),
            Err(e) => Err(e),
        }
    }
}

} // verus!
