use vstd::prelude::*;
use vstd::slice::slice_to_vec;
use vstd::utf8::decode_utf8;
use vstd::utf8::encode_utf8;
use vstd::utf8::valid_utf8;

verus! {

/// What `String::from_utf8_lossy` makes of a byte sequence: the decoded
/// characters, with U+FFFD in place of every malformed run.
pub uninterp spec fn lossy_text(bytes: Seq<u8>) -> Seq<char>;

/// Calls `String::from_utf8_lossy` and takes ownership of what it returns.
/// The result is a function of the bytes alone, so it carries the name
/// `lossy_text`. One fact is claimed of it beyond that: bytes that are valid
/// UTF-8 decode to the characters they encode, with nothing replaced.
#[verifier::external_body]
fn decode_lossy(bytes: &Vec<u8>) -> (r: String)
    ensures
        r@ == lossy_text(bytes@),
        valid_utf8(bytes@) ==> r@ == decode_utf8(bytes@),
{
    String::from_utf8_lossy(bytes).into_owned()
}

/// `String::push` appends the one character to the string.
pub assume_specification[ String::push ](s: &mut String, c: char)
    ensures
        final(s)@ == old(s)@.push(c),
;

/// An immutable run of raw bytes: symbol names, literal source slices.
#[derive(Eq, PartialEq, Hash, Debug)]
pub struct Text(pub Vec<u8>);

impl View for Text {
    type V = Seq<u8>;

    open spec fn view(&self) -> Seq<u8> {
        self.0@
    }
}

impl Text {
    /// The text of the given bytes.
    pub fn new(t: Vec<u8>) -> (r: Self)
        ensures
            r.0 == t,
            r@ == t@,
    {
        Text(t)
    }

    /// The UTF-8 bytes of a string.
    pub fn from_string(s: String) -> (r: Self)
        ensures
            r@ == encode_utf8(s@),
    {
        Self::new(slice_to_vec(s.as_str().as_bytes()))
    }

    /// The UTF-8 bytes of a string slice.
    pub fn from_str(s: &str) -> (r: Self)
        ensures
            r@ == encode_utf8(s@),
    {
        Self::new(slice_to_vec(s.as_bytes()))
    }

    /// The number of bytes.
    pub fn len(&self) -> (n: usize)
        ensures
            n == self@.len(),
    {
        self.0.len()
    }

    /// The byte at position `i`, if there is one.
    pub fn get(&self, i: usize) -> (r: Option<&u8>)
        ensures
            i < self@.len() ==> r == Some(&self@[i as int]),
            i >= self@.len() ==> r.is_none(),
    {
        if i < self.0.len() {
            Some(&self.0[i])
        } else {
            None
        }
    }

    /// A text that holds a copy of the bytes.
    pub fn from_slice(slice: &[u8]) -> (r: Self)
        ensures
            r@ == slice@,
    {
        Text::new(slice_to_vec(slice))
    }

    /// The index of the first byte at or after `skip` that `cond` accepts, or
    /// the length when it accepts none.
    pub fn find_first<F>(&self, cond: F, skip: usize) -> (r: usize) where F: Fn(&u8) -> bool
        requires
            forall|i: int| skip <= i < self@.len() ==> call_requires(cond, (&self@[i],)),
        ensures
            r <= self@.len(),
            r < self@.len() ==> skip <= r && call_ensures(cond, (&self@[r as int],), true),
            forall|i: int| skip <= i < r ==> call_ensures(cond, (&self@[i],), false),
    {
        let n = self.0.len();
        let mut i: usize = skip;
        while i < n
            invariant
                n == self@.len(),
                skip <= i,
                forall|j: int| skip <= j < self@.len() ==> call_requires(cond, (&self@[j],)),
                forall|j: int| skip <= j < i ==> call_ensures(cond, (&self@[j],), false),
            decreases n - i,
        {
            if cond(&self.0[i]) {
                return i;
            }
            i = i + 1;
        }
        n
    }

    /// The bytes read as UTF-8, malformed runs replaced.
    pub fn to_string(&self) -> (r: String)
        ensures
            r@ == lossy_text(self@),
            valid_utf8(self@) ==> r@ == decode_utf8(self@),
    {
        decode_lossy(&self.0)
    }

    /// Whether two texts hold the same bytes.
    pub fn same(&self, other: &Text) -> (r: bool)
        ensures
            r == (self@ == other@),
    {
        let n = self.0.len();
        if other.0.len() != n {
            return false;
        }
        let mut i: usize = 0;
        while i < n
            invariant
                n == self@.len(),
                n == other@.len(),
                i <= n,
                forall|j: int| 0 <= j < i ==> self@[j] == other@[j],
            decreases n - i,
        {
            if self.0[i] != other.0[i] {
                return false;
            }
            i = i + 1;
        }
        assert(self@ =~= other@);
        true
    }
}

impl Clone for Text {
    fn clone(&self) -> (r: Self)
        ensures
            r@ == self@,
    {
        Text(self.0.clone())
    }
}

} // verus!
