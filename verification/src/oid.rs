//! Identities of objects in the version-control store.
//!
//! A commit and a tree are each named by the hash of their content. The engine
//! never looks inside an identity: it compares identities, writes them as
//! hexadecimal text and reads them back from such text.

use vstd::prelude::*;

verus! {

/// The content hash that names a commit or a tree.
///
/// The view of an identity is the sequence of its twenty bytes, and two
/// identities are equal exactly when their views are.
#[derive(Debug, Clone, Copy)]
pub struct Oid {
    pub bytes: [u8; 20],
}

impl View for Oid {
    type V = Seq<u8>;

    open spec fn view(&self) -> Seq<u8> {
        self.bytes@
    }
}

/// The views of a list of identities, in the same order.
pub open spec fn oid_views(oids: Seq<Oid>) -> Seq<Seq<u8>> {
    oids.map_values(|o: Oid| o@)
}

/// The value of a hexadecimal digit, and `None` for any other character.
/// Letters of either case are digits.
pub open spec fn hex_value(c: char) -> Option<nat> {
    let u = c as u32;
    if 0x30 <= u <= 0x39 {
        Some((u - 0x30) as nat)
    } else if 0x41 <= u <= 0x46 {
        Some((u - 0x41 + 10) as nat)
    } else if 0x61 <= u <= 0x66 {
        Some((u - 0x61 + 10) as nat)
    } else {
        None
    }
}

/// The lower-case hexadecimal digit that stands for a value below sixteen.
pub open spec fn hex_digit(v: nat) -> char {
    if v == 0 {
        '0'
    } else if v == 1 {
        '1'
    } else if v == 2 {
        '2'
    } else if v == 3 {
        '3'
    } else if v == 4 {
        '4'
    } else if v == 5 {
        '5'
    } else if v == 6 {
        '6'
    } else if v == 7 {
        '7'
    } else if v == 8 {
        '8'
    } else if v == 9 {
        '9'
    } else if v == 10 {
        'a'
    } else if v == 11 {
        'b'
    } else if v == 12 {
        'c'
    } else if v == 13 {
        'd'
    } else if v == 14 {
        'e'
    } else {
        'f'
    }
}

/// Whether a text can be read as an identity: between one and forty
/// hexadecimal digits.
pub open spec fn is_hex_text(s: Seq<char>) -> bool {
    &&& 1 <= s.len() <= 40
    &&& forall|i: int| 0 <= i < s.len() ==> hex_value(#[trigger] s[i]) is Some
}

/// The value of the digit at position `p` of a text, and zero past its end.
pub open spec fn nibble_at(s: Seq<char>, p: int) -> nat {
    if 0 <= p < s.len() {
        match hex_value(s[p]) {
            Some(v) => v,
            None => 0,
        }
    } else {
        0
    }
}

/// The bytes that a hexadecimal text stands for: two digits to a byte, the
/// first digit of each pair the higher, and zero digits where the text is
/// shorter than forty.
pub open spec fn hex_bytes(s: Seq<char>) -> Seq<u8> {
    Seq::new(20, |i: int| (16 * nibble_at(s, 2 * i) + nibble_at(s, 2 * i + 1)) as u8)
}

/// The hexadecimal text of a sequence of bytes: two lower-case digits for each
/// byte, the higher first.
pub open spec fn hex_text(bytes: Seq<u8>) -> Seq<char> {
    Seq::new(
        2 * bytes.len(),
        |i: int|
            if i % 2 == 0 {
                hex_digit((bytes[i / 2] / 16) as nat)
            } else {
                hex_digit((bytes[i / 2] % 16) as nat)
            },
    )
}

/// `Oid::from_str` of `git2`: reads an identity from hexadecimal text. It
/// succeeds exactly on a text of one to forty hexadecimal digits, and the
/// identity then has the bytes that the digits stand for, with zeros where the
/// text is shorter than forty.
#[verifier::external_body]
pub(crate) fn oid_from_hex(s: &str) -> (r: Result<Oid, git2::Error>)
    ensures
        r is Ok <==> is_hex_text(s@),
        r matches Ok(oid) ==> oid@ == hex_bytes(s@),
{
    let id = git2::Oid::from_str(s)?;
    let mut bytes = [0u8; 20];
    bytes.copy_from_slice(id.as_bytes());
    Ok(Oid { bytes })
}

/// `Oid::to_string` of `git2`: the forty lower-case hexadecimal digits of an
/// identity.
#[verifier::external_body]
pub(crate) fn oid_to_hex(oid: &Oid) -> (r: String)
    ensures
        r@ == hex_text(oid@),
{
    match git2::Oid::from_bytes(&oid.bytes) {
        Ok(id) => id.to_string(),
        Err(_) => String::new(),
    }
}

impl PartialEq for Oid {
    fn eq(&self, other: &Oid) -> (r: bool) {
        let mut i: usize = 0;
        while i < 20
            invariant
                i <= 20,
                forall|j: int| 0 <= j < i ==> self.bytes@[j] == other.bytes@[j],
            decreases 20 - i,
        {
            if self.bytes[i] != other.bytes[i] {
                return false;
            }
            i = i + 1;
        }
        assert(self.bytes@ =~= other.bytes@);
        true
    }
}

impl vstd::std_specs::cmp::PartialEqSpecImpl for Oid {
    open spec fn obeys_eq_spec() -> bool {
        true
    }

    open spec fn eq_spec(&self, other: &Oid) -> bool {
        self@ == other@
    }
}

impl Eq for Oid {
}

impl Oid {
    /// The identity made of the given bytes.
    pub fn from_bytes(bytes: [u8; 20]) -> (r: Oid)
        ensures
            r@ == bytes@,
            r.bytes == bytes,
    {
        Oid { bytes }
    }

    /// The bytes of the identity.
    pub fn as_bytes(&self) -> (r: &[u8; 20])
        ensures
            r@ == self@,
    {
        &self.bytes
    }

    /// The identity written as forty hexadecimal digits.
    pub fn to_hex(&self) -> (r: String)
        ensures
            r@ == hex_text(self@),
            r@.len() == 40,
    {
        oid_to_hex(self)
    }

    /// The short display form of the identity: the first seven digits of its
    /// hexadecimal form.
    pub fn short_id(&self) -> (r: String)
        ensures
            r@ == hex_text(self@).take(7),
    {
        let hex = oid_to_hex(self);
        let short = hex.as_str().substring_char(0, 7);
        String::from_str(short)
    }

    /// Whether the identity occurs in `list`.
    pub fn is_in(&self, list: &Vec<Oid>) -> (r: bool)
        ensures
            r == oid_views(list@).contains(self@),
    {
        let mut i: usize = 0;
        while i < list.len()
            invariant
                i <= list.len(),
                forall|j: int| 0 <= j < i ==> list@[j]@ != self@,
            decreases list.len() - i,
        {
            if list[i] == *self {
                assert(oid_views(list@)[i as int] == self@);
                return true;
            }
            i = i + 1;
        }
        false
    }
}

} // verus!
