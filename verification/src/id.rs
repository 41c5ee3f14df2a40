//! Unique entity identifiers: twelve raw bytes, displayed and parsed as
//! twenty-four hexadecimal digits.

use vstd::prelude::*;

verus! {

/// Error returned when a string cannot be parsed as an identifier.
#[derive(Clone, Copy, Debug)]
pub struct MalformedIdError;

/// A unique identifier for an entity.
///
/// Two identifiers are equal exactly when their underlying bytes are
/// equal, and the textual form (`to_hex`) parses back (`parse`) to the
/// same identifier.
#[derive(Debug, PartialEq, Eq, Hash)]
pub struct Id {
    bytes: Vec<u8>,
}

impl View for Id {
    type V = Seq<u8>;

    closed spec fn view(&self) -> Seq<u8> {
        self.bytes@
    }
}

/// The character for one hexadecimal digit value.
pub open spec fn hex_digit(n: nat) -> char
    recommends
        n < 16,
{
    if n == 0 {
        '0'
    } else if n == 1 {
        '1'
    } else if n == 2 {
        '2'
    } else if n == 3 {
        '3'
    } else if n == 4 {
        '4'
    } else if n == 5 {
        '5'
    } else if n == 6 {
        '6'
    } else if n == 7 {
        '7'
    } else if n == 8 {
        '8'
    } else if n == 9 {
        '9'
    } else if n == 10 {
        'a'
    } else if n == 11 {
        'b'
    } else if n == 12 {
        'c'
    } else if n == 13 {
        'd'
    } else if n == 14 {
        'e'
    } else {
        'f'
    }
}

/// The value of one hexadecimal digit character, upper or lower case,
/// or `None` for any other character.
pub open spec fn hex_value(c: char) -> Option<u8> {
    if c == '0' {
        Some(0u8)
    } else if c == '1' {
        Some(1u8)
    } else if c == '2' {
        Some(2u8)
    } else if c == '3' {
        Some(3u8)
    } else if c == '4' {
        Some(4u8)
    } else if c == '5' {
        Some(5u8)
    } else if c == '6' {
        Some(6u8)
    } else if c == '7' {
        Some(7u8)
    } else if c == '8' {
        Some(8u8)
    } else if c == '9' {
        Some(9u8)
    } else if c == 'a' || c == 'A' {
        Some(10u8)
    } else if c == 'b' || c == 'B' {
        Some(11u8)
    } else if c == 'c' || c == 'C' {
        Some(12u8)
    } else if c == 'd' || c == 'D' {
        Some(13u8)
    } else if c == 'e' || c == 'E' {
        Some(14u8)
    } else if c == 'f' || c == 'F' {
        Some(15u8)
    } else {
        None
    }
}

/// The hexadecimal rendering of a byte sequence: two digits per byte,
/// lower case, high nibble first.
pub open spec fn hex_of(bytes: Seq<u8>) -> Seq<char> {
    Seq::new(
        bytes.len() * 2,
        |i: int|
            if i % 2 == 0 {
                hex_digit(bytes[i / 2] as nat / 16)
            } else {
                hex_digit(bytes[i / 2] as nat % 16)
            },
    )
}

/// Whether every character of `s` is a hexadecimal digit.
pub open spec fn all_hex_digits(s: Seq<char>) -> bool {
    forall|i: int| 0 <= i < s.len() ==> #[trigger] hex_value(s[i]) is Some
}

/// The bytes denoted by a sequence of hexadecimal digits, two digits per
/// byte, high nibble first.
pub open spec fn parsed_hex(s: Seq<char>) -> Seq<u8>
    recommends
        s.len() % 2 == 0,
        all_hex_digits(s),
{
    Seq::new(
        s.len() / 2,
        |i: int| (hex_value(s[2 * i])->Some_0 * 16 + hex_value(s[2 * i + 1])->Some_0) as u8,
    )
}

/// Whether `s` is a well-formed textual identifier.
pub open spec fn valid_id_text(s: Seq<char>) -> bool {
    s.len() == 24 && all_hex_digits(s)
}

/// Whether `s` is in canonical form: every character is the lower-case
/// digit of its own value.
pub open spec fn canonical_hex(s: Seq<char>) -> bool {
    forall|i: int|
        0 <= i < s.len() ==> #[trigger] s[i] == hex_digit(hex_value(s[i])->Some_0 as nat)
}

/// The value of one hexadecimal digit character, or `None`.
fn hex_value_of(c: char) -> (r: Option<u8>)
    ensures
        r == hex_value(c),
{
    if c == '0' {
        Some(0u8)
    } else if c == '1' {
        Some(1u8)
    } else if c == '2' {
        Some(2u8)
    } else if c == '3' {
        Some(3u8)
    } else if c == '4' {
        Some(4u8)
    } else if c == '5' {
        Some(5u8)
    } else if c == '6' {
        Some(6u8)
    } else if c == '7' {
        Some(7u8)
    } else if c == '8' {
        Some(8u8)
    } else if c == '9' {
        Some(9u8)
    } else if c == 'a' || c == 'A' {
        Some(10u8)
    } else if c == 'b' || c == 'B' {
        Some(11u8)
    } else if c == 'c' || c == 'C' {
        Some(12u8)
    } else if c == 'd' || c == 'D' {
        Some(13u8)
    } else if c == 'e' || c == 'E' {
        Some(14u8)
    } else if c == 'f' || c == 'F' {
        Some(15u8)
    } else {
        None
    }
}

/// Appends the character for one hexadecimal digit value to `out`.
fn push_hex_digit(out: &mut String, d: u8)
    requires
        d < 16,
    ensures
        final(out)@ == old(out)@.push(hex_digit(d as nat)),
{
    proof {
        reveal_strlit("0");
        reveal_strlit("1");
        reveal_strlit("2");
        reveal_strlit("3");
        reveal_strlit("4");
        reveal_strlit("5");
        reveal_strlit("6");
        reveal_strlit("7");
        reveal_strlit("8");
        reveal_strlit("9");
        reveal_strlit("a");
        reveal_strlit("b");
        reveal_strlit("c");
        reveal_strlit("d");
        reveal_strlit("e");
        reveal_strlit("f");
    }
    if d == 0 {
        out.append("0");
    } else if d == 1 {
        out.append("1");
    } else if d == 2 {
        out.append("2");
    } else if d == 3 {
        out.append("3");
    } else if d == 4 {
        out.append("4");
    } else if d == 5 {
        out.append("5");
    } else if d == 6 {
        out.append("6");
    } else if d == 7 {
        out.append("7");
    } else if d == 8 {
        out.append("8");
    } else if d == 9 {
        out.append("9");
    } else if d == 10 {
        out.append("a");
    } else if d == 11 {
        out.append("b");
    } else if d == 12 {
        out.append("c");
    } else if d == 13 {
        out.append("d");
    } else if d == 14 {
        out.append("e");
    } else {
        out.append("f");
    }
    proof {
        assert(final(out)@ =~= old(out)@.push(hex_digit(d as nat)));
    }
}

impl Id {
    /// Whether the identifier holds exactly twelve bytes.
    #[verifier::type_invariant]
    closed spec fn twelve_bytes(self) -> bool {
        self.bytes@.len() == 12
    }

    /// Builds an identifier from its raw bytes.
    pub fn from_bytes(bytes: Vec<u8>) -> (r: Id)
        requires
            bytes@.len() == 12,
        ensures
            r@ == bytes@,
    {
        Id { bytes }
    }

    /// The raw bytes of the identifier.
    pub fn as_bytes(&self) -> (r: &Vec<u8>)
        ensures
            r@ == self@,
    {
        &self.bytes
    }

    /// Parses the textual form of an identifier: exactly twenty-four
    /// hexadecimal digits, either case.
    pub fn parse(s: &str) -> (r: Result<Id, MalformedIdError>)
        ensures
            match r {
                Ok(id) => valid_id_text(s@) && id@ == parsed_hex(s@),
                Err(_) => !valid_id_text(s@),
            },
    {
        let n = s.unicode_len();
        if n != 24 {
            return Err(MalformedIdError);
        }
        let mut bytes: Vec<u8> = Vec::new();
        let mut i: usize = 0;
        while i < 12
            invariant
                0 <= i <= 12,
                n == 24,
                s@.len() == 24,
                bytes@.len() == i,
                forall|j: int| 0 <= j < 2 * i ==> #[trigger] hex_value(s@[j]) is Some,
                forall|k: int|
                    0 <= k < i ==> #[trigger] bytes@[k] == (hex_value(s@[2 * k])->Some_0 * 16
                        + hex_value(s@[2 * k + 1])->Some_0) as u8,
            decreases 12 - i,
        {
            let hi = match hex_value_of(s.get_char(2 * i)) {
                Some(v) => v,
                None => {
                    return Err(MalformedIdError);
                },
            };
            let lo = match hex_value_of(s.get_char(2 * i + 1)) {
                Some(v) => v,
                None => {
                    return Err(MalformedIdError);
                },
            };
            assert(hi < 16 && lo < 16);
            bytes.push(hi * 16 + lo);
            i = i + 1;
        }
        proof {
            assert(bytes@ =~= parsed_hex(s@));
        }
        Ok(Id { bytes })
    }

    /// The textual form of the identifier: twenty-four lower-case
    /// hexadecimal digits.
    pub fn to_hex(&self) -> (r: String)
        ensures
            r@ == hex_of(self@),
            valid_id_text(r@),
            parsed_hex(r@) == self@,
    {
        proof {
            use_type_invariant(self);
        }
        let mut out = String::new();
        let mut i: usize = 0;
        while i < 12
            invariant
                0 <= i <= 12,
                self.bytes@.len() == 12,
                self@ == self.bytes@,
                out@.len() == 2 * i,
                forall|j: int| 0 <= j < 2 * i ==> #[trigger] out@[j] == hex_of(self@)[j],
            decreases 12 - i,
        {
            let b = self.bytes[i];
            push_hex_digit(&mut out, b / 16);
            push_hex_digit(&mut out, b % 16);
            i = i + 1;
        }
        proof {
            assert(out@ =~= hex_of(self@));
            lemma_parse_of_hex(self@);
        }
        out
    }

    /// Whether two identifiers are equal: exactly when their underlying
    /// bytes are equal.
    pub fn same_as(&self, other: &Id) -> (r: bool)
        ensures
            r == (self@ == other@),
    {
        if self.bytes.len() != other.bytes.len() {
            return false;
        }
        let mut i: usize = 0;
        while i < self.bytes.len()
            invariant
                0 <= i <= self.bytes@.len(),
                self.bytes@.len() == other.bytes@.len(),
                forall|j: int| 0 <= j < i ==> self.bytes@[j] == other.bytes@[j],
            decreases self.bytes@.len() - i,
        {
            if self.bytes[i] != other.bytes[i] {
                proof {
                    assert(self@[i as int] != other@[i as int]);
                }
                return false;
            }
            i = i + 1;
        }
        proof {
            assert(self@ =~= other@);
        }
        true
    }

    /// Copies the identifier.
    pub fn dup(&self) -> (r: Id)
        ensures
            r@ == self@,
    {
        proof {
            use_type_invariant(self);
        }
        let mut bytes: Vec<u8> = Vec::new();
        let mut i: usize = 0;
        while i < 12
            invariant
                0 <= i <= 12,
                self.bytes@.len() == 12,
                self@ == self.bytes@,
                bytes@ =~= self@.take(i as int),
            decreases 12 - i,
        {
            bytes.push(self.bytes[i]);
            i = i + 1;
        }
        proof {
            assert(bytes@ =~= self@);
        }
        Id { bytes }
    }
}

impl Clone for Id {
    /// Copies the identifier.
    fn clone(&self) -> (r: Id)
        ensures
            r@ == self@,
    {
        self.dup()
    }
}

/// Parsing the textual form of an identifier yields the identifier back:
/// display and parse are inverse operations.
pub proof fn lemma_parse_of_hex(bytes: Seq<u8>)
    ensures
        hex_of(bytes).len() == 2 * bytes.len(),
        all_hex_digits(hex_of(bytes)),
        parsed_hex(hex_of(bytes)) == bytes,
{
    let s = hex_of(bytes);
    assert forall|i: int| 0 <= i < s.len() implies #[trigger] hex_value(s[i]) is Some by {
        let b = bytes[i / 2] as nat;
        assert(b / 16 < 16 && b % 16 < 16);
    }
    assert forall|i: int| 0 <= i < bytes.len() implies #[trigger] parsed_hex(s)[i] == bytes[i] by {
        let b = bytes[i] as nat;
        assert(b / 16 < 16 && b % 16 < 16);
        assert(hex_value(s[2 * i]) == Some((b / 16) as u8));
        assert(hex_value(s[2 * i + 1]) == Some((b % 16) as u8));
        assert(b / 16 * 16 + b % 16 == b) by {
            vstd::arithmetic::div_mod::lemma_fundamental_div_mod(b as int, 16);
        }
    }
    assert(parsed_hex(s) =~= bytes);
}

/// Rendering the bytes that a well-formed canonical text denotes yields
/// the text back: together with `lemma_parse_of_hex`, display and parse
/// are inverse operations for well-formed input.
pub proof fn lemma_hex_of_parsed(s: Seq<char>)
    requires
        s.len() % 2 == 0,
        all_hex_digits(s),
        canonical_hex(s),
    ensures
        hex_of(parsed_hex(s)) == s,
{
    let b = parsed_hex(s);
    assert forall|i: int| 0 <= i < s.len() implies hex_of(b)[i] == s[i] by {
        let k = i / 2;
        let hi = hex_value(s[2 * k])->Some_0;
        let lo = hex_value(s[2 * k + 1])->Some_0;
        assert(hi < 16 && lo < 16);
        assert(b[k] == hi * 16 + lo);
        assert(b[k] as nat / 16 == hi && b[k] as nat % 16 == lo) by {
            vstd::arithmetic::div_mod::lemma_fundamental_div_mod_converse(
                b[k] as int,
                16,
                hi as int,
                lo as int,
            );
        }
    }
    assert(hex_of(b) =~= s);
}

} // verus!
