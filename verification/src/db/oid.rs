//! Record identifiers: twelve raw bytes, written and read as 24 hexadecimal
//! digits (lower case when written; either case when read).
use vstd::prelude::*;
use crate::text::push_char;

verus! {

/// The identifier of a stored record.
#[derive(Clone, Copy, Debug, PartialEq, Eq)]
pub struct ObjectId {
    pub bytes: [u8; 12],
}

/// The lower-case hexadecimal digit for `d` (0 <= d < 16).
pub open spec fn hex_digit(d: nat) -> char
    recommends
        d < 16,
{
    if d < 10 {
        (d + 48) as char
    } else {
        (d + 87) as char
    }
}

/// The value of a hexadecimal digit of either case; `None` for any other character.
pub open spec fn hex_value(c: char) -> Option<nat> {
    if '0' <= c && c <= '9' {
        Some((c as nat - 48) as nat)
    } else if 'a' <= c && c <= 'f' {
        Some((c as nat - 87) as nat)
    } else if 'A' <= c && c <= 'F' {
        Some((c as nat - 55) as nat)
    } else {
        None
    }
}

/// Bytes written as two lower-case hexadecimal digits each, high half first.
pub open spec fn hex_lower(bytes: Seq<u8>) -> Seq<char>
    decreases bytes.len(),
{
    if bytes.len() == 0 {
        seq![]
    } else {
        seq![hex_digit((bytes[0] / 16) as nat), hex_digit((bytes[0] % 16) as nat)]
            + hex_lower(bytes.skip(1))
    }
}

/// The bytes that a string of hexadecimal digit pairs stands for; `None` when
/// the length is odd or a character is not a hexadecimal digit.
pub open spec fn hex_decoded(s: Seq<char>) -> Option<Seq<u8>>
    decreases s.len(),
{
    if s.len() == 0 {
        Some(seq![])
    } else if s.len() == 1 {
        None
    } else {
        match (hex_value(s[0]), hex_value(s[1]), hex_decoded(s.skip(2))) {
            (Some(h), Some(l), Some(rest)) => Some(seq![(h * 16 + l) as u8] + rest),
            _ => None,
        }
    }
}

/// The identifier that a string names: exactly twelve bytes of hexadecimal digits.
pub open spec fn parsed_object_id(s: Seq<char>) -> Option<Seq<u8>> {
    match hex_decoded(s) {
        Some(b) => if b.len() == 12 { Some(b) } else { None },
        None => None,
    }
}

fn hex_digit_exec(d: u8) -> (c: char)
    requires
        d < 16,
    ensures
        c == hex_digit(d as nat),
{
    if d < 10 {
        (48u8 + d) as char
    } else {
        (87u8 + d) as char
    }
}

fn hex_value_exec(c: char) -> (r: Option<u8>)
    ensures
        r matches Some(v) ==> hex_value(c) == Some(v as nat) && v < 16,
        r is None ==> hex_value(c) is None,
{
    if '0' <= c && c <= '9' {
        Some(((c as u32) - 48) as u8)
    } else if 'a' <= c && c <= 'f' {
        Some(((c as u32) - 87) as u8)
    } else if 'A' <= c && c <= 'F' {
        Some(((c as u32) - 55) as u8)
    } else {
        None
    }
}

impl ObjectId {
    /// Whether two identifiers hold the same bytes.
    pub fn same_as(&self, other: &ObjectId) -> (b: bool)
        ensures
            b == (self.bytes@ == other.bytes@),
    {
        let mut i: usize = 0;
        while i < 12
            invariant
                i <= 12,
                forall|j: int| 0 <= j < i ==> self.bytes@[j] == other.bytes@[j],
            decreases 12 - i,
        {
            if self.bytes[i] != other.bytes[i] {
                return false;
            }
            i = i + 1;
        }
        assert(self.bytes@ =~= other.bytes@);
        true
    }

    /// The identifier written as 24 lower-case hexadecimal digits, as it is displayed.
    pub fn to_hex(&self) -> (s: String)
        ensures
            s@ == hex_lower(self.bytes@),
    {
        let mut s = String::new();
        let ghost b = self.bytes@;
        let mut i: usize = 0;
        assert(b.skip(0) =~= b);
        while i < 12
            invariant
                b == self.bytes@,
                b.len() == 12,
                i <= 12,
                hex_lower(b) == s@ + hex_lower(b.skip(i as int)),
            decreases 12 - i,
        {
            let byte = self.bytes[i];
            let ghost s0 = s@;
            assert(b.skip(i as int)[0] == byte);
            assert(b.skip(i as int).skip(1) =~= b.skip(i + 1));
            push_char(&mut s, hex_digit_exec(byte / 16));
            push_char(&mut s, hex_digit_exec(byte % 16));
            i = i + 1;
            assert(s0 + hex_lower(b.skip(i - 1)) =~= s@ + hex_lower(b.skip(i as int)));
        }
        assert(s@ + hex_lower(b.skip(12)) =~= s@);
        s
    }

    /// Reads an identifier from exactly 24 hexadecimal digits of either case;
    /// `None` for any other string.
    pub fn parse_str(s: &str) -> (r: Option<ObjectId>)
        ensures
            r matches Some(id) ==> parsed_object_id(s@) == Some(id.bytes@),
            r is None ==> parsed_object_id(s@) is None,
    {
        let v = crate::text::chars_of(s);
        if v.len() != 24 {
            proof {
                lemma_decoded_len(s@);
            }
            return None;
        }
        let mut bytes = [0u8; 12];
        let mut i: usize = 0;
        assert(s@.skip(0) =~= s@);
        while i < 12
            invariant
                v@ == s@,
                v@.len() == 24,
                i <= 12,
                hex_decoded(s@) == (match hex_decoded(s@.skip(2 * i)) {
                    Some(rest) => Some(bytes@.take(i as int) + rest),
                    None => None,
                }),
            decreases 12 - i,
        {
            let ghost tail = s@.skip(2 * i);
            assert(tail[0] == v@[2 * i as int] && tail[1] == v@[2 * i + 1]);
            assert(tail.skip(2) =~= s@.skip(2 * (i + 1)));
            let hi = hex_value_exec(v[2 * i]);
            let lo = hex_value_exec(v[2 * i + 1]);
            match (hi, lo) {
                (Some(h), Some(l)) => {
                    let ghost before = bytes@;
                    bytes[i] = h * 16 + l;
                    proof {
                        assert(bytes@.take(i + 1) =~= before.take(i as int).push((h * 16 + l) as u8));
                        match hex_decoded(s@.skip(2 * (i + 1))) {
                            Some(rest) => {
                                assert(before.take(i as int) + (seq![(h * 16 + l) as u8] + rest)
                                    =~= bytes@.take(i + 1) + rest);
                            },
                            None => {},
                        }
                    }
                    i = i + 1;
                },
                _ => {
                    return None;
                },
            }
        }
        proof {
            assert(s@.skip(24) =~= seq![]);
            assert(bytes@.take(12) + seq![] =~= bytes@);
        }
        Some(ObjectId { bytes })
    }
}

/// A decoded string has half as many bytes as the string has characters.
pub proof fn lemma_decoded_len(s: Seq<char>)
    ensures
        hex_decoded(s) matches Some(b) ==> b.len() * 2 == s.len(),
    decreases s.len(),
{
    if s.len() >= 2 {
        lemma_decoded_len(s.skip(2));
    }
}

/// Reading back what an identifier is written as gives the identifier again.
pub proof fn lemma_hex_round_trip(bytes: Seq<u8>)
    ensures
        hex_decoded(hex_lower(bytes)) == Some(bytes),
    decreases bytes.len(),
{
    if bytes.len() > 0 {
        let h = hex_lower(bytes);
        lemma_hex_round_trip(bytes.skip(1));
        assert(h.skip(2) =~= hex_lower(bytes.skip(1)));
        let b = bytes[0];
        assert(hex_value(hex_digit((b / 16) as nat)) == Some((b / 16) as nat));
        assert(hex_value(hex_digit((b % 16) as nat)) == Some((b % 16) as nat));
        assert((((b / 16) as nat) * 16 + ((b % 16) as nat)) as u8 == b);
        assert(seq![b] + bytes.skip(1) =~= bytes);
    } else {
        assert(hex_lower(bytes) =~= seq![]);
        assert(bytes =~= seq![]);
    }
}

/// Every identifier, written out and read back, is the same identifier.
pub proof fn object_id_round_trip(id: ObjectId)
    ensures
        parsed_object_id(hex_lower(id.bytes@)) == Some(id.bytes@),
{
    lemma_hex_round_trip(id.bytes@);
}

} // verus!
