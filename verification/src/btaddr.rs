//! The 48-bit hardware address model: parsing from and formatting to the
//! canonical colon-separated hex form.
use vstd::prelude::*;
use vstd::string::StringSliceAdditionalSpecFns;

use crate::error::SoundcoreError;
use crate::utils::{lemma_ascii_bytes_decode, utf8_to_string};

verus! {

/// A stable 48-bit Bluetooth hardware address. Equality is byte-exact.
#[derive(Clone, Copy, Debug, Eq, Hash, PartialOrd, Ord)]
pub struct BluetoothAdrr {
    pub address: [u8; 6],
}

impl PartialEq for BluetoothAdrr {
    fn eq(&self, o: &BluetoothAdrr) -> (r: bool) {
        let r = self.address[0] == o.address[0] && self.address[1] == o.address[1]
            && self.address[2] == o.address[2] && self.address[3] == o.address[3]
            && self.address[4] == o.address[4] && self.address[5] == o.address[5];
        proof {
            if r {
                assert(self.address@ =~= o.address@);
            }
        }
        r
    }
}

impl vstd::std_specs::cmp::PartialEqSpecImpl for BluetoothAdrr {
    open spec fn obeys_eq_spec() -> bool {
        true
    }

    open spec fn eq_spec(&self, o: &BluetoothAdrr) -> bool {
        self.address@ == o.address@
    }
}

/// ASCII hex digit, either case.
pub open spec fn spec_is_hex_digit(b: u8) -> bool {
    (48 <= b <= 57) || (65 <= b <= 70) || (97 <= b <= 102)
}

/// Numeric value of an ASCII hex digit.
pub open spec fn spec_hex_val(b: u8) -> u8 {
    if 48 <= b <= 57 {
        (b - 48) as u8
    } else if 65 <= b <= 70 {
        (b - 55) as u8
    } else {
        (b - 87) as u8
    }
}

/// The two digits of segment `k` are hex digits.
pub open spec fn spec_segment_ok(s: Seq<u8>, k: int) -> bool {
    spec_is_hex_digit(s[3 * k]) && spec_is_hex_digit(s[3 * k + 1])
}

/// The byte after segment `k` is the `:` separator.
pub open spec fn spec_separator_ok(s: Seq<u8>, k: int) -> bool {
    s[3 * k + 2] == 58
}

/// Canonical address form: six two-digit hex segments joined by colons,
/// seventeen bytes in all.
pub open spec fn spec_valid_addr_bytes(s: Seq<u8>) -> bool {
    &&& s.len() == 17
    &&& forall|k: int| 0 <= k < 6 ==> #[trigger] spec_segment_ok(s, k)
    &&& forall|k: int| 0 <= k < 5 ==> #[trigger] spec_separator_ok(s, k)
}

/// The octet encoded by segment `k`.
pub open spec fn spec_addr_octet(s: Seq<u8>, k: int) -> u8 {
    (16 * spec_hex_val(s[3 * k]) + spec_hex_val(s[3 * k + 1])) as u8
}

/// ASCII byte of the uppercase hex character for a value below sixteen.
pub open spec fn spec_hex_char_byte(d: u8) -> u8 {
    if d < 10 {
        (d + 48) as u8
    } else {
        (d + 55) as u8
    }
}

/// The ASCII bytes of the canonical display form of the six address
/// bytes: uppercase hex segments joined by colons.
pub open spec fn spec_addr_ascii(a: Seq<u8>) -> Seq<u8> {
    Seq::new(
        17,
        |i: int|
            if i % 3 == 2 {
                58u8
            } else if i % 3 == 0 {
                spec_hex_char_byte(((a[i / 3] as int) / 16) as u8)
            } else {
                spec_hex_char_byte(((a[i / 3] as int) % 16) as u8)
            },
    )
}

/// The canonical display form, as characters.
pub open spec fn spec_addr_chars(a: Seq<u8>) -> Seq<char> {
    spec_addr_ascii(a).map_values(|b: u8| b as char)
}

/// Formatting an address and parsing the result gives the same six
/// bytes back: the display form is always a valid canonical address
/// string, and each segment decodes to the byte it encodes.
pub proof fn lemma_addr_round_trip(a: Seq<u8>)
    requires
        a.len() == 6,
    ensures
        vstd::utf8::encode_utf8(spec_addr_chars(a)) =~= spec_addr_ascii(a),
        spec_valid_addr_bytes(spec_addr_ascii(a)),
        forall|k: int| 0 <= k < 6 ==> spec_addr_octet(spec_addr_ascii(a), k) == a[k],
{
    let ascii = spec_addr_ascii(a);
    let chars = spec_addr_chars(a);
    assert forall|i: int| 0 <= i < chars.len() implies '\0' <= #[trigger] chars[i]
        <= '\u{7f}' by {
        assert(ascii[i] < 128);
    }
    assert(vstd::utf8::is_ascii_chars(chars));
    vstd::utf8::is_ascii_chars_encode_utf8(chars);
    assert(vstd::utf8::encode_utf8(chars) =~= ascii);
    assert forall|k: int| 0 <= k < 6 implies #[trigger] spec_segment_ok(ascii, k) by {
        assert((3 * k) % 3 == 0 && (3 * k) / 3 == k) by (nonlinear_arith);
        assert((3 * k + 1) % 3 == 1 && (3 * k + 1) / 3 == k) by (nonlinear_arith);
    }
    assert forall|k: int| 0 <= k < 5 implies #[trigger] spec_separator_ok(ascii, k) by {
        assert((3 * k + 2) % 3 == 2) by (nonlinear_arith);
    }
    assert forall|k: int| 0 <= k < 6 implies #[trigger] spec_addr_octet(ascii, k) == a[k] by {
        assert((3 * k) % 3 == 0 && (3 * k) / 3 == k) by (nonlinear_arith);
        assert((3 * k + 1) % 3 == 1 && (3 * k + 1) / 3 == k) by (nonlinear_arith);
        let b = a[k];
        assert(16 * ((b as int) / 16) + (b as int) % 16 == b as int);
    }
}

/// Parses one ASCII hex digit.
fn parse_hex_digit(b: u8) -> (r: Option<u8>)
    ensures
        r is Some <==> spec_is_hex_digit(b),
        r matches Some(v) ==> v == spec_hex_val(b) && v < 16,
{
    if 48 <= b && b <= 57 {
        Some(b - 48)
    } else if 65 <= b && b <= 70 {
        Some(b - 55)
    } else if 97 <= b && b <= 102 {
        Some(b - 87)
    } else {
        None
    }
}

impl BluetoothAdrr {
    /// Parses the canonical colon-separated hex form. Malformed input —
    /// wrong length, a missing separator, a non-hex digit — is rejected
    /// with `ParseError`.
    pub fn from_str(s: &str) -> (r: Result<BluetoothAdrr, SoundcoreError>)
        ensures
            r is Ok <==> spec_valid_addr_bytes(s.spec_bytes()),
            r matches Ok(a) ==> forall|k: int|
                0 <= k < 6 ==> a.address@[k] == spec_addr_octet(s.spec_bytes(), k),
            r is Err ==> r == Result::<BluetoothAdrr, SoundcoreError>::Err(
                SoundcoreError::ParseError,
            ),
    {
        let b = s.as_bytes();
        if b.len() != 17 {
            return Err(SoundcoreError::ParseError);
        }
        let mut address: [u8; 6] = [0, 0, 0, 0, 0, 0];
        let mut k: usize = 0;
        while k < 6
            invariant
                0 <= k <= 6,
                b@ == s.spec_bytes(),
                b@.len() == 17,
                forall|j: int| 0 <= j < k ==> #[trigger] spec_segment_ok(b@, j),
                forall|j: int| 0 <= j < k && j < 5 ==> #[trigger] spec_separator_ok(b@, j),
                forall|j: int| 0 <= j < k ==> address@[j] == spec_addr_octet(b@, j),
            decreases 6 - k,
        {
            let hi = match parse_hex_digit(b[3 * k]) {
                Some(v) => v,
                None => {
                    proof {
                        assert(!spec_segment_ok(b@, k as int));
                    }
                    return Err(SoundcoreError::ParseError);
                },
            };
            let lo = match parse_hex_digit(b[3 * k + 1]) {
                Some(v) => v,
                None => {
                    proof {
                        assert(!spec_segment_ok(b@, k as int));
                    }
                    return Err(SoundcoreError::ParseError);
                },
            };
            if k < 5 && b[3 * k + 2] != 58 {
                proof {
                    assert(!spec_separator_ok(b@, k as int));
                }
                return Err(SoundcoreError::ParseError);
            }
            address[k] = 16 * hi + lo;
            k = k + 1;
        }
        Ok(BluetoothAdrr { address })
    }

    /// Formats the address in its canonical uppercase colon-separated
    /// form.
    pub fn to_string(&self) -> (r: String)
        ensures
            r@ == spec_addr_chars(self.address@),
    {
        let mut bytes: Vec<u8> = Vec::new();
        let mut k: usize = 0;
        while k < 6
            invariant
                0 <= k <= 6,
                bytes@.len() == if k == 0 {
                    0int
                } else {
                    3 * k - 1
                },
                forall|i: int|
                    0 <= i < bytes@.len() ==> bytes@[i] == spec_addr_ascii(self.address@)[i],
            decreases 6 - k,
        {
            if k > 0 {
                bytes.push(58);
            }
            let octet = self.address[k];
            bytes.push(hex_char_byte(octet / 16));
            bytes.push(hex_char_byte(octet % 16));
            k = k + 1;
        }
        proof {
            assert(bytes@ =~= spec_addr_ascii(self.address@));
            assert forall|i: int| 0 <= i < bytes@.len() implies bytes@[i] < 128 by {
                assert(bytes@[i] == spec_addr_ascii(self.address@)[i]);
            }
            lemma_ascii_bytes_decode(bytes@);
            assert(bytes@.map_values(|b: u8| b as char) =~= spec_addr_chars(self.address@));
        }
        let r = utf8_to_string(bytes.as_slice());
        match r {
            Some(s) => s,
            None => {
                // Unreachable: the buffer above is pure ASCII.
                proof {
                    assert(false);
                }
                String::new()
            },
        }
    }
}

/// The ASCII byte of the uppercase hex character for a value below
/// sixteen.
fn hex_char_byte(d: u8) -> (r: u8)
    requires
        d < 16,
    ensures
        r == spec_hex_char_byte(d),
        r < 128,
{
    if d < 10 {
        d + 48
    } else {
        d + 55
    }
}

} // verus!
