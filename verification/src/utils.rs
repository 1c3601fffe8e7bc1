//! Frame-level helpers shared by every command: the rolling additive
//! checksum, the outbound frame builder, numeric clamping and the
//! signed-to-unsigned opcode reinterpretation.
use vstd::prelude::*;

verus! {

/// Sum of all bytes of `s`, as an unbounded integer.
pub open spec fn byte_sum(s: Seq<u8>) -> int
    decreases s.len(),
{
    if s.len() == 0 {
        0
    } else {
        byte_sum(s.drop_last()) + s.last()
    }
}

/// The trailing checksum byte of a frame whose preceding bytes are `body`:
/// the additive rolling sum truncated to one byte.
pub open spec fn frame_checksum(body: Seq<u8>) -> u8 {
    (byte_sum(body) % 256) as u8
}

/// `body` with its checksum byte appended.
pub open spec fn checksummed(body: Seq<u8>) -> Seq<u8> {
    body.push(frame_checksum(body))
}

/// A buffer validates when its last byte is the checksum of everything
/// before it.
pub open spec fn frame_valid(s: Seq<u8>) -> bool {
    s.len() >= 1 && s.last() == frame_checksum(s.drop_last())
}

/// Clamp `x` into the inclusive range `[lo, hi]`.
pub open spec fn clamp_spec(x: u8, lo: u8, hi: u8) -> u8 {
    if x < lo {
        lo
    } else if x > hi {
        hi
    } else {
        x
    }
}

/// The unsigned byte carrying the same bit pattern as the signed `b`.
pub open spec fn u8_of_i8(b: i8) -> u8 {
    if b >= 0 {
        b as u8
    } else {
        (b + 256) as u8
    }
}

/// Byte sums are never negative.
pub proof fn lemma_byte_sum_nonneg(s: Seq<u8>)
    ensures
        byte_sum(s) >= 0,
    decreases s.len(),
{
    if s.len() > 0 {
        lemma_byte_sum_nonneg(s.drop_last());
    }
}

/// Rewriting one byte moves the sum by exactly the difference.
pub proof fn lemma_byte_sum_update(s: Seq<u8>, i: int, v: u8)
    requires
        0 <= i < s.len(),
    ensures
        byte_sum(s.update(i, v)) == byte_sum(s) - s[i] + v,
    decreases s.len(),
{
    if i == s.len() - 1 {
        assert(s.update(i, v).drop_last() =~= s.drop_last());
    } else {
        assert(s.update(i, v).drop_last() =~= s.drop_last().update(i, v));
        lemma_byte_sum_update(s.drop_last(), i, v);
    }
}

/// A frame built by appending the checksum of its body always validates.
pub proof fn lemma_checksummed_frame_validates(body: Seq<u8>)
    ensures
        frame_valid(checksummed(body)),
{
    assert(checksummed(body).drop_last() =~= body);
}

/// Every frame the builder produces passes validation.
pub proof fn lemma_built_frame_validates(cmd: Seq<u8>, data: Seq<u8>)
    ensures
        frame_valid(frame_bytes(cmd, data)),
{
    let n = cmd.len() + data.len() + 3;
    lemma_checksummed_frame_validates(
        cmd + seq![(n % 256) as u8, ((n / 256) % 256) as u8] + data,
    );
}

/// Shifting an integer by a nonzero amount smaller than the modulus
/// always changes its remainder.
proof fn lemma_mod_shift_changes(a: int, d: int)
    requires
        d != 0,
        -256 < d < 256,
    ensures
        (a + d) % 256 != a % 256,
{
    vstd::arithmetic::div_mod::lemma_fundamental_div_mod(a, 256);
    vstd::arithmetic::div_mod::lemma_fundamental_div_mod(a + d, 256);
    if (a + d) % 256 == a % 256 {
        let k = (a + d) / 256 - a / 256;
        assert(d == 256 * k);
        assert(k != 0);
        assert(k >= 1 || k <= -1);
    }
}

/// Corrupting any single byte of a checksummed frame — the checksum byte
/// included — makes validation fail.
pub proof fn lemma_corruption_detected(body: Seq<u8>, i: int, v: u8)
    requires
        0 <= i < checksummed(body).len(),
        v != checksummed(body)[i],
    ensures
        !frame_valid(checksummed(body).update(i, v)),
{
    let frame = checksummed(body);
    let bad = frame.update(i, v);
    if i == body.len() {
        assert(bad.drop_last() =~= body);
        assert(bad.last() == v);
    } else {
        assert(bad.drop_last() =~= body.update(i, v));
        assert(bad.last() == frame_checksum(body));
        lemma_byte_sum_update(body, i, v);
        lemma_mod_shift_changes(byte_sum(body), v - body[i]);
    }
}

/// Computes the additive rolling checksum over `data`.
pub fn compute_checksum(data: &[u8]) -> (r: u8)
    ensures
        r == frame_checksum(data@),
{
    let mut acc: u8 = 0;
    let mut i: usize = 0;
    while i < data.len()
        invariant
            0 <= i <= data@.len(),
            acc == (byte_sum(data@.take(i as int)) % 256) as u8,
        decreases data@.len() - i,
    {
        let b = data[i];
        proof {
            assert(data@.take(i as int + 1).drop_last() =~= data@.take(i as int));
            lemma_byte_sum_nonneg(data@.take(i as int));
            vstd::arithmetic::div_mod::lemma_add_mod_noop(
                byte_sum(data@.take(i as int)),
                b as int,
                256,
            );
        }
        acc = ((acc as u16 + b as u16) % 256) as u8;
        i = i + 1;
    }
    proof {
        assert(data@.take(data@.len() as int) =~= data@);
    }
    acc
}

/// Validates a response buffer: its last byte must equal the checksum of
/// all bytes before it. An empty buffer never validates.
pub fn verify_resp(resp: &[u8]) -> (r: bool)
    ensures
        r == frame_valid(resp@),
{
    if resp.len() == 0 {
        return false;
    }
    let body = &resp[0..resp.len() - 1];
    let expected = compute_checksum(body);
    proof {
        assert(resp@.subrange(0, resp@.len() - 1) =~= resp@.drop_last());
    }
    resp[resp.len() - 1] == expected
}

/// Inclusive-range clamping for the protocol's small numeric fields.
pub struct Clamp;

impl Clamp {
    /// Constrains `val` into `[lo, hi]`.
    pub fn clamp(val: u8, lo: u8, hi: u8) -> (r: u8)
        requires
            lo <= hi,
        ensures
            r == clamp_spec(val, lo, hi),
            lo <= r <= hi,
    {
        if val < lo {
            lo
        } else if val > hi {
            hi
        } else {
            val
        }
    }
}

/// Clamping is idempotent and always lands inside the range.
pub proof fn lemma_clamp_idempotent(x: u8, lo: u8, hi: u8)
    requires
        lo <= hi,
    ensures
        clamp_spec(clamp_spec(x, lo, hi), lo, hi) == clamp_spec(x, lo, hi),
        lo <= clamp_spec(x, lo, hi) <= hi,
{
}

/// Reinterprets a signed opcode array as the unsigned bytes that go on
/// the wire.
pub fn i8_to_u8vec(arr: &[i8]) -> (r: Vec<u8>)
    ensures
        r@.len() == arr@.len(),
        forall|i: int| 0 <= i < arr@.len() ==> r@[i] == u8_of_i8(arr@[i]),
{
    let mut out: Vec<u8> = Vec::new();
    let mut i: usize = 0;
    while i < arr.len()
        invariant
            0 <= i <= arr@.len(),
            out@.len() == i,
            forall|j: int| 0 <= j < i ==> out@[j] == u8_of_i8(arr@[j]),
        decreases arr@.len() - i,
    {
        let b: i16 = arr[i] as i16;
        if b >= 0 {
            out.push(b as u8);
        } else {
            out.push((b + 256) as u8);
        }
        i = i + 1;
    }
    out
}

/// The complete outbound frame for an opcode and an optional payload:
/// opcode bytes, two little-endian length bytes counting the whole frame,
/// the payload, and the trailing checksum.
pub open spec fn frame_bytes(cmd: Seq<u8>, data: Seq<u8>) -> Seq<u8> {
    let n = cmd.len() + data.len() + 3;
    checksummed(cmd + seq![(n % 256) as u8, ((n / 256) % 256) as u8] + data)
}

/// Builds the wire frame for `cmd` with the optional payload `data`.
///
/// The two length bytes count every byte of the finished frame, the
/// checksum byte included, so the whole frame must fit in 16 bits.
pub fn build_command_array_with_options_toggle_enabled(cmd: &[u8], data: Option<&[u8]>) -> (r: Vec<
    u8,
>)
    requires
        cmd@.len() + data_seq_of(data).len() + 3 <= 0xFFFF,
    ensures
        r@ == frame_bytes(cmd@, data_seq_of(data)),
{
    let mut body: Vec<u8> = Vec::new();
    let mut i: usize = 0;
    while i < cmd.len()
        invariant
            0 <= i <= cmd@.len(),
            body@ =~= cmd@.take(i as int),
        decreases cmd@.len() - i,
    {
        body.push(cmd[i]);
        i = i + 1;
    }
    proof {
        assert(cmd@.take(cmd@.len() as int) =~= cmd@);
    }
    let payload_len: usize = match data {
        Some(d) => d.len(),
        None => 0,
    };
    let n: usize = cmd.len() + payload_len + 3;
    body.push((n % 256) as u8);
    body.push((n / 256 % 256) as u8);
    match data {
        Some(d) => {
            let mut j: usize = 0;
            while j < d.len()
                invariant
                    0 <= j <= d@.len(),
                    body@ =~= cmd@ + seq![
                        ((cmd@.len() + d@.len() + 3) % 256) as u8,
                        ((cmd@.len() + d@.len() + 3) / 256 % 256) as u8,
                    ] + d@.take(j as int),
                decreases d@.len() - j,
            {
                body.push(d[j]);
                j = j + 1;
            }
            proof {
                assert(d@.take(d@.len() as int) =~= d@);
            }
        },
        None => {
            proof {
                assert(body@ =~= cmd@ + seq![
                    ((cmd@.len() + 3) % 256) as u8,
                    ((cmd@.len() + 3) / 256 % 256) as u8,
                ] + Seq::<u8>::empty());
            }
        },
    }
    let checksum = compute_checksum(body.as_slice());
    body.push(checksum);
    body
}

/// The payload view of an optional byte slice: the empty sequence when
/// absent.
pub open spec fn data_seq_of(data: Option<&[u8]>) -> Seq<u8> {
    match data {
        Some(d) => d@,
        None => Seq::empty(),
    }
}

/// Relies on `String::from_utf8`: it returns the decoded string exactly
/// when the bytes are valid UTF-8, and rejects everything else.
#[verifier::external_body]
pub(crate) fn utf8_to_string(bytes: &[u8]) -> (r: Option<String>)
    ensures
        r is Some <==> vstd::utf8::valid_utf8(bytes@),
        r matches Some(s) ==> s@ == vstd::utf8::decode_utf8(bytes@),
{
    match String::from_utf8(bytes.to_vec()) {
        Ok(s) => Some(s),
        Err(_) => None,
    }
}

/// Decoding a buffer of plain ASCII bytes succeeds and yields exactly
/// those bytes read as characters.
pub proof fn lemma_ascii_bytes_decode(bytes: Seq<u8>)
    requires
        forall|i: int| 0 <= i < bytes.len() ==> bytes[i] < 128,
    ensures
        vstd::utf8::valid_utf8(bytes),
        vstd::utf8::decode_utf8(bytes) =~= bytes.map_values(|b: u8| b as char),
{
    let chars = bytes.map_values(|b: u8| b as char);
    assert forall|i: int| 0 <= i < chars.len() implies '\0' <= #[trigger] chars[i]
        <= '\u{7f}' by {
        assert(bytes[i] < 128);
    }
    assert(vstd::utf8::is_ascii_chars(chars));
    vstd::utf8::is_ascii_chars_encode_utf8(chars);
    assert(vstd::utf8::encode_utf8(chars) =~= bytes);
    vstd::utf8::encode_utf8_valid_utf8(chars);
    vstd::utf8::encode_utf8_decode_utf8(chars);
}

} // verus!
