//! Little-endian readers, the XOR deobfuscation used by flight-log records,
//! and a byte-substring search.

use vstd::prelude::*;

verus! {

/// The `u16` read little-endian from two bytes.
pub open spec fn spec_u16_le(lo: u8, hi: u8) -> u16 {
    (lo as u16) | ((hi as u16) << 8)
}

/// The `i16` read little-endian from two bytes.
pub open spec fn spec_i16_le(lo: u8, hi: u8) -> i16 {
    spec_u16_le(lo, hi) as i16
}

/// The `u32` read little-endian from four bytes.
pub open spec fn spec_u32_le(b0: u8, b1: u8, b2: u8, b3: u8) -> u32 {
    (b0 as u32) | ((b1 as u32) << 8) | ((b2 as u32) << 16) | ((b3 as u32) << 24)
}

/// Negation that leaves the one unrepresentable value in place.
pub open spec fn spec_neg_i16(v: i16) -> i16 {
    if v == i16::MIN {
        i16::MIN
    } else {
        (-v) as i16
    }
}

/// The two little-endian bytes of a `u16`.
pub open spec fn spec_u16_bytes(v: u16) -> Seq<u8> {
    seq![v as u8, (v >> 8) as u8]
}

/// The four little-endian bytes of a `u32`.
pub open spec fn spec_u32_bytes(v: u32) -> Seq<u8> {
    seq![v as u8, (v >> 8) as u8, (v >> 16) as u8, (v >> 24) as u8]
}

/// Reading the two little-endian bytes of a `u16` back gives the value.
pub broadcast proof fn lemma_u16_le_roundtrip(v: u16)
    ensures
        #[trigger] spec_u16_le(v as u8, (v >> 8) as u8) == v,
{
    assert(((v as u8) as u16) | ((((v >> 8) as u8) as u16) << 8) == v) by (bit_vector);
}

pub fn get_u16(buff: &Vec<u8>, lo_idx: usize, hi_idx: usize) -> (r: u16)
    requires
        lo_idx < buff@.len(),
        hi_idx < buff@.len(),
    ensures
        r == spec_u16_le(buff@[lo_idx as int], buff@[hi_idx as int]),
{
    (buff[lo_idx] as u16) | ((buff[hi_idx] as u16) << 8)
}

pub fn get_i16(buff: &Vec<u8>, lo_idx: usize, hi_idx: usize) -> (r: i16)
    requires
        lo_idx < buff@.len(),
        hi_idx < buff@.len(),
    ensures
        r == spec_i16_le(buff@[lo_idx as int], buff@[hi_idx as int]),
{
    get_u16(buff, lo_idx, hi_idx) as i16
}

pub fn get_u32(buff: &Vec<u8>, index: usize) -> (r: u32)
    requires
        index + 4 <= buff@.len(),
    ensures
        r == spec_u32_le(
            buff@[index as int],
            buff@[index + 1],
            buff@[index + 2],
            buff@[index + 3],
        ),
{
    let _n: usize = buff.len();
    (buff[index] as u32) | ((buff[index + 1] as u32) << 8) | ((buff[index + 2] as u32) << 16) | ((
    buff[index + 3] as u32) << 24)
}

/// The deobfuscated view of the record starting at `pos`: up to `rec_len`
/// bytes of `d`, each XORed with `key`.
pub open spec fn spec_xor_record(d: Seq<u8>, pos: int, rec_len: int, key: u8) -> Seq<u8> {
    let avail = if pos <= d.len() {
        d.len() - pos
    } else {
        0
    };
    let n = if rec_len <= avail {
        rec_len
    } else {
        avail as int
    };
    Seq::new(n as nat, |k: int| d[pos + k] ^ key)
}

pub fn decode_buffer(data: &Vec<u8>, xor_val: u8, position: usize, rec_len: usize) -> (out: Vec<
    u8,
>)
    ensures
        out@ == spec_xor_record(data@, position as int, rec_len as int, xor_val),
{
    let avail: usize = if position <= data.len() {
        data.len() - position
    } else {
        0
    };
    let n: usize = if rec_len <= avail {
        rec_len
    } else {
        avail
    };
    let mut out: Vec<u8> = Vec::new();
    let mut i: usize = 0;
    while i < n
        invariant
            i <= n,
            data@.len() <= usize::MAX,
            n == 0 || position + n <= data@.len(),
            out@ =~= Seq::new(i as nat, |k: int| data@[position + k] ^ xor_val),
        decreases n - i,
    {
        out.push(data[position + i] ^ xor_val);
        proof {
            assert(out@ =~= Seq::new((i + 1) as nat, |k: int| data@[position + k] ^ xor_val));
        }
        i = i + 1;
    }
    proof {
        assert(out@ =~= spec_xor_record(data@, position as int, rec_len as int, xor_val));
    }
    out
}

/// Whether `needle` occurs in `haystack` starting at index `i`.
pub open spec fn spec_matches_at(haystack: Seq<u8>, needle: Seq<u8>, i: int) -> bool {
    &&& 0 <= i
    &&& i + needle.len() <= haystack.len()
    &&& haystack.subrange(i, i + needle.len()) == needle
}

pub fn contains_any(haystack: &[u8], needle: &[u8]) -> (r: Option<usize>)
    requires
        needle@.len() >= 1,
    ensures
        match r {
            Some(i) => spec_matches_at(haystack@, needle@, i as int) && (forall|j: int|
                0 <= j < i ==> !spec_matches_at(haystack@, needle@, j)),
            None => forall|j: int| !spec_matches_at(haystack@, needle@, j),
        },
{
    if needle.len() > haystack.len() {
        return None;
    }
    let last = haystack.len() - needle.len();
    let mut i: usize = 0;
    while i <= last
        invariant
            needle@.len() >= 1,
            needle@.len() <= haystack@.len(),
            haystack@.len() <= usize::MAX,
            last == haystack@.len() - needle@.len(),
            i <= last + 1,
            forall|j: int| 0 <= j < i ==> !spec_matches_at(haystack@, needle@, j),
        decreases last + 1 - i,
    {
        let mut j: usize = 0;
        let mut all_eq: bool = true;
        while j < needle.len()
            invariant
                i <= last,
                last == haystack@.len() - needle@.len(),
                needle@.len() <= haystack@.len(),
                haystack@.len() <= usize::MAX,
                i + needle@.len() <= haystack@.len(),
                j <= needle@.len(),
                all_eq <==> (forall|k: int|
                    0 <= k < j ==> haystack@[i + k] == needle@[k]),
            decreases needle@.len() - j,
        {
            if haystack[i + j] != needle[j] {
                all_eq = false;
            }
            j = j + 1;
        }
        if all_eq {
            proof {
                assert(haystack@.subrange(i as int, i + needle@.len()) =~= needle@);
            }
            return Some(i);
        }
        proof {
            let k = choose|k: int| 0 <= k < needle@.len() && haystack@[i + k] != needle@[k];
            assert(haystack@.subrange(i as int, i + needle@.len())[k] != needle@[k]);
        }
        i = i + 1;
    }
    None
}

/// Identity mapping from a joystick axis sample to the Tello's `u64`
/// stick-packing domain, kept explicit as an extension point.
pub fn js_int16_to_tello(sv: i16) -> (r: u64)
    ensures
        r == sv as u64,
{
    sv as u64
}

} // verus!
