//! The value encoding of herdr's wire payloads: variable-length integers, then
//! booleans, options, sequences and texts built from them.
//!
//! An integer up to 250 is one byte. A larger one is a marker byte (251, 252 or
//! 253) followed by 2, 4 or 8 bytes, least significant first. Everything else is
//! a concatenation of such parts with no padding and no names.

use vstd::prelude::*;
use vstd::string::*;
use vstd::utf8::*;

use crate::text::utf8_text;

verus! {

// ---------------------------------------------------------------- integers

/// Largest integer that is its own single byte.
pub const SINGLE_BYTE_MAX: u8 = 250;

/// Marker of a two-byte integer.
pub const MARKER_2: u8 = 251;

/// Marker of a four-byte integer.
pub const MARKER_4: u8 = 252;

/// Marker of an eight-byte integer.
pub const MARKER_8: u8 = 253;

/// 256 to the power `n`.
pub open spec fn pow256(n: nat) -> nat
    decreases n,
{
    if n == 0 {
        1
    } else {
        256 * pow256((n - 1) as nat)
    }
}

/// The `n` low bytes of `v`, least significant first.
pub open spec fn le_bytes(v: nat, n: nat) -> Seq<u8>
    decreases n,
{
    if n == 0 {
        Seq::empty()
    } else {
        seq![(v % 256) as u8] + le_bytes(v / 256, (n - 1) as nat)
    }
}

/// The number held by the `n` bytes of `s` from `pos` on, least significant first.
pub open spec fn le_value(s: Seq<u8>, pos: int, n: nat) -> nat
    decreases n,
{
    if n == 0 {
        0
    } else {
        s[pos] as nat + 256 * le_value(s, pos + 1, (n - 1) as nat)
    }
}

/// Whether the bytes `part` stand in `s` at `pos`.
pub open spec fn stands_at(s: Seq<u8>, pos: int, part: Seq<u8>) -> bool {
    &&& 0 <= pos
    &&& pos + part.len() <= s.len()
    &&& forall|i: int| 0 <= i < part.len() ==> s[pos + i] == #[trigger] part[i]
}

/// Where a concatenation stands, both of its halves stand.
pub proof fn lemma_stands_split(s: Seq<u8>, pos: int, a: Seq<u8>, b: Seq<u8>)
    requires
        stands_at(s, pos, a + b),
    ensures
        stands_at(s, pos, a),
        stands_at(s, pos + a.len(), b),
        (a + b).len() == a.len() + b.len(),
{
    assert forall|i: int| 0 <= i < a.len() implies s[pos + i] == #[trigger] a[i] by {
        assert((a + b)[i] == a[i]);
    }
    assert forall|i: int| 0 <= i < b.len() implies s[pos + a.len() + i] == #[trigger] b[i] by {
        assert((a + b)[a.len() + i] == b[i]);
    }
}

/// Little-endian bytes have the length asked for.
pub proof fn lemma_le_len(v: nat, n: nat)
    ensures
        le_bytes(v, n).len() == n,
    decreases n,
{
    if n > 0 {
        lemma_le_len(v / 256, (n - 1) as nat);
    }
}

/// Reading back little-endian bytes gives the number.
pub proof fn lemma_le_round_trip(v: nat, n: nat, s: Seq<u8>, pos: int)
    requires
        v < pow256(n),
        stands_at(s, pos, le_bytes(v, n)),
    ensures
        le_value(s, pos, n) == v,
    decreases n,
{
    if n > 0 {
        let head = seq![(v % 256) as u8];
        let tail = le_bytes(v / 256, (n - 1) as nat);
        assert(head.len() == 1);
        lemma_stands_split(s, pos, head, tail);
        assert(s[pos + 0] == head[0]);
        assert(v / 256 < pow256((n - 1) as nat)) by {
            assert(v < 256 * pow256((n - 1) as nat));
        }
        lemma_le_round_trip(v / 256, (n - 1) as nat, s, pos + 1);
    }
}

/// The four powers of 256 that the integer encoding uses.
pub proof fn lemma_pow256()
    ensures
        pow256(2) == 0x1_0000,
        pow256(4) == 0x1_0000_0000,
        pow256(8) == 0x1_0000_0000_0000_0000,
{
    reveal_with_fuel(pow256, 9);
}

/// The encoding of the integer `v`.
pub open spec fn varint(v: nat) -> Seq<u8> {
    if v <= SINGLE_BYTE_MAX {
        seq![v as u8]
    } else if v <= 0xffff {
        seq![MARKER_2] + le_bytes(v, 2)
    } else if v <= 0xffff_ffff {
        seq![MARKER_4] + le_bytes(v, 4)
    } else {
        seq![MARKER_8] + le_bytes(v, 8)
    }
}

/// How many bytes follow a marker byte.
pub open spec fn marker_width(marker: u8) -> nat {
    if marker == MARKER_2 {
        2
    } else if marker == MARKER_4 {
        4
    } else {
        8
    }
}

/// The integer at `pos`, if its first byte is no larger than `last_marker` and
/// all of its bytes are there, and the position after it.
pub open spec fn parse_varint(s: Seq<u8>, pos: int, last_marker: u8) -> Option<(u64, int)> {
    if pos < 0 || pos >= s.len() || s[pos] > last_marker {
        None
    } else if s[pos] <= SINGLE_BYTE_MAX {
        Some((s[pos] as u64, pos + 1))
    } else if pos + 1 + marker_width(s[pos]) > s.len() {
        None
    } else {
        Some(
            (
                le_value(s, pos + 1, marker_width(s[pos])) as u64,
                pos + 1 + marker_width(s[pos]),
            ),
        )
    }
}

/// Parsing an encoded integer gives it back.
pub proof fn lemma_varint_round_trip(v: nat, last_marker: u8, s: Seq<u8>, pos: int)
    requires
        last_marker == MARKER_2 && v <= 0xffff || last_marker == MARKER_4 && v <= 0xffff_ffff
            || last_marker == MARKER_8 && v <= u64::MAX,
        stands_at(s, pos, varint(v)),
    ensures
        parse_varint(s, pos, last_marker) == Some((v as u64, pos + varint(v).len())),
{
    lemma_pow256();
    lemma_le_len(v, 2);
    lemma_le_len(v, 4);
    lemma_le_len(v, 8);
    assert(s[pos + 0] == varint(v)[0]);
    if v <= SINGLE_BYTE_MAX {
    } else if v <= 0xffff {
        lemma_stands_split(s, pos, seq![MARKER_2], le_bytes(v, 2));
        lemma_le_round_trip(v, 2, s, pos + 1);
    } else if v <= 0xffff_ffff {
        lemma_stands_split(s, pos, seq![MARKER_4], le_bytes(v, 4));
        lemma_le_round_trip(v, 4, s, pos + 1);
    } else {
        lemma_stands_split(s, pos, seq![MARKER_8], le_bytes(v, 8));
        lemma_le_round_trip(v, 8, s, pos + 1);
    }
}

/// `bincode::encode_to_vec` on a `u64` under `bincode::config::standard()`: the
/// variable-length bytes of the number. Integers of the narrower types have the
/// same bytes as the same number in a `u64`. The call writes into a vector, which
/// accepts every byte.
#[verifier::external_body]
fn varint_bytes(v: u64) -> (bytes: Vec<u8>)
    ensures
        bytes@ == varint(v as nat),
{
    bincode::encode_to_vec(v, bincode::config::standard()).expect("a vector accepts every byte")
}

/// `bincode::decode_from_slice` to a `u64` under `bincode::config::standard()`:
/// the number that the slice starts with and how many bytes it takes, or nothing
/// when the first byte is no integer's or bytes are missing.
#[verifier::external_body]
fn leading_varint(bytes: &[u8]) -> (r: Option<(u64, usize)>)
    ensures
        match r {
            Some((v, used)) => parse_varint(bytes@, 0, MARKER_8) == Some((v, used as int)),
            None => parse_varint(bytes@, 0, MARKER_8) is None,
        },
{
    bincode::decode_from_slice::<u64, _>(bytes, bincode::config::standard()).ok()
}

/// A number's bytes do not depend on where in a longer sequence they stand.
proof fn lemma_le_value_shift(s: Seq<u8>, t: Seq<u8>, pos: int, at: int, n: nat)
    requires
        0 <= pos,
        0 <= at,
        at + n <= t.len(),
        pos + n <= s.len(),
        forall|i: int| 0 <= i < n ==> s[pos + i] == #[trigger] t[at + i],
    ensures
        le_value(s, pos, n) == le_value(t, at, n),
    decreases n,
{
    if n > 0 {
        assert(s[pos + 0] == t[at + 0]);
        assert forall|i: int| 0 <= i < n - 1 implies s[pos + 1 + i] == #[trigger] t[at + 1 + i] by {
            assert(s[pos + (1 + i)] == t[at + (1 + i)]);
        }
        lemma_le_value_shift(s, t, pos + 1, at + 1, (n - 1) as nat);
    }
}

/// The integer at `pos`, if its first byte is no larger than `last_marker`.
fn read_varint(s: &[u8], pos: usize, last_marker: u8) -> (r: Option<(u64, usize)>)
    requires
        pos <= s@.len(),
        last_marker <= MARKER_8,
    ensures
        match r {
            Some((v, next)) => parse_varint(s@, pos as int, last_marker) == Some((v, next as int))
                && pos < next <= s@.len(),
            None => parse_varint(s@, pos as int, last_marker) is None,
        },
{
    if pos >= s.len() {
        return None;
    }
    if s[pos] > last_marker {
        return None;
    }
    let rest = vstd::slice::slice_subrange(s, pos, s.len());
    proof {
        assert forall|i: int| 0 <= i < rest@.len() implies rest@[i] == s@[pos + i] by {}
        if s@[pos as int] > SINGLE_BYTE_MAX {
            let w = marker_width(s@[pos as int]);
            if pos + 1 + w <= s@.len() {
                assert forall|i: int| 0 <= i < w implies s@[pos + 1 + i] == #[trigger] rest@[1
                    + i] by {}
                lemma_le_value_shift(s@, rest@, pos + 1, 1, w);
            }
        }
    }
    match leading_varint(rest) {
        Some((v, used)) => Some((v, pos + used)),
        None => None,
    }
}

// ------------------------------------------------------------------ values

/// A value with a place in a wire payload.
pub trait Wire: Sized {
    /// What the value is mathematically.
    type Model;

    /// What `self` is mathematically.
    spec fn model(&self) -> Self::Model;

    /// The bytes of a value.
    spec fn bytes(m: Self::Model) -> Seq<u8>;

    /// The value at `pos` and the position after it.
    spec fn parse(s: Seq<u8>, pos: int) -> Option<(Self::Model, int)>;

    /// Every value takes at least one byte.
    proof fn lemma_takes_room(m: Self::Model)
        ensures
            Self::bytes(m).len() >= 1,
    ;

    /// Parsing the bytes of a value gives the value, whatever follows it.
    proof fn lemma_round_trip(m: Self::Model, s: Seq<u8>, pos: int)
        requires
            s.len() <= u64::MAX,
            stands_at(s, pos, Self::bytes(m)),
        ensures
            Self::parse(s, pos) == Some((m, pos + Self::bytes(m).len())),
    ;

    /// Appends the bytes of `self`.
    fn put(&self, out: &mut Vec<u8>)
        ensures
            final(out)@ == old(out)@ + Self::bytes(self.model()),
    ;

    /// Reads the value at `pos`.
    fn get(s: &[u8], pos: usize) -> (r: Option<(Self, usize)>)
        requires
            pos <= s@.len(),
        ensures
            match r {
                Some((v, next)) => Self::parse(s@, pos as int) == Some((v.model(), next as int))
                    && next <= s@.len(),
                None => Self::parse(s@, pos as int) is None,
            },
    ;
}

/// Appends the encoding of the integer `v`.
fn put_varint(v: u64, out: &mut Vec<u8>)
    ensures
        final(out)@ == old(out)@ + varint(v as nat),
{
    let mut bytes = varint_bytes(v);
    out.append(&mut bytes);
}

impl Wire for u8 {
    type Model = u8;

    open spec fn model(&self) -> u8 {
        *self
    }

    open spec fn bytes(m: u8) -> Seq<u8> {
        seq![m]
    }

    open spec fn parse(s: Seq<u8>, pos: int) -> Option<(u8, int)> {
        if 0 <= pos < s.len() {
            Some((s[pos], pos + 1))
        } else {
            None
        }
    }

    proof fn lemma_takes_room(m: u8) {
    }

    proof fn lemma_round_trip(m: u8, s: Seq<u8>, pos: int) {
        assert(s[pos + 0] == seq![m][0]);
    }

    fn put(&self, out: &mut Vec<u8>) {
        out.push(*self);
    }

    fn get(s: &[u8], pos: usize) -> (r: Option<(Self, usize)>) {
        if pos < s.len() {
            Some((s[pos], pos + 1))
        } else {
            None
        }
    }
}

impl Wire for u16 {
    type Model = u16;

    open spec fn model(&self) -> u16 {
        *self
    }

    open spec fn bytes(m: u16) -> Seq<u8> {
        varint(m as nat)
    }

    open spec fn parse(s: Seq<u8>, pos: int) -> Option<(u16, int)> {
        match parse_varint(s, pos, MARKER_2) {
            Some((v, next)) => Some((v as u16, next)),
            None => None,
        }
    }

    proof fn lemma_takes_room(m: u16) {
    }

    proof fn lemma_round_trip(m: u16, s: Seq<u8>, pos: int) {
        lemma_varint_round_trip(m as nat, MARKER_2, s, pos);
    }

    fn put(&self, out: &mut Vec<u8>) {
        put_varint(*self as u64, out);
    }

    fn get(s: &[u8], pos: usize) -> (r: Option<(Self, usize)>) {
        match read_varint(s, pos, MARKER_2) {
            Some((v, next)) => Some((v as u16, next)),
            None => None,
        }
    }
}

impl Wire for u32 {
    type Model = u32;

    open spec fn model(&self) -> u32 {
        *self
    }

    open spec fn bytes(m: u32) -> Seq<u8> {
        varint(m as nat)
    }

    open spec fn parse(s: Seq<u8>, pos: int) -> Option<(u32, int)> {
        match parse_varint(s, pos, MARKER_4) {
            Some((v, next)) => Some((v as u32, next)),
            None => None,
        }
    }

    proof fn lemma_takes_room(m: u32) {
    }

    proof fn lemma_round_trip(m: u32, s: Seq<u8>, pos: int) {
        lemma_varint_round_trip(m as nat, MARKER_4, s, pos);
    }

    fn put(&self, out: &mut Vec<u8>) {
        put_varint(*self as u64, out);
    }

    fn get(s: &[u8], pos: usize) -> (r: Option<(Self, usize)>) {
        match read_varint(s, pos, MARKER_4) {
            Some((v, next)) => Some((v as u32, next)),
            None => None,
        }
    }
}

impl Wire for u64 {
    type Model = u64;

    open spec fn model(&self) -> u64 {
        *self
    }

    open spec fn bytes(m: u64) -> Seq<u8> {
        varint(m as nat)
    }

    open spec fn parse(s: Seq<u8>, pos: int) -> Option<(u64, int)> {
        parse_varint(s, pos, MARKER_8)
    }

    proof fn lemma_takes_room(m: u64) {
    }

    proof fn lemma_round_trip(m: u64, s: Seq<u8>, pos: int) {
        lemma_varint_round_trip(m as nat, MARKER_8, s, pos);
    }

    fn put(&self, out: &mut Vec<u8>) {
        put_varint(*self, out);
    }

    fn get(s: &[u8], pos: usize) -> (r: Option<(Self, usize)>) {
        read_varint(s, pos, MARKER_8)
    }
}

impl Wire for bool {
    type Model = bool;

    open spec fn model(&self) -> bool {
        *self
    }

    open spec fn bytes(m: bool) -> Seq<u8> {
        if m {
            seq![1u8]
        } else {
            seq![0u8]
        }
    }

    open spec fn parse(s: Seq<u8>, pos: int) -> Option<(bool, int)> {
        if 0 <= pos < s.len() && s[pos] <= 1 {
            Some((s[pos] == 1, pos + 1))
        } else {
            None
        }
    }

    proof fn lemma_takes_room(m: bool) {
    }

    proof fn lemma_round_trip(m: bool, s: Seq<u8>, pos: int) {
        assert(s[pos + 0] == Self::bytes(m)[0]);
    }

    fn put(&self, out: &mut Vec<u8>) {
        if *self {
            out.push(1);
        } else {
            out.push(0);
        }
    }

    fn get(s: &[u8], pos: usize) -> (r: Option<(Self, usize)>) {
        if pos < s.len() && s[pos] <= 1 {
            Some((s[pos] == 1, pos + 1))
        } else {
            None
        }
    }
}

/// An absent value is a zero byte; a present one is a one byte and the value.
impl<T: Wire> Wire for Option<T> {
    type Model = Option<T::Model>;

    open spec fn model(&self) -> Option<T::Model> {
        match self {
            Some(v) => Some(v.model()),
            None => None,
        }
    }

    open spec fn bytes(m: Option<T::Model>) -> Seq<u8> {
        match m {
            Some(v) => seq![1u8] + T::bytes(v),
            None => seq![0u8],
        }
    }

    open spec fn parse(s: Seq<u8>, pos: int) -> Option<(Option<T::Model>, int)> {
        if 0 <= pos < s.len() && s[pos] == 0 {
            Some((None, pos + 1))
        } else if 0 <= pos < s.len() && s[pos] == 1 {
            match T::parse(s, pos + 1) {
                Some((v, next)) => Some((Some(v), next)),
                None => None,
            }
        } else {
            None
        }
    }

    proof fn lemma_takes_room(m: Option<T::Model>) {
    }

    proof fn lemma_round_trip(m: Option<T::Model>, s: Seq<u8>, pos: int) {
        assert(s[pos + 0] == Self::bytes(m)[0]);
        if let Some(v) = m {
            lemma_stands_split(s, pos, seq![1u8], T::bytes(v));
            T::lemma_round_trip(v, s, pos + 1);
        }
    }

    fn put(&self, out: &mut Vec<u8>) {
        match self {
            Some(v) => {
                let ghost before = out@;
                out.push(1);
                v.put(out);
                proof {
                    assert(out@ =~= before + (seq![1u8] + T::bytes(v.model())));
                }
            },
            None => {
                out.push(0);
            },
        }
    }

    fn get(s: &[u8], pos: usize) -> (r: Option<(Self, usize)>) {
        if pos >= s.len() {
            None
        } else if s[pos] == 0 {
            Some((None, pos + 1))
        } else if s[pos] == 1 {
            match T::get(s, pos + 1) {
                Some((v, next)) => Some((Some(v), next)),
                None => None,
            }
        } else {
            None
        }
    }
}

/// The bytes of two values, one after the other.
#[verifier::opaque]
pub open spec fn pair_bytes<A: Wire, B: Wire>(m: (A::Model, B::Model)) -> Seq<u8> {
    A::bytes(m.0) + B::bytes(m.1)
}

/// Two values, one after the other, from `pos` on.
#[verifier::opaque]
pub open spec fn parse_pair<A: Wire, B: Wire>(s: Seq<u8>, pos: int) -> Option<
    ((A::Model, B::Model), int),
> {
    match A::parse(s, pos) {
        Some((a, mid)) => match B::parse(s, mid) {
            Some((b, next)) => Some(((a, b), next)),
            None => None,
        },
        None => None,
    }
}

/// Two values, one after the other.
impl<A: Wire, B: Wire> Wire for (A, B) {
    type Model = (A::Model, B::Model);

    open spec fn model(&self) -> (A::Model, B::Model) {
        (self.0.model(), self.1.model())
    }

    open spec fn bytes(m: (A::Model, B::Model)) -> Seq<u8> {
        pair_bytes::<A, B>(m)
    }

    open spec fn parse(s: Seq<u8>, pos: int) -> Option<((A::Model, B::Model), int)> {
        parse_pair::<A, B>(s, pos)
    }

    proof fn lemma_takes_room(m: (A::Model, B::Model)) {
        reveal(pair_bytes);
        A::lemma_takes_room(m.0);
    }

    proof fn lemma_round_trip(m: (A::Model, B::Model), s: Seq<u8>, pos: int) {
        reveal(pair_bytes);
        reveal(parse_pair);
        lemma_stands_split(s, pos, A::bytes(m.0), B::bytes(m.1));
        A::lemma_round_trip(m.0, s, pos);
        B::lemma_round_trip(m.1, s, pos + A::bytes(m.0).len());
    }

    fn put(&self, out: &mut Vec<u8>) {
        put2(&self.0, &self.1, out);
    }

    fn get(s: &[u8], pos: usize) -> (r: Option<(Self, usize)>) {
        proof {
            reveal(parse_pair);
        }
        match A::get(s, pos) {
            Some((a, mid)) => match B::get(s, mid) {
                Some((b, next)) => Some(((a, b), next)),
                None => None,
            },
            None => None,
        }
    }
}

/// Appends two values, one after the other.
pub(crate) fn put2<A: Wire, B: Wire>(a: &A, b: &B, out: &mut Vec<u8>)
    ensures
        final(out)@ == old(out)@ + <(A, B)>::bytes(
            (a.model(), b.model()),
        ),
{
    let ghost before = out@;
    a.put(out);
    b.put(out);
    proof {
        reveal(pair_bytes);
        assert(out@ =~= before + <(A, B)>::bytes((a.model(), b.model())));
    }
}

/// Appends three values, one after the other.
pub(crate) fn put3<A: Wire, B: Wire, C: Wire>(a: &A, b: &B, c: &C, out: &mut Vec<u8>)
    ensures
        final(out)@ == old(out)@ + <(A, (B, C))>::bytes(
            (a.model(), (b.model(), c.model())),
        ),
{
    let ghost before = out@;
    a.put(out);
    put2(b, c, out);
    proof {
        reveal(pair_bytes);
        assert(out@ =~= before + <(A, (B, C))>::bytes((a.model(), (b.model(), c.model()))));
    }
}

/// Appends four values, one after the other.
pub(crate) fn put4<A: Wire, B: Wire, C: Wire, D: Wire>(a: &A, b: &B, c: &C, d: &D, out: &mut Vec<u8>)
    ensures
        final(out)@ == old(out)@ + <(A, (B, (C, D)))>::bytes(
            (a.model(), (b.model(), (c.model(), d.model()))),
        ),
{
    let ghost before = out@;
    a.put(out);
    put3(b, c, d, out);
    proof {
        reveal(pair_bytes);
        assert(out@ =~= before + <(A, (B, (C, D)))>::bytes((a.model(), (b.model(), (c.model(), d.model())))));
    }
}

/// Appends five values, one after the other.
pub(crate) fn put5<A: Wire, B: Wire, C: Wire, D: Wire, E: Wire>(a: &A, b: &B, c: &C, d: &D, e: &E, out: &mut Vec<u8>)
    ensures
        final(out)@ == old(out)@ + <(A, (B, (C, (D, E))))>::bytes(
            (a.model(), (b.model(), (c.model(), (d.model(), e.model())))),
        ),
{
    let ghost before = out@;
    a.put(out);
    put4(b, c, d, e, out);
    proof {
        reveal(pair_bytes);
        assert(out@ =~= before + <(A, (B, (C, (D, E))))>::bytes((a.model(), (b.model(), (c.model(), (d.model(), e.model()))))));
    }
}

/// Appends six values, one after the other.
pub(crate) fn put6<A: Wire, B: Wire, C: Wire, D: Wire, E: Wire, F: Wire>(a: &A, b: &B, c: &C, d: &D, e: &E, f: &F, out: &mut Vec<u8>)
    ensures
        final(out)@ == old(out)@ + <(A, (B, (C, (D, (E, F)))))>::bytes(
            (a.model(), (b.model(), (c.model(), (d.model(), (e.model(), f.model()))))),
        ),
{
    let ghost before = out@;
    a.put(out);
    put5(b, c, d, e, f, out);
    proof {
        reveal(pair_bytes);
        assert(out@ =~= before + <(A, (B, (C, (D, (E, F)))))>::bytes((a.model(), (b.model(), (c.model(), (d.model(), (e.model(), f.model())))))));
    }
}

/// Appends seven values, one after the other.
pub(crate) fn put7<A: Wire, B: Wire, C: Wire, D: Wire, E: Wire, F: Wire, G: Wire>(a: &A, b: &B, c: &C, d: &D, e: &E, f: &F, g: &G, out: &mut Vec<u8>)
    ensures
        final(out)@ == old(out)@ + <(A, (B, (C, (D, (E, (F, G))))))>::bytes(
            (a.model(), (b.model(), (c.model(), (d.model(), (e.model(), (f.model(), g.model())))))),
        ),
{
    let ghost before = out@;
    a.put(out);
    put6(b, c, d, e, f, g, out);
    proof {
        reveal(pair_bytes);
        assert(out@ =~= before + <(A, (B, (C, (D, (E, (F, G))))))>::bytes((a.model(), (b.model(), (c.model(), (d.model(), (e.model(), (f.model(), g.model()))))))));
    }
}

/// Appends eight values, one after the other.
pub(crate) fn put8<A: Wire, B: Wire, C: Wire, D: Wire, E: Wire, F: Wire, G: Wire, H: Wire>(a: &A, b: &B, c: &C, d: &D, e: &E, f: &F, g: &G, h: &H, out: &mut Vec<u8>)
    ensures
        final(out)@ == old(out)@ + <(A, (B, (C, (D, (E, (F, (G, H)))))))>::bytes(
            (a.model(), (b.model(), (c.model(), (d.model(), (e.model(), (f.model(), (g.model(), h.model()))))))),
        ),
{
    let ghost before = out@;
    a.put(out);
    put7(b, c, d, e, f, g, h, out);
    proof {
        reveal(pair_bytes);
        assert(out@ =~= before + <(A, (B, (C, (D, (E, (F, (G, H)))))))>::bytes((a.model(), (b.model(), (c.model(), (d.model(), (e.model(), (f.model(), (g.model(), h.model())))))))));
    }
}

/// The bytes of the items of a sequence, one after the other.
pub open spec fn items_bytes<T: Wire>(m: Seq<T::Model>) -> Seq<u8>
    decreases m.len(),
{
    if m.len() == 0 {
        Seq::empty()
    } else {
        items_bytes::<T>(m.drop_last()) + T::bytes(m.last())
    }
}

/// `n` items from `pos` on.
pub open spec fn parse_items<T: Wire>(s: Seq<u8>, pos: int, n: nat) -> Option<(Seq<T::Model>, int)>
    decreases n,
{
    if n == 0 {
        Some((Seq::empty(), pos))
    } else {
        match parse_items::<T>(s, pos, (n - 1) as nat) {
            Some((init, mid)) => match T::parse(s, mid) {
                Some((v, next)) => Some((init.push(v), next)),
                None => None,
            },
            None => None,
        }
    }
}

/// Once an item cannot be read, no longer sequence can be.
proof fn lemma_parse_items_stuck<T: Wire>(s: Seq<u8>, pos: int, few: nat, many: nat)
    requires
        few <= many,
        parse_items::<T>(s, pos, few) is None,
    ensures
        parse_items::<T>(s, pos, many) is None,
    decreases many,
{
    if few < many {
        lemma_parse_items_stuck::<T>(s, pos, few, (many - 1) as nat);
    }
}

/// Parsing the items of a sequence gives the sequence.
proof fn lemma_items_round_trip<T: Wire>(m: Seq<T::Model>, s: Seq<u8>, pos: int)
    requires
        s.len() <= u64::MAX,
        stands_at(s, pos, items_bytes::<T>(m)),
    ensures
        parse_items::<T>(s, pos, m.len()) == Some((m, pos + items_bytes::<T>(m).len())),
    decreases m.len(),
{
    if m.len() > 0 {
        let init = m.drop_last();
        lemma_stands_split(s, pos, items_bytes::<T>(init), T::bytes(m.last()));
        lemma_items_round_trip::<T>(init, s, pos);
        T::lemma_round_trip(m.last(), s, pos + items_bytes::<T>(init).len());
        assert(init.push(m.last()) =~= m);
    } else {
        assert(m =~= Seq::empty());
    }
}

/// A sequence takes at least as many bytes as it has items.
proof fn lemma_items_room<T: Wire>(m: Seq<T::Model>)
    ensures
        items_bytes::<T>(m).len() >= m.len(),
    decreases m.len(),
{
    if m.len() > 0 {
        lemma_items_room::<T>(m.drop_last());
        T::lemma_takes_room(m.last());
    }
}

/// The models of a sequence's items.
pub open spec fn models<T: Wire>(v: Seq<T>) -> Seq<T::Model> {
    Seq::new(v.len(), |i: int| v[i].model())
}

/// A sequence is its length and then its items.
impl<T: Wire> Wire for Vec<T> {
    type Model = Seq<T::Model>;

    open spec fn model(&self) -> Seq<T::Model> {
        models(self@)
    }

    open spec fn bytes(m: Seq<T::Model>) -> Seq<u8> {
        varint(m.len()) + items_bytes::<T>(m)
    }

    open spec fn parse(s: Seq<u8>, pos: int) -> Option<(Seq<T::Model>, int)> {
        match parse_varint(s, pos, MARKER_8) {
            Some((n, start)) => parse_items::<T>(s, start, n as nat),
            None => None,
        }
    }

    proof fn lemma_takes_room(m: Seq<T::Model>) {
    }

    proof fn lemma_round_trip(m: Seq<T::Model>, s: Seq<u8>, pos: int) {
        lemma_items_room::<T>(m);
        lemma_stands_split(s, pos, varint(m.len()), items_bytes::<T>(m));
        lemma_varint_round_trip(m.len(), MARKER_8, s, pos);
        lemma_items_round_trip::<T>(m, s, pos + varint(m.len()).len());
    }

    fn put(&self, out: &mut Vec<u8>) {
        let ghost before = out@;
        let n: usize = self.len();
        put_varint(n as u64, out);
        let ghost head = out@;
        let mut i: usize = 0;
        while i < n
            invariant
                i <= n,
                n == self@.len(),
                out@ == head + items_bytes::<T>(models(self@).take(i as int)),
            decreases n - i,
        {
            self[i].put(out);
            proof {
                let done = models(self@).take(i as int);
                let more = models(self@).take(i + 1);
                assert(more.drop_last() =~= done);
                assert(more.last() == self@[i as int].model());
                assert(out@ =~= head + items_bytes::<T>(more));
            }
            i = i + 1;
        }
        proof {
            assert(models(self@).take(n as int) =~= models(self@));
            assert(out@ =~= before + (varint(n as nat) + items_bytes::<T>(models(self@))));
        }
    }

    fn get(s: &[u8], pos: usize) -> (r: Option<(Self, usize)>) {
        match read_varint(s, pos, MARKER_8) {
            Some((n, start)) => {
                let mut items: Vec<T> = Vec::new();
                let mut next: usize = start;
                let mut i: u64 = 0;
                proof {
                    assert(models(items@) =~= Seq::empty());
                }
                while i < n
                    invariant
                        i <= n,
                        next <= s@.len(),
                        parse_items::<T>(s@, start as int, i as nat) == Some(
                            (models(items@), next as int),
                        ),
                        parse_varint(s@, pos as int, MARKER_8) == Some((n, start as int)),
                    decreases n - i,
                {
                    match T::get(s, next) {
                        Some((v, after)) => {
                            let ghost known = models(items@);
                            let ghost m = v.model();
                            items.push(v);
                            next = after;
                            proof {
                                assert(models(items@) =~= known.push(m));
                            }
                        },
                        None => {
                            proof {
                                lemma_parse_items_stuck::<T>(
                                    s@,
                                    start as int,
                                    (i + 1) as nat,
                                    n as nat,
                                );
                            }
                            return None;
                        },
                    }
                    i = i + 1;
                }
                Some((items, next))
            },
            None => None,
        }
    }
}

/// A text is the length of its UTF-8 bytes and then those bytes.
impl Wire for String {
    type Model = Seq<char>;

    open spec fn model(&self) -> Seq<char> {
        self@
    }

    open spec fn bytes(m: Seq<char>) -> Seq<u8> {
        varint(encode_utf8(m).len()) + encode_utf8(m)
    }

    open spec fn parse(s: Seq<u8>, pos: int) -> Option<(Seq<char>, int)> {
        match parse_varint(s, pos, MARKER_8) {
            Some((n, start)) => if start + n <= s.len() && valid_utf8(
                s.subrange(start, start + n),
            ) {
                Some((decode_utf8(s.subrange(start, start + n)), start + n))
            } else {
                None
            },
            None => None,
        }
    }

    proof fn lemma_takes_room(m: Seq<char>) {
    }

    proof fn lemma_round_trip(m: Seq<char>, s: Seq<u8>, pos: int) {
        let text = encode_utf8(m);
        lemma_stands_split(s, pos, varint(text.len()), text);
        lemma_varint_round_trip(text.len(), MARKER_8, s, pos);
        let start = pos + varint(text.len()).len();
        assert(s.subrange(start, start + text.len()) =~= text);
        encode_utf8_valid_utf8(m);
        encode_utf8_decode_utf8(m);
    }

    fn put(&self, out: &mut Vec<u8>) {
        let ghost before = out@;
        let text = self.as_str().as_bytes();
        put_varint(text.len() as u64, out);
        out.extend_from_slice(text);
        proof {
            assert(out@ =~= before + Self::bytes(self@));
        }
    }

    fn get(s: &[u8], pos: usize) -> (r: Option<(Self, usize)>) {
        match read_varint(s, pos, MARKER_8) {
            Some((n, start)) => {
                if n > (s.len() - start) as u64 {
                    return None;
                }
                let end: usize = start + n as usize;
                let part = vstd::slice::slice_to_vec(
                    vstd::slice::slice_subrange(s, start, end),
                );
                match utf8_text(part) {
                    Ok(text) => Some((text, end)),
                    Err(_) => None,
                }
            },
            None => None,
        }
    }
}

} // verus!
