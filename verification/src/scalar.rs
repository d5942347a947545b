//! Scalars, small vectors of them, and their image in memory.

use vstd::arithmetic::div_mod::lemma_fundamental_div_mod_converse;
use vstd::prelude::*;

verus! {

/// A 32-bit IEEE 754 number, held by its bit pattern.
pub type Scalar = u32;

/// A 4x4 matrix as four columns of four scalars.
pub type Mat4 = [[Scalar; 4]; 4];

/// The bit pattern of `0.0`.
pub const ZERO: Scalar = 0;

/// The bit pattern of `1.0`.
pub const ONE: Scalar = 0x3f80_0000;

/// A vector of two scalars.
#[derive(Clone, Copy, Debug, PartialEq, Eq)]
pub struct Vector2 {
    pub x: Scalar,
    pub y: Scalar,
}

/// A vector of three scalars.
#[derive(Clone, Copy, Debug, PartialEq, Eq)]
pub struct Vector3 {
    pub x: Scalar,
    pub y: Scalar,
    pub z: Scalar,
}

/// A quaternion: vector part `v`, scalar part `s`.
#[derive(Clone, Copy, Debug, PartialEq, Eq)]
pub struct Quaternion {
    pub v: Vector3,
    pub s: Scalar,
}

/// A colour by its red, green, blue and alpha components.
#[derive(Clone, Copy, Debug, PartialEq, Eq)]
pub struct Color {
    pub r: Scalar,
    pub g: Scalar,
    pub b: Scalar,
    pub a: Scalar,
}

impl Vector3 {
    /// The vector `(x, y, z)`.
    pub fn new(x: Scalar, y: Scalar, z: Scalar) -> (v: Vector3)
        ensures
            v == (Vector3 { x, y, z }),
    {
        Vector3 { x, y, z }
    }

    /// The vector whose components are all `0.0`.
    pub open spec fn zero() -> Vector3 {
        Vector3 { x: ZERO, y: ZERO, z: ZERO }
    }

    /// The vector whose components are all `1.0`.
    pub open spec fn one() -> Vector3 {
        Vector3 { x: ONE, y: ONE, z: ONE }
    }
}

impl Quaternion {
    /// The rotation that turns nothing: vector part zero, scalar part `1.0`.
    pub open spec fn identity() -> Quaternion {
        Quaternion { v: Vector3::zero(), s: ONE }
    }
}

impl Color {
    /// The colour `(r, g, b, a)`.
    pub fn new(r: Scalar, g: Scalar, b: Scalar, a: Scalar) -> (c: Color)
        ensures
            c == (Color { r, g, b, a }),
    {
        Color { r, g, b, a }
    }

    /// White with alpha `0.0`: as a vertex colour it marks a vertex that was
    /// given none, as the colour of a draw it blends nothing in.
    pub open spec fn unset() -> Color {
        Color { r: ONE, g: ONE, b: ONE, a: ZERO }
    }

    /// The components in the order red, green, blue, alpha.
    pub open spec fn components(self) -> [Scalar; 4] {
        [self.r, self.g, self.b, self.a]
    }

    /// The components as an array, in the order in which the GPU reads them.
    pub fn to_array(&self) -> (a: [Scalar; 4])
        ensures
            a == self.components(),
    {
        [self.r, self.g, self.b, self.a]
    }
}

/// The identity matrix.
pub open spec fn identity_matrix() -> Mat4 {
    [
        [ONE, ZERO, ZERO, ZERO],
        [ZERO, ONE, ZERO, ZERO],
        [ZERO, ZERO, ONE, ZERO],
        [ZERO, ZERO, ZERO, ONE],
    ]
}

/// The identity matrix.
pub fn mat4_identity() -> (m: Mat4)
    ensures
        m == identity_matrix(),
{
    [
        [ONE, ZERO, ZERO, ZERO],
        [ZERO, ONE, ZERO, ZERO],
        [ZERO, ZERO, ONE, ZERO],
        [ZERO, ZERO, ZERO, ONE],
    ]
}

/// The sixteen scalars of a matrix, column after column.
pub open spec fn matrix_words(m: Mat4) -> Seq<u32> {
    m[0]@ + m[1]@ + m[2]@ + m[3]@
}

/// The words of `count` records of `size` words each, record after record:
/// `record(i)` gives the words of record `i`.
pub open spec fn record_words(count: nat, size: nat, record: spec_fn(int) -> Seq<u32>) -> Seq<u32> {
    Seq::new(count * size, |i: int| record(i / size as int)[i % size as int])
}

/// The four bytes of a word as they lie in memory: least significant byte
/// first on a little-endian machine, most significant first on a big-endian
/// one.
pub open spec fn word_image(w: u32, big_endian: bool) -> Seq<u8> {
    let b0 = (w & 0xff) as u8;
    let b1 = ((w >> 8) & 0xff) as u8;
    let b2 = ((w >> 16) & 0xff) as u8;
    let b3 = ((w >> 24) & 0xff) as u8;
    if big_endian {
        seq![b3, b2, b1, b0]
    } else {
        seq![b0, b1, b2, b3]
    }
}

/// The bytes of a run of words as they lie in memory: four bytes for each
/// word, the words in their order.
pub open spec fn memory_image(words: Seq<u32>, big_endian: bool) -> Seq<u8> {
    Seq::new(4 * words.len(), |i: int| word_image(words[i / 4], big_endian)[i % 4])
}

/// `bytes` is what memory holds for `words` on this machine, whichever of the
/// two byte orders it has.
pub open spec fn is_memory_image(bytes: Seq<u8>, words: Seq<u32>) -> bool {
    bytes == memory_image(words, false) || bytes == memory_image(words, true)
}

/// Appends `src` to `dst`.
pub fn append_words(dst: &mut Vec<u32>, src: &[u32])
    ensures
        final(dst)@ == old(dst)@ + src@,
{
    let mut i: usize = 0;
    while i < src.len()
        invariant
            i <= src@.len(),
            dst@ == old(dst)@ + src@.take(i as int),
        decreases src@.len() - i,
    {
        dst.push(src[i]);
        i = i + 1;
    }
}

/// `bytemuck::cast_slice` from `u32` to `u8`: the bytes of the words as they
/// lie in memory. No length is refused, since a byte needs no alignment and
/// every word is four whole bytes. The contract leaves the machine's byte
/// order open and claims that one order holds for all the words of a call.
#[verifier::external_body]
pub(crate) fn words_to_bytes(words: &Vec<u32>) -> (bytes: Vec<u8>)
    ensures
        is_memory_image(bytes@, words@),
{
    bytemuck::cast_slice::<u32, u8>(words.as_slice()).to_vec()
}

/// A memory image has four bytes for each word, and the bytes of word `i`
/// start at offset `4 * i`.
pub proof fn lemma_memory_image_word(words: Seq<u32>, big_endian: bool, i: int)
    requires
        0 <= i < words.len(),
    ensures
        memory_image(words, big_endian).len() == 4 * words.len(),
        memory_image(words, big_endian).subrange(4 * i, 4 * i + 4) == word_image(
            words[i],
            big_endian,
        ),
{
    let image = memory_image(words, big_endian);
    let part = image.subrange(4 * i, 4 * i + 4);
    assert forall|k: int| 0 <= k < 4 implies part[k] == word_image(words[i], big_endian)[k] by {
        assert((4 * i + k) / 4 == i);
        assert((4 * i + k) % 4 == k);
    }
    assert(part =~= word_image(words[i], big_endian));
}

/// The words of one record more are the words so far with those of the next
/// record behind them.
pub proof fn lemma_record_appended(count: nat, size: nat, record: spec_fn(int) -> Seq<u32>)
    requires
        size > 0,
        record(count as int).len() == size,
    ensures
        record_words(count + 1, size, record) == record_words(count, size, record) + record(
            count as int,
        ),
{
    let longer = record_words(count + 1, size, record);
    let joined = record_words(count, size, record) + record(count as int);
    assert((count + 1) * size == count * size + size) by (nonlinear_arith);
    assert forall|k: int| 0 <= k < longer.len() implies longer[k] == joined[k] by {
        if k >= count * size {
            lemma_fundamental_div_mod_converse(k, size as int, count as int, k - count * size);
        }
    }
    assert(longer =~= joined);
}

/// The words of record `i` lie at `i * size` among the words of the
/// records, and a part of them lies as far behind that place as it lies
/// within the record.
pub proof fn lemma_record_part(
    count: nat,
    size: nat,
    record: spec_fn(int) -> Seq<u32>,
    i: int,
    from: int,
    to: int,
)
    requires
        0 <= i < count,
        0 <= from <= to <= size,
        record(i).len() == size,
    ensures
        record_words(count, size, record).len() == count * size,
        i * size + to <= count * size,
        record_words(count, size, record).subrange(i * size + from, i * size + to) == record(
            i,
        ).subrange(from, to),
{
    assert(i * size + size <= count * size) by (nonlinear_arith)
        requires
            0 <= i < count,
    ;
    let part = record_words(count, size, record).subrange(i * size + from, i * size + to);
    let field = record(i).subrange(from, to);
    assert forall|k: int| 0 <= k < field.len() implies part[k] == field[k] by {
        lemma_fundamental_div_mod_converse(i * size + from + k, size as int, i, from + k);
    }
    assert(part =~= field);
}

/// A part of a memory image is the memory image of that part of the words.
pub proof fn lemma_memory_image_range(words: Seq<u32>, big_endian: bool, from: int, to: int)
    requires
        0 <= from <= to <= words.len(),
    ensures
        memory_image(words, big_endian).subrange(4 * from, 4 * to) == memory_image(
            words.subrange(from, to),
            big_endian,
        ),
{
    let whole = memory_image(words, big_endian).subrange(4 * from, 4 * to);
    let part = memory_image(words.subrange(from, to), big_endian);
    assert(whole.len() == part.len());
    assert forall|k: int| 0 <= k < part.len() implies whole[k] == part[k] by {
        assert((4 * from + k) / 4 == from + k / 4);
        assert((4 * from + k) % 4 == k % 4);
    }
    assert(whole =~= part);
}

/// A memory image loses nothing: in either byte order, words with the same
/// image are the same words.
pub proof fn lemma_memory_image_injective(a: Seq<u32>, b: Seq<u32>, big_endian: bool)
    requires
        memory_image(a, big_endian) == memory_image(b, big_endian),
    ensures
        a == b,
{
    assert(a.len() == b.len()) by {
        assert(memory_image(a, big_endian).len() == 4 * a.len());
        assert(memory_image(b, big_endian).len() == 4 * b.len());
    }
    assert forall|i: int| 0 <= i < a.len() implies a[i] == b[i] by {
        lemma_memory_image_word(a, big_endian, i);
        lemma_memory_image_word(b, big_endian, i);
        lemma_word_image_injective(a[i], b[i], big_endian);
    }
    assert(a =~= b);
}

/// Words with the same four bytes are the same word.
pub proof fn lemma_word_image_injective(a: u32, b: u32, big_endian: bool)
    requires
        word_image(a, big_endian) == word_image(b, big_endian),
    ensures
        a == b,
{
    let ia = word_image(a, big_endian);
    let ib = word_image(b, big_endian);
    assert(ia[0] == ib[0] && ia[1] == ib[1] && ia[2] == ib[2] && ia[3] == ib[3]);
    assert({
        &&& (a & 0xff) as u8 == (b & 0xff) as u8
        &&& ((a >> 8) & 0xff) as u8 == ((b >> 8) & 0xff) as u8
        &&& ((a >> 16) & 0xff) as u8 == ((b >> 16) & 0xff) as u8
        &&& ((a >> 24) & 0xff) as u8 == ((b >> 24) & 0xff) as u8
    } ==> a == b) by (bit_vector);
}

} // verus!
