//! Fixed-layout uniform blocks and their binding descriptions.
//!
//! A `ViewProjUniform` is two column-major 4x4 matrices, 128 bytes; a
//! `TransformUniform` is one matrix, 64 bytes.  The byte layout matches
//! what the shader's uniform block declares word for word: each 32-bit
//! word little-endian, columns in order, `view` before `proj`.
//! Serializing and parsing are proved inverse to each other, so an upload
//! read back on the consuming side recovers the exact matrices.

use crate::bytes::{word_of_le, words_bytes, push_word};
use crate::mat4::Mat4b;
use vstd::prelude::*;

verus! {

/// The shared view and projection matrices of a frame.
#[derive(Clone, Copy, PartialEq, Debug)]
#[verifier::ext_equal]
pub struct ViewProjUniform {
    pub view: Mat4b,
    pub proj: Mat4b,
}

/// One object's model transform.
#[derive(Clone, Copy, PartialEq, Debug)]
#[verifier::ext_equal]
pub struct TransformUniform {
    pub model: Mat4b,
}

/// A uniform-buffer binding as a pipeline declares it.
#[derive(Clone, Copy, PartialEq, Eq, Structural, Debug)]
pub struct UniformBindingDesc {
    /// Binding slot inside the group.
    pub binding: u32,
    /// Visible to the vertex stage.
    pub vertex_visible: bool,
    /// Whether the binding uses a dynamic offset.
    pub dynamic_offset: bool,
}

/// A bind group carrying one uniform buffer: the slot and the buffer's
/// upload image.
#[derive(Clone, PartialEq, Debug)]
pub struct UniformBindGroupDesc {
    pub binding: u32,
    pub buffer: Vec<u8>,
}

/// The 64 bytes of one matrix: 16 words, little-endian, column-major.
pub open spec fn mat_bytes(m: Mat4b) -> Seq<u8> {
    words_bytes(m.e@, 16)
}

/// The 128 bytes of a view-projection block: `view` then `proj`.
pub open spec fn viewproj_bytes(u: ViewProjUniform) -> Seq<u8> {
    mat_bytes(u.view) + mat_bytes(u.proj)
}

/// The 64 bytes of a transform block.
pub open spec fn transform_bytes(u: TransformUniform) -> Seq<u8> {
    mat_bytes(u.model)
}

/// The word at word-offset `k` of a byte sequence.
pub open spec fn word_at(b: Seq<u8>, k: int) -> u32 {
    word_of_le(b[4 * k], b[4 * k + 1], b[4 * k + 2], b[4 * k + 3])
}

/// The matrix whose 16 words start at word-offset `k`.
pub open spec fn parse_mat(b: Seq<u8>, k: int) -> Mat4b {
    Mat4b {
        e: [
            word_at(b, k), word_at(b, k + 1), word_at(b, k + 2), word_at(b, k + 3),
            word_at(b, k + 4), word_at(b, k + 5), word_at(b, k + 6), word_at(b, k + 7),
            word_at(b, k + 8), word_at(b, k + 9), word_at(b, k + 10), word_at(b, k + 11),
            word_at(b, k + 12), word_at(b, k + 13), word_at(b, k + 14), word_at(b, k + 15),
        ],
    }
}

/// The view-projection block read back from 128 bytes.
pub open spec fn parse_viewproj(b: Seq<u8>) -> ViewProjUniform {
    ViewProjUniform { view: parse_mat(b, 0), proj: parse_mat(b, 16) }
}

/// Byte `4k + j` of a word sequence's serialization is byte `j` of word
/// `k`.
proof fn lemma_words_bytes_index(ws: Seq<u32>, n: int, k: int, j: int)
    requires
        0 <= k < n,
        n <= ws.len(),
        0 <= j < 4,
    ensures
        words_bytes(ws, n).len() == 4 * n,
        words_bytes(ws, n)[4 * k + j] == crate::bytes::le_bytes32(ws[k])[j],
    decreases n,
{
    if k == n - 1 {
        lemma_words_bytes_len(ws, n - 1);
    } else {
        lemma_words_bytes_index(ws, n - 1, k, j);
    }
}

/// The serialization of `n` words is `4n` bytes long.
proof fn lemma_words_bytes_len(ws: Seq<u32>, n: int)
    ensures
        n >= 0 ==> words_bytes(ws, n).len() == 4 * n,
    decreases n,
{
    if n > 0 {
        lemma_words_bytes_len(ws, n - 1);
    }
}

/// Reading word `k` back from a serialized word sequence recovers the
/// word.
proof fn lemma_words_roundtrip(ws: Seq<u32>, n: int, k: int)
    requires
        0 <= k < n,
        n <= ws.len(),
    ensures
        word_at(words_bytes(ws, n), k) == ws[k],
{
    lemma_words_bytes_index(ws, n, k, 0);
    lemma_words_bytes_index(ws, n, k, 1);
    lemma_words_bytes_index(ws, n, k, 2);
    lemma_words_bytes_index(ws, n, k, 3);
    crate::bytes::lemma_le_roundtrip(ws[k]);
}

/// Parsing a serialized matrix recovers it.
proof fn lemma_mat_roundtrip(m: Mat4b, b: Seq<u8>, k: int)
    requires
        0 <= k,
        forall|i: int| 0 <= i < 16 ==> #[trigger] word_at(b, k + i) == m.e@[i],
    ensures
        parse_mat(b, k) == m,
{
    assert forall|i: int| 0 <= i < 16 implies parse_mat(b, k).e@[i] == m.e@[i] by {
        assert(word_at(b, k + i) == m.e@[i]);
    }
    assert(parse_mat(b, k).e@ =~= m.e@);
    assert(parse_mat(b, k) =~= m);
}

/// Uniform layout round trip: serializing a view-projection block and
/// reading the bytes back on the consuming side recovers the exact
/// matrices.
pub proof fn lemma_viewproj_roundtrip(u: ViewProjUniform)
    ensures
        parse_viewproj(viewproj_bytes(u)) == u,
{
    let b = viewproj_bytes(u);
    lemma_words_bytes_len(u.view.e@, 16);
    lemma_words_bytes_len(u.proj.e@, 16);
    assert forall|i: int| 0 <= i < 16 implies #[trigger] word_at(b, 0 + i) == u.view.e@[i] by {
        lemma_words_roundtrip(u.view.e@, 16, i);
        assert(word_at(b, i) == word_at(mat_bytes(u.view), i));
    }
    assert forall|i: int| 0 <= i < 16 implies #[trigger] word_at(b, 16 + i) == u.proj.e@[i] by {
        lemma_words_roundtrip(u.proj.e@, 16, i);
        assert(b[4 * (16 + i)] == mat_bytes(u.proj)[4 * i]);
        assert(b[4 * (16 + i) + 1] == mat_bytes(u.proj)[4 * i + 1]);
        assert(b[4 * (16 + i) + 2] == mat_bytes(u.proj)[4 * i + 2]);
        assert(b[4 * (16 + i) + 3] == mat_bytes(u.proj)[4 * i + 3]);
    }
    lemma_mat_roundtrip(u.view, b, 0);
    lemma_mat_roundtrip(u.proj, b, 16);
    assert(parse_viewproj(b) =~= u);
}

/// Append the 64 bytes of one matrix.
fn push_mat(out: &mut Vec<u8>, m: &Mat4b)
    ensures
        final(out)@ == old(out)@ + mat_bytes(*m),
{
    let mut i: usize = 0;
    while i < 16
        invariant
            i <= 16,
            out@ == old(out)@ + words_bytes(m.e@, i as int),
        decreases 16 - i,
    {
        push_word(out, m.e[i]);
        i = i + 1;
    }
}

impl ViewProjUniform {
    /// The binding this block is declared at: slot 0, vertex stage, a
    /// plain uniform buffer.
    pub fn layout() -> (r: UniformBindingDesc)
        ensures
            r == (UniformBindingDesc { binding: 0u32, vertex_visible: true, dynamic_offset: false }),
    {
        UniformBindingDesc { binding: 0, vertex_visible: true, dynamic_offset: false }
    }

    /// The 128-byte upload image of this block.
    pub fn create_buffer(&self) -> (r: Vec<u8>)
        ensures
            r@ == viewproj_bytes(*self),
    {
        let mut out: Vec<u8> = Vec::new();
        push_mat(&mut out, &self.view);
        push_mat(&mut out, &self.proj);
        out
    }

    /// Read a block back from its 128-byte image.
    pub fn from_bytes(bytes: &Vec<u8>) -> (r: Option<ViewProjUniform>)
        ensures
            match r {
                Some(u) => bytes@.len() == 128 && u == parse_viewproj(bytes@),
                None => bytes@.len() != 128,
            },
    {
        if bytes.len() != 128 {
            return None;
        }
        let view = read_mat(bytes, 0);
        let proj = read_mat(bytes, 16);
        Some(ViewProjUniform { view, proj })
    }
}

/// Read the matrix whose 16 words start at word-offset `k`.
fn read_mat(bytes: &Vec<u8>, k: usize) -> (r: Mat4b)
    requires
        4 * (k + 16) <= bytes@.len(),
        bytes@.len() <= usize::MAX,
    ensures
        r == parse_mat(bytes@, k as int),
{
    let mut e: [u32; 16] = [0; 16];
    let mut i: usize = 0;
    while i < 16
        invariant
            i <= 16,
            4 * (k + 16) <= bytes@.len(),
            bytes@.len() <= usize::MAX,
            forall|j: int| 0 <= j < i ==> e@[j] == word_at(bytes@, k + j),
        decreases 16 - i,
    {
        let w = crate::bytes::read_word(bytes, 4 * (k + i));
        e[i] = w;
        i = i + 1;
    }
    let m = Mat4b { e };
    proof {
        assert(m.e@ =~= parse_mat(bytes@, k as int).e@);
        assert(m =~= parse_mat(bytes@, k as int));
    }
    m
}

impl TransformUniform {
    /// The binding this block is declared at: slot 0, vertex stage, a
    /// plain uniform buffer.
    pub fn layout() -> (r: UniformBindingDesc)
        ensures
            r == (UniformBindingDesc { binding: 0u32, vertex_visible: true, dynamic_offset: false }),
    {
        UniformBindingDesc { binding: 0, vertex_visible: true, dynamic_offset: false }
    }

    /// The 64-byte upload image of this block.
    pub fn create_buffer(&self) -> (r: Vec<u8>)
        ensures
            r@ == transform_bytes(*self),
    {
        let mut out: Vec<u8> = Vec::new();
        push_mat(&mut out, &self.model);
        out
    }

    /// A bind group holding this block's buffer at binding 0.
    pub fn create_bind_group(&self) -> (r: UniformBindGroupDesc)
        ensures
            r.binding == 0,
            r.buffer@ == transform_bytes(*self),
    {
        UniformBindGroupDesc { binding: 0, buffer: self.create_buffer() }
    }
}

} // verus!
