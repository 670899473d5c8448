//! Byte layout of the GPU-visible uniform blocks.
//!
//! The shaders read three fixed-layout blocks: a 192-byte transform block
//! (model matrix at byte 0, combined projection-view matrix at byte 64,
//! normal matrix at byte 128), a 32-byte lighting block (light position at
//! byte 0, eye position at byte 16, each padded to a 16-byte boundary), and
//! a 32-byte material block. Every 32-bit word is laid out little-endian,
//! the byte order the GPU consumes buffer data in.

use vstd::bytes::lemma_auto_spec_u32_to_from_le_bytes;
use vstd::bytes::spec_u32_from_le_bytes;
use vstd::bytes::spec_u32_to_le_bytes;
use vstd::bytes::u32_from_le_bytes;
use vstd::bytes::u32_to_le_bytes;
use vstd::prelude::*;
use vstd::slice::slice_subrange;

use crate::light::Light;
use crate::repr::Mat4;
use crate::repr::Vec3;

verus! {

/// Size in bytes of the transform block.
pub const TRANSFORM_BLOCK_SIZE: usize = 192;

/// Size in bytes of one packed 4x4 matrix.
pub const MATRIX_SIZE: usize = 64;

/// Byte offset of the projection-view matrix inside the transform block.
pub const PROJECTION_VIEW_OFFSET: usize = 64;

/// Byte offset of the normal matrix inside the transform block.
pub const NORMAL_OFFSET: usize = 128;

/// Size in bytes of the lighting block.
pub const LIGHTING_BLOCK_SIZE: usize = 32;

/// Byte offset of the eye position inside the lighting block.
pub const EYE_OFFSET: usize = 16;

/// Size in bytes of the material block.
pub const MATERIAL_BLOCK_SIZE: usize = 32;

/// The little-endian bytes of a sequence of 32-bit words, in order.
pub open spec fn words_bytes(ws: Seq<u32>) -> Seq<u8> {
    Seq::new(4 * ws.len(), |i: int| spec_u32_to_le_bytes(ws[i / 4])[i % 4])
}

/// The words read back from a byte sequence, four little-endian bytes each.
pub open spec fn bytes_words(bs: Seq<u8>) -> Seq<u32> {
    Seq::new(bs.len() / 4, |i: int| spec_u32_from_le_bytes(bs.subrange(4 * i, 4 * i + 4)))
}

/// Packing one more word appends exactly its four little-endian bytes.
proof fn lemma_words_bytes_extend(ws: Seq<u32>, i: int)
    requires
        0 <= i < ws.len(),
    ensures
        words_bytes(ws.take(i + 1)) == words_bytes(ws.take(i)) + spec_u32_to_le_bytes(ws[i]),
{
    lemma_auto_spec_u32_to_from_le_bytes();
    let lhs = words_bytes(ws.take(i + 1));
    let rhs = words_bytes(ws.take(i)) + spec_u32_to_le_bytes(ws[i]);
    assert forall|j: int| 0 <= j < lhs.len() implies lhs[j] == rhs[j] by {
        assert(j / 4 <= i);
        if j < 4 * i {
            assert(j / 4 < i);
        } else {
            assert(j / 4 == i);
        }
    }
    assert(lhs =~= rhs);
}

/// Reading the packed bytes back yields the words that were packed.
pub proof fn lemma_words_bytes_roundtrip(ws: Seq<u32>)
    ensures
        bytes_words(words_bytes(ws)) == ws,
{
    lemma_auto_spec_u32_to_from_le_bytes();
    assert forall|i: int| 0 <= i < ws.len() implies bytes_words(words_bytes(ws))[i] == ws[i] by {
        assert(words_bytes(ws).subrange(4 * i, 4 * i + 4) =~= spec_u32_to_le_bytes(ws[i])) by {
            assert forall|j: int| 0 <= j < 4 implies words_bytes(ws)[4 * i + j]
                == spec_u32_to_le_bytes(ws[i])[j] by {
                assert((4 * i + j) / 4 == i && (4 * i + j) % 4 == j);
            }
        }
    }
    assert(bytes_words(words_bytes(ws)) =~= ws);
}

/// Appends the four little-endian bytes of one word.
fn push_word(out: &mut Vec<u8>, w: u32)
    ensures
        final(out)@ == old(out)@ + spec_u32_to_le_bytes(w),
{
    proof {
        lemma_auto_spec_u32_to_from_le_bytes();
    }
    let bs = u32_to_le_bytes(w);
    out.push(bs[0]);
    out.push(bs[1]);
    out.push(bs[2]);
    out.push(bs[3]);
    proof {
        assert(out@ =~= old(out)@ + spec_u32_to_le_bytes(w));
    }
}

/// Appends the 64 bytes of one matrix, word by word in column-major order.
fn push_mat(out: &mut Vec<u8>, m: &Mat4)
    ensures
        final(out)@ == old(out)@ + words_bytes(m@),
{
    let ghost orig = out@;
    for i in 0..16
        invariant
            out@ == orig + words_bytes(m@.take(i as int)),
            m@.len() == 16,
    {
        push_word(out, m.m[i]);
        proof {
            lemma_words_bytes_extend(m@, i as int);
        }
    }
    proof {
        assert(m@.take(16) =~= m@);
    }
}

/// The transform block: model matrix, then projection-view matrix, then
/// normal matrix, 64 bytes each.
pub open spec fn transform_block_bytes(model: Seq<u32>, projection_view: Seq<u32>, normal: Seq<u32>) -> Seq<u8> {
    words_bytes(model) + words_bytes(projection_view) + words_bytes(normal)
}

/// Packs the three matrices of the transform block at byte offsets 0, 64
/// and 128 of a 192-byte block.
pub fn write_transform_block(model: &Mat4, projection_view: &Mat4, normal: &Mat4) -> (b: Vec<u8>)
    ensures
        b@ == transform_block_bytes(model@, projection_view@, normal@),
        b@.len() == TRANSFORM_BLOCK_SIZE,
        b@.subrange(0, 64) == words_bytes(model@),
        b@.subrange(64, 128) == words_bytes(projection_view@),
        b@.subrange(128, 192) == words_bytes(normal@),
{
    let mut b: Vec<u8> = Vec::new();
    push_mat(&mut b, model);
    push_mat(&mut b, projection_view);
    push_mat(&mut b, normal);
    proof {
        assert(b@.subrange(0, 64) =~= words_bytes(model@));
        assert(b@.subrange(64, 128) =~= words_bytes(projection_view@));
        assert(b@.subrange(128, 192) =~= words_bytes(normal@));
    }
    b
}

/// The lighting block: light position then eye position, each three words
/// padded to 16 bytes with a zero word.
pub open spec fn lighting_block_bytes(light: (u32, u32, u32), eye: (u32, u32, u32)) -> Seq<u8> {
    words_bytes(seq![light.0, light.1, light.2, 0u32, eye.0, eye.1, eye.2, 0u32])
}

/// Packs the lighting block: light position at byte 0, eye position at
/// byte 16, 32 bytes in all.
pub fn write_lighting_block(light: &Vec3, eye: &Vec3) -> (b: Vec<u8>)
    ensures
        b@ == lighting_block_bytes(light@, eye@),
        b@.len() == LIGHTING_BLOCK_SIZE,
        b@.subrange(0, 12) == words_bytes(seq![light.x, light.y, light.z]),
        b@.subrange(16, 28) == words_bytes(seq![eye.x, eye.y, eye.z]),
{
    let mut b: Vec<u8> = Vec::new();
    push_word(&mut b, light.x);
    push_word(&mut b, light.y);
    push_word(&mut b, light.z);
    push_word(&mut b, 0);
    push_word(&mut b, eye.x);
    push_word(&mut b, eye.y);
    push_word(&mut b, eye.z);
    push_word(&mut b, 0);
    proof {
        lemma_auto_spec_u32_to_from_le_bytes();
        lemma_lighting_layout(light@, eye@, b@);
    }
    b
}

/// Ties the concatenated little-endian bytes of the eight lighting words to
/// the block spec and its two sub-fields.
proof fn lemma_lighting_layout(light: (u32, u32, u32), eye: (u32, u32, u32), b: Seq<u8>)
    requires
        b == spec_u32_to_le_bytes(light.0) + spec_u32_to_le_bytes(light.1)
            + spec_u32_to_le_bytes(light.2) + spec_u32_to_le_bytes(0u32)
            + spec_u32_to_le_bytes(eye.0) + spec_u32_to_le_bytes(eye.1)
            + spec_u32_to_le_bytes(eye.2) + spec_u32_to_le_bytes(0u32),
    ensures
        b == lighting_block_bytes(light, eye),
        b.len() == 32,
        b.subrange(0, 12) == words_bytes(seq![light.0, light.1, light.2]),
        b.subrange(16, 28) == words_bytes(seq![eye.0, eye.1, eye.2]),
{
    lemma_auto_spec_u32_to_from_le_bytes();
    let ws = seq![light.0, light.1, light.2, 0u32, eye.0, eye.1, eye.2, 0u32];
    assert forall|j: int| 0 <= j < 32 implies b[j] == words_bytes(ws)[j] by {
        assert(0 <= j / 4 < 8 && 4 * (j / 4) <= j < 4 * (j / 4) + 4);
    }
    assert(b =~= lighting_block_bytes(light, eye));
    let lw = seq![light.0, light.1, light.2];
    assert forall|j: int| 0 <= j < 12 implies b.subrange(0, 12)[j] == words_bytes(lw)[j] by {
        assert(0 <= j / 4 < 3);
    }
    assert(b.subrange(0, 12) =~= words_bytes(lw));
    let ew = seq![eye.0, eye.1, eye.2];
    assert forall|j: int| 0 <= j < 12 implies b.subrange(16, 28)[j] == words_bytes(ew)[j] by {
        assert((16 + j) / 4 == 4 + j / 4 && (16 + j) % 4 == j % 4);
    }
    assert(b.subrange(16, 28) =~= words_bytes(ew));
}

/// The words of the material block: specular color, then the four scalar
/// parameters.
pub open spec fn material_words(l: Light) -> Seq<u32> {
    seq![
        l.specular_color[0],
        l.specular_color[1],
        l.specular_color[2],
        l.specular_color[3],
        l.ambient,
        l.diffuse,
        l.specular_intensity,
        l.specular_shininess,
    ]
}

/// The material block: the eight material words, little-endian.
pub open spec fn material_block_bytes(l: Light) -> Seq<u8> {
    words_bytes(material_words(l))
}

/// Packs the material block, 32 bytes.
pub fn write_material_block(l: &Light) -> (b: Vec<u8>)
    ensures
        b@ == material_block_bytes(*l),
        b@.len() == MATERIAL_BLOCK_SIZE,
{
    let mut b: Vec<u8> = Vec::new();
    push_word(&mut b, l.specular_color[0]);
    push_word(&mut b, l.specular_color[1]);
    push_word(&mut b, l.specular_color[2]);
    push_word(&mut b, l.specular_color[3]);
    push_word(&mut b, l.ambient);
    push_word(&mut b, l.diffuse);
    push_word(&mut b, l.specular_intensity);
    push_word(&mut b, l.specular_shininess);
    proof {
        lemma_auto_spec_u32_to_from_le_bytes();
        let ws = material_words(*l);
        assert forall|j: int| 0 <= j < 32 implies b@[j] == words_bytes(ws)[j] by {
            assert(0 <= j / 4 < 8 && 4 * (j / 4) <= j < 4 * (j / 4) + 4);
        }
        assert(b@ =~= material_block_bytes(*l));
    }
    b
}

/// Reads the word at word index `i` of a byte block.
pub fn read_word(b: &Vec<u8>, i: usize) -> (w: u32)
    requires
        4 * i + 4 <= b@.len(),
    ensures
        w == spec_u32_from_le_bytes(b@.subrange(4 * i as int, 4 * i as int + 4)),
{
    let _len: usize = b.len();
    let s = slice_subrange(b.as_slice(), 4 * i, 4 * i + 4);
    u32_from_le_bytes(s)
}

/// Reads one 4x4 matrix back from a byte block, starting at word index
/// `word_offset`.
pub fn read_mat(b: &Vec<u8>, word_offset: usize) -> (m: Mat4)
    requires
        4 * word_offset + 64 <= b@.len(),
    ensures
        m@ == bytes_words(b@.subrange(4 * word_offset as int, 4 * word_offset as int + 64)),
{
    let _len: usize = b.len();
    let m = Mat4 {
        m: [
            read_word(b, word_offset), read_word(b, word_offset + 1),
            read_word(b, word_offset + 2), read_word(b, word_offset + 3),
            read_word(b, word_offset + 4), read_word(b, word_offset + 5),
            read_word(b, word_offset + 6), read_word(b, word_offset + 7),
            read_word(b, word_offset + 8), read_word(b, word_offset + 9),
            read_word(b, word_offset + 10), read_word(b, word_offset + 11),
            read_word(b, word_offset + 12), read_word(b, word_offset + 13),
            read_word(b, word_offset + 14), read_word(b, word_offset + 15),
        ],
    };
    proof {
        let wo = word_offset as int;
        let sub = b@.subrange(4 * wo, 4 * wo + 64);
        assert forall|i: int| 0 <= i < 16 implies m@[i] == bytes_words(sub)[i] by {
            assert(sub.subrange(4 * i, 4 * i + 4) =~= b@.subrange(4 * (wo + i), 4 * (wo + i) + 4));
        }
        assert(m@ =~= bytes_words(sub));
    }
    m
}

/// Law: the three matrices of a transform block land at byte offsets 0, 64
/// and 128, and reading any of them back yields exactly the words written.
pub proof fn lemma_transform_block_roundtrip(model: Seq<u32>, projection_view: Seq<u32>, normal: Seq<u32>)
    requires
        model.len() == 16,
        projection_view.len() == 16,
        normal.len() == 16,
    ensures
        bytes_words(transform_block_bytes(model, projection_view, normal).subrange(0, 64)) == model,
        bytes_words(transform_block_bytes(model, projection_view, normal).subrange(64, 128)) == projection_view,
        bytes_words(transform_block_bytes(model, projection_view, normal).subrange(128, 192)) == normal,
{
    let b = transform_block_bytes(model, projection_view, normal);
    assert(b.subrange(0, 64) =~= words_bytes(model));
    assert(b.subrange(64, 128) =~= words_bytes(projection_view));
    assert(b.subrange(128, 192) =~= words_bytes(normal));
    lemma_words_bytes_roundtrip(model);
    lemma_words_bytes_roundtrip(projection_view);
    lemma_words_bytes_roundtrip(normal);
}

} // verus!
