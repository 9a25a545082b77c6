//! Immutable RGBA textures: the background sky and the event-horizon
//! surface.
//!
//! A texture is a validated width/height pair with a row-major RGBA byte
//! buffer; it is uploaded (built) once and only ever read. Samplers take
//! fixed-point coordinates in `[0, 1)` of a unit and always resolve to a
//! texel inside the image, so no lookup reads out of bounds. When no
//! surface asset is supplied, the horizon texture defaults to a one-texel
//! fully transparent black placeholder.

use vstd::prelude::*;

verus! {

/// One RGBA color value.
#[derive(Clone, Copy, Debug, PartialEq, Eq, Structural)]
pub struct Rgba {
    pub r: u8,
    pub g: u8,
    pub b: u8,
    pub a: u8,
}

/// Largest texture edge the pipeline accepts, in texels.
pub const MAX_TEXTURE_EDGE: u32 = 0x4000;

/// Why a texture could not be built.
#[derive(Clone, Copy, Debug, PartialEq, Eq, Structural)]
pub enum TextureError {
    /// A dimension is zero or exceeds `MAX_TEXTURE_EDGE`.
    BadDimensions,
    /// The byte buffer does not hold exactly `width * height` RGBA texels.
    BadLength,
}

/// An immutable 2D RGBA image.
pub struct Texture {
    pub width: u32,
    pub height: u32,
    pub data: Vec<u8>,
}

impl Texture {
    /// Validity: nonzero bounded dimensions and exactly four bytes per
    /// texel.
    pub open spec fn wf(self) -> bool {
        &&& 1 <= self.width <= MAX_TEXTURE_EDGE
        &&& 1 <= self.height <= MAX_TEXTURE_EDGE
        &&& self.data@.len() == self.width * self.height * 4
    }

    /// The texel at column `tx` of row `ty`.
    pub open spec fn spec_texel(self, tx: int, ty: int) -> Rgba {
        let base = 4 * (ty * self.width + tx);
        Rgba {
            r: self.data@[base],
            g: self.data@[base + 1],
            b: self.data@[base + 2],
            a: self.data@[base + 3],
        }
    }

    /// The texel that fixed-point coordinates in `[0, 1)` resolve to.
    pub open spec fn spec_sample(self, u: int, v: int) -> Rgba {
        self.spec_texel((u * self.width) / 65536, (v * self.height) / 65536)
    }

    /// Whether every texel carries the one color `c`.
    pub open spec fn uniform(self, c: Rgba) -> bool {
        forall|tx: int, ty: int|
            0 <= tx < self.width && 0 <= ty < self.height ==> self.spec_texel(tx, ty) == c
    }

    /// Builds a texture from decoded RGBA bytes, refusing empty or
    /// oversized dimensions and a buffer of the wrong length.
    pub fn new(width: u32, height: u32, data: Vec<u8>) -> (out: Result<Texture, TextureError>)
        ensures
            match out {
                Ok(t) => {
                    &&& t.width == width
                    &&& t.height == height
                    &&& t.data@ == data@
                    &&& t.wf()
                },
                Err(TextureError::BadDimensions) => !(1 <= width <= MAX_TEXTURE_EDGE && 1
                    <= height <= MAX_TEXTURE_EDGE),
                Err(TextureError::BadLength) => {
                    &&& 1 <= width <= MAX_TEXTURE_EDGE
                    &&& 1 <= height <= MAX_TEXTURE_EDGE
                    &&& data@.len() != width * height * 4
                },
            },
    {
        if width < 1 || width > MAX_TEXTURE_EDGE || height < 1 || height > MAX_TEXTURE_EDGE {
            return Err(TextureError::BadDimensions);
        }
        proof {
            assert(width as int * height as int <= 0x1000_0000) by (nonlinear_arith)
                requires
                    width <= 0x4000,
                    height <= 0x4000,
            ;
        }
        let texels: u64 = (width as u64) * (height as u64);
        if data.len() != (texels * 4) as usize {
            return Err(TextureError::BadLength);
        }
        Ok(Texture { width, height, data })
    }

    /// The one-texel fully transparent black placeholder used when no
    /// event-horizon surface asset is supplied.
    pub fn placeholder() -> (t: Texture)
        ensures
            t.wf(),
            t.width == 1,
            t.height == 1,
            t.spec_texel(0, 0) == (Rgba { r: 0, g: 0, b: 0, a: 0 }),
            t.uniform(Rgba { r: 0, g: 0, b: 0, a: 0 }),
    {
        let mut data: Vec<u8> = Vec::new();
        data.push(0);
        data.push(0);
        data.push(0);
        data.push(0);
        let t = Texture { width: 1, height: 1, data };
        proof {
            assert(t.spec_texel(0, 0) == (Rgba { r: 0, g: 0, b: 0, a: 0 }));
            assert forall|tx: int, ty: int|
                0 <= tx < t.width && 0 <= ty < t.height implies t.spec_texel(tx, ty) == (Rgba {
                r: 0,
                g: 0,
                b: 0,
                a: 0,
            }) by {
                assert(tx == 0 && ty == 0);
            }
        }
        t
    }

    /// Reads the texel that the fixed-point coordinates resolve to.
    pub fn sample(&self, u: u64, v: u64) -> (c: Rgba)
        requires
            self.wf(),
            u < 65536,
            v < 65536,
        ensures
            c == self.spec_sample(u as int, v as int),
    {
        proof {
            assert(u as int * self.width as int <= 65535 * 0x4000) by (nonlinear_arith)
                requires
                    u <= 65535,
                    self.width <= 0x4000,
            ;
            assert(v as int * self.height as int <= 65535 * 0x4000) by (nonlinear_arith)
                requires
                    v <= 65535,
                    self.height <= 0x4000,
            ;
        }
        let tx = (u * self.width as u64) / 65536;
        let ty = (v * self.height as u64) / 65536;
        proof {
            lemma_sample_coord_in_range(u as int, self.width as int);
            lemma_sample_coord_in_range(v as int, self.height as int);
            assert(self.width as int * self.height as int <= 0x1000_0000) by (nonlinear_arith)
                requires
                    self.width <= 0x4000,
                    self.height <= 0x4000,
            ;
            assert(ty as int * self.width as int + tx < self.width * self.height)
                by (nonlinear_arith)
                requires
                    0 <= tx < self.width,
                    0 <= ty < self.height,
            ;
            assert(4 * (ty as int * self.width as int + tx) + 3 < self.width * self.height * 4)
                by (nonlinear_arith)
                requires
                    ty as int * self.width as int + tx < self.width * self.height,
            ;
        }
        let base = (4 * (ty * self.width as u64 + tx)) as usize;
        Rgba {
            r: self.data[base],
            g: self.data[base + 1],
            b: self.data[base + 2],
            a: self.data[base + 3],
        }
    }

    /// Sampling a texture whose texels all carry one color yields that
    /// color, whatever the coordinates.
    pub proof fn lemma_sample_uniform(self, c: Rgba, u: int, v: int)
        requires
            self.wf(),
            self.uniform(c),
            0 <= u < 65536,
            0 <= v < 65536,
        ensures
            self.spec_sample(u, v) == c,
    {
        lemma_sample_coord_in_range(u, self.width as int);
        lemma_sample_coord_in_range(v, self.height as int);
    }

    /// A one-texel placeholder absorbs every lookup: whatever the result
    /// angle a captured ray recorded, sampling stays inside the texture and
    /// resolves to its single texel.
    pub proof fn lemma_placeholder_single_texel(self, u: int, v: int)
        requires
            self.wf(),
            self.width == 1,
            self.height == 1,
            0 <= u < 65536,
            0 <= v < 65536,
        ensures
            self.spec_sample(u, v) == self.spec_texel(0, 0),
    {
        lemma_sample_coord_in_range(u, 1);
        lemma_sample_coord_in_range(v, 1);
    }
}

/// A fixed-point coordinate under one resolves to a texel inside the edge.
pub proof fn lemma_sample_coord_in_range(u: int, edge: int)
    requires
        0 <= u < 65536,
        edge >= 1,
    ensures
        0 <= (u * edge) / 65536 < edge,
{
    assert(u * edge <= 65535 * edge) by (nonlinear_arith)
        requires
            0 <= u <= 65535,
            edge >= 0,
    ;
    assert(u * edge >= 0) by (nonlinear_arith)
        requires
            u >= 0,
            edge >= 0,
    ;
    assert(65535 * edge / 65536 < edge) by (nonlinear_arith)
        requires
            edge >= 1,
    ;
    assert(u * edge / 65536 <= 65535 * edge / 65536) by (nonlinear_arith)
        requires
            u * edge <= 65535 * edge,
    ;
    assert(u * edge / 65536 >= 0) by (nonlinear_arith)
        requires
            u * edge >= 0,
    ;
}

} // verus!
