//! Pixel extraction: any decoded RGBA grid becomes a flat, row-major buffer
//! of RGBA8 pixels with its width and height.

use vstd::prelude::*;

verus! {

/// One pixel: red, green, blue and alpha, eight bits each.
#[derive(Debug, Clone, Copy, PartialEq, Eq, Structural)]
pub struct Rgba8 {
    pub r: u8,
    pub g: u8,
    pub b: u8,
    pub a: u8,
}

/// The pixel whose four samples start at `4 * i` in `s`.
pub open spec fn pixel_at(s: Seq<u8>, i: int) -> Rgba8 {
    Rgba8 { r: s[4 * i], g: s[4 * i + 1], b: s[4 * i + 2], a: s[4 * i + 3] }
}

/// The first `n` pixels of a sample sequence, four samples (R, G, B, A) each.
pub open spec fn pixels_of(s: Seq<u8>, n: nat) -> Seq<Rgba8> {
    Seq::new(n, |i: int| pixel_at(s, i))
}

/// Sample `c` (0 red, 1 green, 2 blue, 3 alpha) of a pixel.
pub open spec fn channel(p: Rgba8, c: int) -> u8 {
    if c == 0 {
        p.r
    } else if c == 1 {
        p.g
    } else if c == 2 {
        p.b
    } else {
        p.a
    }
}

/// The samples of a pixel sequence, four per pixel in R, G, B, A order.
pub open spec fn samples_of(p: Seq<Rgba8>) -> Seq<u8> {
    Seq::new(4 * p.len(), |k: int| channel(p[k / 4], k % 4))
}

/// A decoded image as a flat pixel buffer.
pub struct ImageInfo {
    /// RGBA pixels, row by row.
    pub buffer: Vec<Rgba8>,
    /// Width in pixels
    pub width: usize,
    /// Height in pixels
    pub height: usize,
}

impl ImageInfo {
    /// One pixel per cell of the grid.
    pub open spec fn well_formed(&self) -> bool {
        self.buffer@.len() == self.width * self.height
    }

    /// Extracts a `width` by `height` grid from RGBA samples, row by row;
    /// samples past the grid are ignored.
    pub fn extract(width: usize, height: usize, samples: &[u8]) -> (r: ImageInfo)
        requires
            4 * width * height <= samples@.len(),
        ensures
            r.width == width,
            r.height == height,
            r.well_formed(),
            r.buffer@ == pixels_of(samples@, (width * height) as nat),
    {
        proof {
            assert(width * height <= 4 * width * height) by (nonlinear_arith);
            assert(4 * width * height == 4 * (width * height)) by (nonlinear_arith);
        }
        let len: usize = samples.len();
        let n: usize = width * height;
        let mut buffer: Vec<Rgba8> = Vec::with_capacity(n);
        let mut i: usize = 0;
        assert(buffer@ =~= pixels_of(samples@, 0));
        while i < n
            invariant
                i <= n,
                n == width * height,
                4 * n <= samples@.len(),
                len == samples@.len(),
                buffer@ == pixels_of(samples@, i as nat),
            decreases n - i,
        {
            assert(4 * i + 3 < 4 * n);
            let k: usize = 4 * i;
            buffer.push(Rgba8 { r: samples[k], g: samples[k + 1], b: samples[k + 2], a: samples[k + 3] });
            i = i + 1;
            assert(buffer@ =~= pixels_of(samples@, i as nat));
        }
        ImageInfo { buffer, width, height }
    }

    /// The samples of the buffer, four per pixel in R, G, B, A order.
    pub fn to_samples(&self) -> (r: Vec<u8>)
        requires
            4 * self.buffer@.len() <= usize::MAX,
        ensures
            r@ == samples_of(self.buffer@),
    {
        let mut out: Vec<u8> = Vec::with_capacity(4 * self.buffer.len());
        let mut i: usize = 0;
        while i < self.buffer.len()
            invariant
                i <= self.buffer@.len(),
                4 * self.buffer@.len() <= usize::MAX,
                out@ == samples_of(self.buffer@.subrange(0, i as int)),
            decreases self.buffer@.len() - i,
        {
            let p = self.buffer[i];
            proof {
                let before = self.buffer@.subrange(0, i as int);
                let after = self.buffer@.subrange(0, i + 1);
                assert(after =~= before.push(p));
            }
            out.push(p.r);
            out.push(p.g);
            out.push(p.b);
            out.push(p.a);
            i = i + 1;
            assert(out@ =~= samples_of(self.buffer@.subrange(0, i as int)));
        }
        assert(self.buffer@.subrange(0, i as int) =~= self.buffer@);
        out
    }
}

/// Splitting the samples of a pixel sequence back into pixels gives the same
/// sequence: extracting an already extracted grid changes nothing.
pub proof fn lemma_extract_round_trip(p: Seq<Rgba8>)
    ensures
        samples_of(p).len() == 4 * p.len(),
        pixels_of(samples_of(p), p.len()) == p,
{
    let s = samples_of(p);
    assert forall|i: int| 0 <= i < p.len() implies #[trigger] pixel_at(s, i) == p[i] by {
        assert((4 * i) / 4 == i && (4 * i) % 4 == 0) by (nonlinear_arith);
        assert((4 * i + 1) / 4 == i && (4 * i + 1) % 4 == 1) by (nonlinear_arith);
        assert((4 * i + 2) / 4 == i && (4 * i + 2) % 4 == 2) by (nonlinear_arith);
        assert((4 * i + 3) / 4 == i && (4 * i + 3) % 4 == 3) by (nonlinear_arith);
        assert(4 * i + 3 < 4 * p.len()) by (nonlinear_arith) requires i < p.len();
    }
    assert(pixels_of(s, p.len()) =~= p);
}

/// Extraction yields one pixel per grid cell, and extracting the samples of
/// an extracted grid once more gives the same grid.
pub proof fn lemma_extract_idempotent(width: nat, height: nat, s: Seq<u8>)
    requires
        4 * width * height <= s.len(),
    ensures
        pixels_of(s, width * height).len() == width * height,
        pixels_of(samples_of(pixels_of(s, width * height)), width * height)
            == pixels_of(s, width * height),
{
    lemma_extract_round_trip(pixels_of(s, width * height));
}

/// A well-formed grid, flattened to its samples and extracted again at its
/// own size, gives back the same pixels, one per cell.
pub proof fn lemma_reextract_grid(info: ImageInfo)
    requires
        info.well_formed(),
    ensures
        samples_of(info.buffer@).len() == 4 * info.width * info.height,
        pixels_of(samples_of(info.buffer@), (info.width * info.height) as nat) == info.buffer@,
        pixels_of(samples_of(info.buffer@), (info.width * info.height) as nat).len() == info.width * info.height,
{
    lemma_extract_round_trip(info.buffer@);
    assert(4 * (info.width * info.height) == 4 * info.width * info.height) by (nonlinear_arith);
}

} // verus!
