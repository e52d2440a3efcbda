//! The lossless PNG attempt of the engine: the source pixels are encoded with
//! lodepng, decoded back, and kept only where the round trip gives back
//! exactly the source pixels, which makes its diff zero.

use vstd::prelude::*;
use vstd::string::*;
use crate::engine::{choose_preview, is_choice, ratio_of, successes, ImagePreview};
use crate::error::{codec_category, ImageError};
use crate::pixels::{pixel_at, pixels_of, samples_of, ImageInfo};

verus! {

/// The PNG file that lodepng writes for RGBA samples of the given size.
/// `None` where lodepng refuses to encode them.
pub uninterp spec fn png_encoding(samples: Seq<u8>, width: nat, height: nat) -> Option<Seq<u8>>;

/// Width, height and RGBA samples that lodepng reads from a PNG file.
/// `None` where lodepng cannot decode them.
pub uninterp spec fn png_decoding(bytes: Seq<u8>) -> Option<(nat, nat, Seq<u8>)>;

/// Relies on lodepng's `encode32`: the PNG encoding of 8-bit RGBA samples,
/// which must number exactly four per pixel.
#[verifier::external_body]
fn encode_png(samples: &[u8], width: usize, height: usize) -> (r: Result<Vec<u8>, lodepng::Error>)
    requires
        samples@.len() == 4 * width * height,
    ensures
        r is Ok <==> png_encoding(samples@, width as nat, height as nat) is Some,
        r matches Ok(b) ==> png_encoding(samples@, width as nat, height as nat) == Some(b@),
{
    lodepng::encode32(samples, width, height)
}

/// Relies on lodepng's `decode32`: a PNG file decoded to 8-bit RGBA, its
/// pixels given back as their samples.
#[verifier::external_body]
fn decode_png(bytes: &[u8]) -> (r: Result<(usize, usize, Vec<u8>), lodepng::Error>)
    ensures
        r is Ok <==> png_decoding(bytes@) is Some,
        r matches Ok(d) ==> png_decoding(bytes@) == Some((d.0 as nat, d.1 as nat, d.2@)),
{
    match lodepng::decode32(bytes) {
        Ok(b) => Ok((b.width, b.height, lodepng::bytemuck::cast_slice::<lodepng::RGBA, u8>(&b.buffer).to_vec())),
        Err(e) => Err(e),
    }
}

/// The format tag of a PNG candidate.
pub open spec fn png_tag() -> Seq<char> {
    seq!['p', 'n', 'g']
}

/// Whether a decoded grid gives back exactly the pixels of the source.
pub open spec fn same_pixels(source: ImageInfo, width: nat, height: nat, samples: Seq<u8>) -> bool {
    &&& width == source.width
    &&& height == source.height
    &&& samples.len() == 4 * source.buffer@.len()
    &&& pixels_of(samples, source.buffer@.len()) == source.buffer@
}

/// The bytes of the lossless PNG attempt on `source`: its PNG encoding, where
/// lodepng both encodes it and decodes the result back to exactly its pixels.
pub open spec fn lossless_png_of(source: ImageInfo) -> Option<Seq<u8>> {
    match png_encoding(samples_of(source.buffer@), source.width as nat, source.height as nat) {
        Some(b) => match png_decoding(b) {
            Some(d) => if same_pixels(source, d.0, d.1, d.2) {
                Some(b)
            } else {
                None
            },
            None => None,
        },
        None => None,
    }
}

fn same_pixels_exec(source: &ImageInfo, width: usize, height: usize, samples: &Vec<u8>) -> (r: bool)
    requires
        source.well_formed(),
    ensures
        r == same_pixels(*source, width as nat, height as nat, samples@),
{
    let n = source.buffer.len();
    if width != source.width || height != source.height || samples.len() / 4 != n || samples.len() % 4 != 0 {
        return false;
    }
    let len: usize = samples.len();
    let mut i: usize = 0;
    while i < n
        invariant
            i <= n,
            n == source.buffer@.len(),
            len == samples@.len(),
            samples@.len() == 4 * n,
            forall|j: int| 0 <= j < i ==> #[trigger] pixel_at(samples@, j) == source.buffer@[j],
        decreases n - i,
    {
        let k: usize = 4 * i;
        let p = source.buffer[i];
        if samples[k] != p.r || samples[k + 1] != p.g || samples[k + 2] != p.b || samples[k + 3] != p.a {
            assert(pixel_at(samples@, i as int) != source.buffer@[i as int]);
            assert(pixels_of(samples@, n as nat)[i as int] != source.buffer@[i as int]);
            return false;
        }
        i = i + 1;
    }
    assert(pixels_of(samples@, n as nat) =~= source.buffer@);
    true
}

/// Scores a lossless PNG candidate from its bytes and their decoding: kept,
/// with diff zero, exactly where the decoding gives back the source pixels.
pub fn score_lossless(
    source: &ImageInfo,
    encoded: Vec<u8>,
    decoded: (usize, usize, Vec<u8>),
    source_len: usize,
) -> (r: Result<ImagePreview, ImageError>)
    requires
        source.well_formed(),
    ensures
        r is Ok <==> same_pixels(*source, decoded.0 as nat, decoded.1 as nat, decoded.2@),
        r matches Ok(p) ==> {
            &&& p.data@ == encoded@
            &&& p.diff == 0
            &&& p.image_type@ == png_tag()
            &&& p.ratio == ratio_of(source_len as nat, encoded@.len())
        },
        r matches Err(e) ==> e.category@ == codec_category(),
{
    let (width, height, samples) = decoded;
    if same_pixels_exec(source, width, height, &samples) {
        proof {
            reveal_strlit("png");
        }
        Ok(ImagePreview::new(encoded, String::from_str("png"), 0, source_len))
    } else {
        Err(ImageError::codec(String::from_str("lossless round trip changed the pixels")))
    }
}

/// Encodes the source as PNG, decodes the result back and scores it. A
/// candidate comes back only where the round trip kept every pixel; a failure
/// of either lodepng call is a codec error.
pub fn attempt_lossless_png(source: &ImageInfo, source_len: usize) -> (r: Result<ImagePreview, ImageError>)
    requires
        source.well_formed(),
        4 * source.buffer@.len() <= usize::MAX,
    ensures
        r is Ok <==> lossless_png_of(*source) is Some,
        r matches Ok(p) ==> {
            &&& lossless_png_of(*source) == Some(p.data@)
            &&& p.diff == 0
            &&& p.image_type@ == png_tag()
            &&& p.ratio == ratio_of(source_len as nat, p.data@.len())
        },
        r matches Err(e) ==> e.category@ == codec_category(),
{
    let samples = source.to_samples();
    proof {
        assert(samples@.len() == 4 * (source.width * source.height)) by (nonlinear_arith)
            requires
                samples@.len() == 4 * source.buffer@.len(),
                source.buffer@.len() == source.width * source.height,
        ;
        assert(4 * source.width * source.height == 4 * (source.width * source.height)) by (nonlinear_arith);
    }
    let encoded = match encode_png(samples.as_slice(), source.width, source.height) {
        Ok(b) => b,
        Err(e) => {
            return Err(ImageError::from_codec(e));
        },
    };
    let decoded = match decode_png(encoded.as_slice()) {
        Ok(d) => d,
        Err(e) => {
            return Err(ImageError::from_codec(e));
        },
    };
    score_lossless(source, encoded, decoded, source_len)
}

/// Recompresses the source through every format the engine knows (at present
/// lossless PNG) and keeps the candidate that the threshold selects; fails
/// with a codec error where no format succeeded.
pub fn recompress(source: &ImageInfo, source_len: usize, threshold: Option<u64>) -> (r: Result<
    ImagePreview,
    ImageError,
>)
    requires
        source.well_formed(),
        4 * source.buffer@.len() <= usize::MAX,
    ensures
        r matches Err(e) ==> e.category@ == codec_category(),
        r is Ok <==> lossless_png_of(*source) is Some,
        r matches Ok(p) ==> {
            &&& lossless_png_of(*source) == Some(p.data@)
            &&& p.diff == 0
            &&& p.image_type@ == png_tag()
            &&& p.ratio == ratio_of(source_len as nat, p.data@.len())
            &&& p.ratio <= 100
        },
{
    let mut outcomes: Vec<Result<ImagePreview, ImageError>> = Vec::new();
    outcomes.push(attempt_lossless_png(source, source_len));
    let ghost all = outcomes@;
    proof {
        assert(all.drop_last() =~= Seq::<Result<ImagePreview, ImageError>>::empty());
        assert(successes(all.drop_last()) =~= Seq::<ImagePreview>::empty());
    }
    let r = choose_preview(outcomes, threshold);
    proof {
        if r is Ok {
            let p = r->Ok_0;
            let i = choose|i: int| is_choice(successes(all), threshold, i) && p == #[trigger] successes(all)[i];
            assert(successes(all)[i] == all[0]->Ok_0);
            crate::engine::lemma_ratio_in_range(source_len as nat, p.data@.len());
        }
    }
    r
}

} // verus!
