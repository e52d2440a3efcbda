//! Scoring and selection of recompressed candidates.
//!
//! Each attempted format yields either a scored candidate or a failure. The
//! engine keeps the successes, in the order they were tried, and picks one:
//! the smallest among those within the diff threshold, or, where none is, the
//! one closest to the source.

use vstd::prelude::*;
use vstd::string::*;
use crate::error::{codec_category, ImageError};

verus! {

/// One candidate encoding with its scores.
pub struct ImagePreview {
    /// Perceptual distance from the source, in millionths (0 = identical).
    pub diff: u64,
    /// Size reduction relative to the source, in percent (0..=100).
    pub ratio: usize,
    /// The encoded bytes.
    pub data: Vec<u8>,
    /// Format tag of the encoding, a file extension such as `png`.
    pub image_type: String,
}

/// `round(100 * (1 - encoded / source))`, halves rounded up, clamped to 0..=100.
/// A candidate no smaller than its source, or an empty source, saves nothing.
pub open spec fn ratio_of(source_len: nat, encoded_len: nat) -> nat {
    if source_len == 0 || encoded_len >= source_len {
        0
    } else {
        let s = source_len as int;
        let saved = s - encoded_len as int;
        ((200 * saved + s) / (2 * s)) as nat
    }
}

/// Size reduction in percent of an encoding of `encoded_len` bytes against a
/// source of `source_len` bytes.
pub fn compression_ratio(source_len: usize, encoded_len: usize) -> (r: usize)
    ensures
        r == ratio_of(source_len as nat, encoded_len as nat),
        r <= 100,
{
    proof {
        lemma_ratio_in_range(source_len as nat, encoded_len as nat);
    }
    if source_len == 0 || encoded_len >= source_len {
        0
    } else {
        let s: u128 = source_len as u128;
        let saved: u128 = (source_len - encoded_len) as u128;
        let r: u128 = (200 * saved + s) / (2 * s);
        r as usize
    }
}

/// The ratio of every candidate lies in 0..=100.
pub proof fn lemma_ratio_in_range(source_len: nat, encoded_len: nat)
    ensures
        ratio_of(source_len, encoded_len) <= 100,
{
    if source_len != 0 && encoded_len < source_len {
        let s = source_len as int;
        let saved = (source_len - encoded_len) as int;
        assert(200 * saved + s < 101 * (2 * s)) by (nonlinear_arith)
            requires
                0 < saved <= s,
        ;
        assert((200 * saved + s) / (2 * s) <= 100) by (nonlinear_arith)
            requires
                200 * saved + s < 101 * (2 * s),
                s > 0,
        ;
    }
}

impl ImagePreview {
    /// A candidate of `data` in format `image_type` at distance `diff`, scored
    /// against a source of `source_len` bytes.
    pub fn new(data: Vec<u8>, image_type: String, diff: u64, source_len: usize) -> (r: ImagePreview)
        ensures
            r.data@ == data@,
            r.image_type@ == image_type@,
            r.diff == diff,
            r.ratio == ratio_of(source_len as nat, data@.len()),
            r.ratio <= 100,
    {
        let ratio = compression_ratio(source_len, data.len());
        ImagePreview { diff, ratio, data, image_type }
    }
}

/// Whether a candidate is within the threshold; with no threshold every one is.
pub open spec fn meets(c: ImagePreview, threshold: Option<u64>) -> bool {
    match threshold {
        Some(t) => c.diff <= t,
        None => true,
    }
}

/// Whether some candidate is within the threshold.
pub open spec fn any_meets(cs: Seq<ImagePreview>, threshold: Option<u64>) -> bool {
    exists|j: int| 0 <= j < cs.len() && #[trigger] meets(cs[j], threshold)
}

/// Order among candidates within the threshold: fewer bytes, then lower diff.
pub open spec fn smaller_first(a: ImagePreview, b: ImagePreview) -> bool {
    a.data@.len() < b.data@.len() || (a.data@.len() == b.data@.len() && a.diff < b.diff)
}

/// Order where no candidate is within the threshold: lower diff, then fewer bytes.
pub open spec fn closer_first(a: ImagePreview, b: ImagePreview) -> bool {
    a.diff < b.diff || (a.diff == b.diff && a.data@.len() < b.data@.len())
}

/// Whether candidate `i` takes part in the choice.
pub open spec fn eligible(cs: Seq<ImagePreview>, threshold: Option<u64>, i: int) -> bool {
    any_meets(cs, threshold) ==> meets(cs[i], threshold)
}

/// Whether `a` is strictly preferred to `b` in the choice among `cs`.
pub open spec fn beats(cs: Seq<ImagePreview>, threshold: Option<u64>, a: ImagePreview, b: ImagePreview) -> bool {
    if any_meets(cs, threshold) {
        smaller_first(a, b)
    } else {
        closer_first(a, b)
    }
}

/// Whether `i` is the candidate chosen among `cs`: eligible, beaten by no other
/// eligible candidate, and strictly better than every eligible one tried before it.
pub open spec fn is_choice(cs: Seq<ImagePreview>, threshold: Option<u64>, i: int) -> bool {
    &&& 0 <= i < cs.len()
    &&& eligible(cs, threshold, i)
    &&& forall|j: int|
        0 <= j < cs.len() && #[trigger] eligible(cs, threshold, j) ==> !beats(
            cs,
            threshold,
            cs[j],
            cs[i],
        ) && (j < i ==> beats(cs, threshold, cs[i], cs[j]))
}

fn within(c: &ImagePreview, threshold: Option<u64>) -> (r: bool)
    ensures
        r == meets(*c, threshold),
{
    match threshold {
        Some(t) => c.diff <= t,
        None => true,
    }
}

fn preferred(a: &ImagePreview, b: &ImagePreview, by_size: bool) -> (r: bool)
    ensures
        r == if by_size {
            smaller_first(*a, *b)
        } else {
            closer_first(*a, *b)
        },
{
    let la = a.data.len();
    let lb = b.data.len();
    if by_size {
        la < lb || (la == lb && a.diff < b.diff)
    } else {
        a.diff < b.diff || (a.diff == b.diff && la < lb)
    }
}

/// The index of the candidate to keep, or `None` when there is none.
pub fn select_index(cs: &Vec<ImagePreview>, threshold: Option<u64>) -> (r: Option<usize>)
    ensures
        r is None <==> cs@.len() == 0,
        r matches Some(i) ==> is_choice(cs@, threshold, i as int),
{
    let mut found = false;
    let mut k: usize = 0;
    while k < cs.len()
        invariant
            k <= cs@.len(),
            found == exists|j: int| 0 <= j < k && #[trigger] meets(cs@[j], threshold),
        decreases cs@.len() - k,
    {
        if within(&cs[k], threshold) {
            found = true;
        }
        k = k + 1;
    }
    assert(found == any_meets(cs@, threshold));
    let mut best: Option<usize> = None;
    let mut i: usize = 0;
    while i < cs.len()
        invariant
            i <= cs@.len(),
            found == any_meets(cs@, threshold),
            best is None <==> forall|j: int| 0 <= j < i ==> !#[trigger] eligible(cs@, threshold, j),
            best matches Some(b) ==> {
                &&& b < i
                &&& eligible(cs@, threshold, b as int)
                &&& forall|j: int|
                    0 <= j < i && #[trigger] eligible(cs@, threshold, j) ==> !beats(
                        cs@,
                        threshold,
                        cs@[j],
                        cs@[b as int],
                    ) && (j < b ==> beats(cs@, threshold, cs@[b as int], cs@[j]))
            },
        decreases cs@.len() - i,
    {
        let takes_part = !found || within(&cs[i], threshold);
        assert(takes_part == eligible(cs@, threshold, i as int));
        if takes_part {
            match best {
                None => {
                    best = Some(i);
                },
                Some(b) => {
                    if preferred(&cs[i], &cs[b], found) {
                        best = Some(i);
                    }
                },
            }
        }
        i = i + 1;
    }
    proof {
        if cs@.len() > 0 && best is None {
            if !found {
                assert(eligible(cs@, threshold, 0));
            } else {
                let w = choose|j: int| 0 <= j < cs@.len() && #[trigger] meets(cs@[j], threshold);
                assert(eligible(cs@, threshold, w));
            }
        }
    }
    best
}

/// The successful candidates among `outcomes`, in the order they were tried.
pub open spec fn successes(outcomes: Seq<Result<ImagePreview, ImageError>>) -> Seq<ImagePreview>
    decreases outcomes.len(),
{
    if outcomes.len() == 0 {
        Seq::empty()
    } else {
        let rest = successes(outcomes.drop_last());
        match outcomes.last() {
            Ok(p) => rest.push(p),
            Err(_) => rest,
        }
    }
}

/// Picks the preview among the outcomes of all format attempts. Fails with a
/// codec error exactly when no attempt succeeded.
pub fn choose_preview(outcomes: Vec<Result<ImagePreview, ImageError>>, threshold: Option<u64>) -> (r: Result<
    ImagePreview,
    ImageError,
>)
    ensures
        r is Err <==> successes(outcomes@).len() == 0,
        r matches Err(e) ==> e.category@ == codec_category(),
        r matches Ok(p) ==> exists|i: int|
            is_choice(successes(outcomes@), threshold, i) && p == #[trigger] successes(outcomes@)[i],
{
    let ghost all = outcomes@;
    let total: usize = outcomes.len();
    let mut rest = outcomes;
    let mut done: usize = 0;
    let mut kept: Vec<ImagePreview> = Vec::new();
    while rest.len() > 0
        invariant
            done + rest@.len() == all.len(),
            all.len() == total,
            rest@ == all.subrange(done as int, all.len() as int),
            kept@ == successes(all.subrange(0, done as int)),
        decreases rest@.len(),
    {
        let o = rest.remove(0);
        proof {
            assert(all.subrange(0, done + 1).drop_last() =~= all.subrange(0, done as int));
            assert(all.subrange(0, done + 1).last() == o);
        }
        match o {
            Ok(p) => kept.push(p),
            Err(_) => {},
        }
        done = done + 1;
        assert(rest@ =~= all.subrange(done as int, all.len() as int));
    }
    assert(all.subrange(0, done as int) =~= all);
    match select_index(&kept, threshold) {
        None => Err(ImageError::codec(String::from_str("no format could be encoded"))),
        Some(i) => {
            let ghost cs = kept@;
            let p = kept.remove(i);
            assert(p == cs[i as int]);
            Ok(p)
        },
    }
}

/// The chosen candidate is within the threshold, or, where none is, no other
/// candidate is closer to the source.
pub proof fn lemma_choice_meets_threshold_or_closest(
    cs: Seq<ImagePreview>,
    threshold: Option<u64>,
    i: int,
)
    requires
        is_choice(cs, threshold, i),
    ensures
        meets(cs[i], threshold) || forall|j: int| 0 <= j < cs.len() ==> cs[i].diff <= #[trigger] cs[j].diff,
{
    if !any_meets(cs, threshold) {
        assert forall|j: int| 0 <= j < cs.len() implies cs[i].diff <= #[trigger] cs[j].diff by {
            assert(eligible(cs, threshold, j));
        }
    }
}

} // verus!
