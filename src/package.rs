//! Packaging of a chosen preview into response headers.
//!
//! The body of the response is the candidate's bytes; the headers carry its
//! media type, a long-lived cache policy, its diff to two decimals and its
//! ratio. A header whose value HTTP cannot carry is left out.

use vstd::prelude::*;
use vstd::string::*;
use crate::engine::ImagePreview;

verus! {

/// Name of the header that carries the diff.
pub const DIFF_HEADER: &'static str = "X-Dssim-Diff";

/// Name of the header that carries the ratio.
pub const RATIO_HEADER: &'static str = "X-Ratio";

/// What the media type lookup of mime_guess gives for a file extension.
pub uninterp spec fn mime_for_ext(ext: Seq<char>) -> Option<Seq<char>>;

/// Relies on mime_guess's `from_ext(..).first()`: the first media type known
/// for the extension, none for an empty one.
#[verifier::external_body]
fn guess_mime(ext: &str) -> (r: Option<String>)
    ensures
        r matches Some(m) ==> mime_for_ext(ext@) == Some(m@),
        r is None ==> mime_for_ext(ext@) == None::<Seq<char>>,
        ext@.len() == 0 ==> r is None,
{
    match mime_guess::from_ext(ext).first() {
        Some(m) => Some(m.to_string()),
        None => None,
    }
}

/// `image/jpeg`, the media type used when the format tag is not known.
pub open spec fn jpeg_mime() -> Seq<char> {
    seq!['i', 'm', 'a', 'g', 'e', '/', 'j', 'p', 'e', 'g']
}

/// Relies on mime's `IMAGE_JPEG` constant, whose text is `image/jpeg`.
#[verifier::external_body]
fn default_mime() -> (r: String)
    ensures
        r@ == jpeg_mime(),
{
    mime::IMAGE_JPEG.to_string()
}

/// Relies on http's `HeaderValue::from_str`, which accepts a text exactly when
/// each of its bytes is a tab, or at least 32 and not 127.
#[verifier::external_body]
fn header_value_ok(s: &str) -> (r: bool)
    ensures
        r == valid_header_text(s@),
{
    axum::http::HeaderValue::from_str(s).is_ok()
}

/// Whether a header may carry the text: every character is a tab, or a
/// character that encodes to bytes of 32 and above other than 127.
pub open spec fn valid_header_text(s: Seq<char>) -> bool {
    forall|i: int| 0 <= i < s.len() ==> valid_header_char(#[trigger] s[i])
}

/// A character whose UTF-8 bytes a header value may hold.
pub open spec fn valid_header_char(c: char) -> bool {
    c == '\t' || (c as u32 >= 32 && c as u32 != 127)
}

/// The media type for a format tag, `image/jpeg` where the tag is unknown.
pub open spec fn content_type_of(ext: Seq<char>) -> Seq<char> {
    match mime_for_ext(ext) {
        Some(m) => m,
        None => jpeg_mime(),
    }
}

/// The character of a decimal digit.
pub open spec fn digit_char(d: nat) -> char {
    seq!['0', '1', '2', '3', '4', '5', '6', '7', '8', '9'][d as int]
}

/// The decimal text of `n`, without leading zeros.
pub open spec fn decimal(n: nat) -> Seq<char>
    decreases n,
{
    if n < 10 {
        seq![digit_char(n)]
    } else {
        decimal(n / 10).push(digit_char(n % 10))
    }
}

/// A diff in millionths rounded to hundredths, halves up.
pub open spec fn hundredths(diff: nat) -> nat {
    diff / 10000 + if diff % 10000 >= 5000 {
        1nat
    } else {
        0nat
    }
}

/// The text of a diff in millionths with two decimals, such as `0.00` or `12.35`.
pub open spec fn two_decimals(diff: nat) -> Seq<char> {
    let h = hundredths(diff);
    decimal(h / 100) + seq!['.', digit_char((h % 100) / 10), digit_char(h % 10)]
}

/// The cache policy of a preview: public, for thirty days.
pub open spec fn cache_policy() -> Seq<char> {
    "public, max-age=2592000"@
}

fn digit_str(d: u64) -> (r: &'static str)
    requires
        d < 10,
    ensures
        r@ == seq![digit_char(d as nat)],
{
    proof {
        reveal_strlit("0");
        reveal_strlit("1");
        reveal_strlit("2");
        reveal_strlit("3");
        reveal_strlit("4");
        reveal_strlit("5");
        reveal_strlit("6");
        reveal_strlit("7");
        reveal_strlit("8");
        reveal_strlit("9");
    }
    let r = if d == 0 {
        "0"
    } else if d == 1 {
        "1"
    } else if d == 2 {
        "2"
    } else if d == 3 {
        "3"
    } else if d == 4 {
        "4"
    } else if d == 5 {
        "5"
    } else if d == 6 {
        "6"
    } else if d == 7 {
        "7"
    } else if d == 8 {
        "8"
    } else {
        "9"
    };
    assert(r@ =~= seq![digit_char(d as nat)]);
    r
}

fn push_decimal(out: &mut String, n: u64)
    ensures
        final(out)@ == old(out)@ + decimal(n as nat),
    decreases n,
{
    if n >= 10 {
        push_decimal(out, n / 10);
    }
    out.append(digit_str(n % 10));
    proof {
        if n >= 10 {
            assert(decimal(n as nat) == decimal((n / 10) as nat).push(digit_char((n % 10) as nat)));
        }
    }
    assert(out@ =~= old(out)@ + decimal(n as nat));
}

/// The decimal text of `n`.
pub fn decimal_text(n: u64) -> (r: String)
    ensures
        r@ == decimal(n as nat),
{
    let mut out = String::new();
    push_decimal(&mut out, n);
    assert(out@ =~= decimal(n as nat));
    out
}

/// A diff in millionths as text with two decimals, halves rounded up.
pub fn diff_text(diff: u64) -> (r: String)
    ensures
        r@ == two_decimals(diff as nat),
{
    let h: u64 = diff / 10000 + if diff % 10000 >= 5000 {
        1
    } else {
        0
    };
    let mut out = decimal_text(h / 100);
    proof {
        reveal_strlit(".");
    }
    out.append(".");
    out.append(digit_str((h % 100) / 10));
    out.append(digit_str(h % 10));
    assert(out@ =~= two_decimals(diff as nat));
    out
}

/// Decimal text is always a valid header value.
pub proof fn lemma_decimal_is_header_text(n: nat)
    ensures
        valid_header_text(decimal(n)),
    decreases n,
{
    if n >= 10 {
        lemma_decimal_is_header_text(n / 10);
        assert forall|i: int| 0 <= i < decimal(n).len() implies valid_header_char(
            #[trigger] decimal(n)[i],
        ) by {
            if i < decimal(n / 10).len() {
                assert(decimal(n)[i] == decimal(n / 10)[i]);
            }
        }
    }
}

/// Text with two decimals is always a valid header value.
pub proof fn lemma_two_decimals_is_header_text(diff: nat)
    ensures
        valid_header_text(two_decimals(diff)),
{
    let h = hundredths(diff);
    lemma_decimal_is_header_text(h / 100);
    let s = two_decimals(diff);
    assert forall|i: int| 0 <= i < s.len() implies valid_header_char(#[trigger] s[i]) by {
        if i < decimal(h / 100).len() {
            assert(s[i] == decimal(h / 100)[i]);
        }
    }
}

/// The header values of a preview; `None` where the value cannot be carried.
pub struct PreviewHeaders {
    pub content_type: Option<String>,
    pub cache_control: String,
    pub diff: Option<String>,
    pub ratio: Option<String>,
}

impl ImagePreview {
    /// The media type for the preview's format tag, `image/jpeg` where it is unknown.
    pub fn content_type(&self) -> (r: String)
        ensures
            r@ == content_type_of(self.image_type@),
    {
        match guess_mime(self.image_type.as_str()) {
            Some(m) => m,
            None => default_mime(),
        }
    }

    /// The headers of the response that carries this preview. Each is present
    /// exactly when its text is a valid header value; the diff and the ratio
    /// always are.
    pub fn headers(&self) -> (r: PreviewHeaders)
        ensures
            r.content_type matches Some(c) ==> c@ == content_type_of(self.image_type@),
            r.content_type is Some <==> valid_header_text(content_type_of(self.image_type@)),
            r.cache_control@ == cache_policy(),
            r.diff matches Some(d) && d@ == two_decimals(self.diff as nat),
            r.ratio matches Some(t) && t@ == decimal(self.ratio as nat),
    {
        let ct = self.content_type();
        let content_type = if header_value_ok(ct.as_str()) {
            Some(ct)
        } else {
            None
        };
        let dt = diff_text(self.diff);
        let diff = if header_value_ok(dt.as_str()) {
            Some(dt)
        } else {
            None
        };
        let rt = decimal_text(self.ratio as u64);
        let ratio = if header_value_ok(rt.as_str()) {
            Some(rt)
        } else {
            None
        };
        proof {
            lemma_two_decimals_is_header_text(self.diff as nat);
            lemma_decimal_is_header_text(self.ratio as nat);
        }
        PreviewHeaders {
            content_type,
            cache_control: String::from_str("public, max-age=2592000"),
            diff,
            ratio,
        }
    }
}

} // verus!
