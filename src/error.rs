//! Uniform error envelopes.
//!
//! Every failure of the pipeline is turned, where it arises, into an
//! `ImageError` (failures of the image work itself) or an `HTTPError` (the
//! envelope that is sent back), each carrying a stable category tag.

use vstd::prelude::*;
use vstd::string::*;
use image::ImageError as PixelDecodeError;

verus! {

#[verifier::external_type_specification]
#[verifier::external_body]
pub struct ExBase64DecodeError(base64::DecodeError);

#[verifier::external_type_specification]
#[verifier::external_body]
pub struct ExReqwestError(reqwest::Error);

#[verifier::external_type_specification]
#[verifier::external_body]
pub struct ExToStrError(reqwest::header::ToStrError);

#[verifier::external_type_specification]
#[verifier::external_body]
pub struct ExQuantError(imagequant::Error);

#[verifier::external_type_specification]
#[verifier::external_body]
pub struct ExPngError(lodepng::Error);

#[verifier::external_type_specification]
#[verifier::external_body]
pub struct ExDecodeError(PixelDecodeError);

/// Status sent with an envelope whose own status is not a valid HTTP status.
pub const DEFAULT_STATUS: u16 = 400;

/// Category of a pixel decode failure.
pub open spec fn decode_category() -> Seq<char> {
    seq!['d', 'e', 'c', 'o', 'd', 'e']
}

/// Category of a colour quantization failure.
pub open spec fn quantization_category() -> Seq<char> {
    seq!['q', 'u', 'a', 'n', 't', 'i', 'z', 'a', 't', 'i', 'o', 'n']
}

/// Category of an encoder failure, or of a run in which no format succeeded.
pub open spec fn codec_category() -> Seq<char> {
    seq!['c', 'o', 'd', 'e', 'c']
}

/// Category of a failed remote fetch.
pub open spec fn transport_category() -> Seq<char> {
    seq!['t', 'r', 'a', 'n', 's', 'p', 'o', 'r', 't']
}

/// Category of an inline payload that could not be decoded.
pub open spec fn payload_category() -> Seq<char> {
    seq!['p', 'a', 'y', 'l', 'o', 'a', 'd']
}

/// Category of a failure described only by a message.
pub open spec fn unknown_category() -> Seq<char> {
    seq!['u', 'n', 'k', 'n', 'o', 'w', 'n']
}

/// Whether `code` is a status that HTTP can carry on a status line.
pub open spec fn valid_status(code: u16) -> bool {
    100 <= code <= 999
}

/// The status that goes on the status line for an envelope with status `code`.
pub open spec fn effective_status(code: u16) -> u16 {
    if valid_status(code) {
        code
    } else {
        DEFAULT_STATUS
    }
}

/// Relies on http's `StatusCode::from_u16`, which accepts exactly 100..=999.
#[verifier::external_body]
fn status_is_valid(code: u16) -> (r: bool)
    ensures
        r == valid_status(code),
{
    axum::http::StatusCode::from_u16(code).is_ok()
}

/// Relies on the `Display` impl of base64's `DecodeError` for a diagnostic.
#[verifier::external_body]
fn base64_message(e: &base64::DecodeError) -> String {
    e.to_string()
}

/// Relies on the `Display` impl of reqwest's `Error` for a diagnostic.
#[verifier::external_body]
fn reqwest_message(e: &reqwest::Error) -> String {
    e.to_string()
}

/// Relies on the `Display` impl of http's `ToStrError` for a diagnostic.
#[verifier::external_body]
fn header_message(e: &reqwest::header::ToStrError) -> String {
    e.to_string()
}

/// Relies on the `Display` impl of imagequant's `Error` for a diagnostic.
#[verifier::external_body]
fn quant_message(e: &imagequant::Error) -> String {
    e.to_string()
}

/// Relies on the `Display` impl of lodepng's `Error` for a diagnostic.
#[verifier::external_body]
fn png_message(e: &lodepng::Error) -> String {
    e.to_string()
}

/// Relies on the `Display` impl of image's `ImageError` for a diagnostic.
#[verifier::external_body]
fn decode_message(e: &PixelDecodeError) -> String {
    e.to_string()
}

/// A failure of the image work: a diagnostic and the subsystem it came from.
#[derive(Debug, Clone)]
pub struct ImageError {
    pub message: String,
    pub category: String,
}

/// The envelope sent back for a failed request.
#[derive(Debug, Clone)]
pub struct HTTPError {
    pub message: String,
    pub category: String,
    pub status: u16,
}

impl ImageError {
    /// A failure with the given message and category tag.
    pub fn new(message: String, category: &str) -> (r: ImageError)
        requires
            category@.len() > 0,
        ensures
            r.message@ == message@,
            r.category@ == category@,
    {
        ImageError { message, category: String::from_str(category) }
    }

    /// A pixel decode failure.
    pub fn decode(message: String) -> (r: ImageError)
        ensures
            r.message@ == message@,
            r.category@ == decode_category(),
    {
        proof {
            reveal_strlit("decode");
        }
        ImageError::new(message, "decode")
    }

    /// A colour quantization failure.
    pub fn quantization(message: String) -> (r: ImageError)
        ensures
            r.message@ == message@,
            r.category@ == quantization_category(),
    {
        proof {
            reveal_strlit("quantization");
        }
        ImageError::new(message, "quantization")
    }

    /// An encoder failure.
    pub fn codec(message: String) -> (r: ImageError)
        ensures
            r.message@ == message@,
            r.category@ == codec_category(),
    {
        proof {
            reveal_strlit("codec");
        }
        ImageError::new(message, "codec")
    }

    /// A failure described only by its message.
    pub fn unknown(message: String) -> (r: ImageError)
        ensures
            r.message@ == message@,
            r.category@ == unknown_category(),
    {
        proof {
            reveal_strlit("unknown");
        }
        ImageError::new(message, "unknown")
    }

    /// Normalizes an image decode error.
    pub fn from_decode(e: PixelDecodeError) -> (r: ImageError)
        ensures
            r.category@ == decode_category(),
    {
        ImageError::decode(decode_message(&e))
    }

    /// Normalizes a quantization error.
    pub fn from_quantization(e: imagequant::Error) -> (r: ImageError)
        ensures
            r.category@ == quantization_category(),
    {
        ImageError::quantization(quant_message(&e))
    }

    /// Normalizes a PNG codec error.
    pub fn from_codec(e: lodepng::Error) -> (r: ImageError)
        ensures
            r.category@ == codec_category(),
    {
        ImageError::codec(png_message(&e))
    }
}

impl HTTPError {
    /// An envelope with the given message and category tag, and the default status.
    pub fn new(message: String, category: &str) -> (r: HTTPError)
        requires
            category@.len() > 0,
        ensures
            r.message@ == message@,
            r.category@ == category@,
            r.status == DEFAULT_STATUS,
    {
        HTTPError { message, category: String::from_str(category), status: DEFAULT_STATUS }
    }

    /// A failed remote fetch.
    pub fn transport(message: String) -> (r: HTTPError)
        ensures
            r.message@ == message@,
            r.category@ == transport_category(),
            r.status == DEFAULT_STATUS,
    {
        proof {
            reveal_strlit("transport");
        }
        HTTPError::new(message, "transport")
    }

    /// An inline payload that could not be decoded.
    pub fn payload(message: String) -> (r: HTTPError)
        ensures
            r.message@ == message@,
            r.category@ == payload_category(),
            r.status == DEFAULT_STATUS,
    {
        proof {
            reveal_strlit("payload");
        }
        HTTPError::new(message, "payload")
    }

    /// The envelope for a failure of the image work: message and category are kept.
    pub fn from_image_error(e: ImageError) -> (r: HTTPError)
        ensures
            r.message@ == e.message@,
            r.category@ == e.category@,
            r.status == DEFAULT_STATUS,
    {
        HTTPError { message: e.message, category: e.category, status: DEFAULT_STATUS }
    }

    /// Normalizes a base64 decode error of an inline payload.
    pub fn from_base64(e: base64::DecodeError) -> (r: HTTPError)
        ensures
            r.category@ == payload_category(),
            r.status == DEFAULT_STATUS,
    {
        HTTPError::payload(base64_message(&e))
    }

    /// Normalizes a failure of a remote fetch.
    pub fn from_reqwest(e: reqwest::Error) -> (r: HTTPError)
        ensures
            r.category@ == transport_category(),
            r.status == DEFAULT_STATUS,
    {
        HTTPError::transport(reqwest_message(&e))
    }

    /// Normalizes a header of a remote response that is not valid text.
    pub fn from_header(e: reqwest::header::ToStrError) -> (r: HTTPError)
        ensures
            r.category@ == transport_category(),
            r.status == DEFAULT_STATUS,
    {
        HTTPError::transport(header_message(&e))
    }

    /// The status for the response's status line: the envelope's own status
    /// where HTTP can carry it, else the default.
    pub fn response_status(&self) -> (r: u16)
        ensures
            r == effective_status(self.status),
            valid_status(r),
    {
        if status_is_valid(self.status) {
            self.status
        } else {
            DEFAULT_STATUS
        }
    }
}

impl From<ImageError> for HTTPError {
    fn from(e: ImageError) -> (r: HTTPError) {
        HTTPError { message: e.message, category: e.category, status: DEFAULT_STATUS }
    }
}

impl vstd::std_specs::convert::FromSpecImpl<ImageError> for HTTPError {
    open spec fn obeys_from_spec() -> bool {
        true
    }

    open spec fn from_spec(e: ImageError) -> HTTPError {
        HTTPError { message: e.message, category: e.category, status: DEFAULT_STATUS }
    }
}

/// Same as `HTTPError::from_base64`.
impl From<base64::DecodeError> for HTTPError {
    fn from(e: base64::DecodeError) -> (r: HTTPError)
        ensures
            r.category@ == payload_category(),
            r.status == DEFAULT_STATUS,
    {
        HTTPError::from_base64(e)
    }
}

impl vstd::std_specs::convert::FromSpecImpl<base64::DecodeError> for HTTPError {
    // the message is the outside error's own text; the impl's `ensures`
    // states the category
    open spec fn obeys_from_spec() -> bool {
        false
    }

    open spec fn from_spec(e: base64::DecodeError) -> HTTPError {
        arbitrary()
    }
}

/// Same as `HTTPError::from_reqwest`.
impl From<reqwest::Error> for HTTPError {
    fn from(e: reqwest::Error) -> (r: HTTPError)
        ensures
            r.category@ == transport_category(),
            r.status == DEFAULT_STATUS,
    {
        HTTPError::from_reqwest(e)
    }
}

impl vstd::std_specs::convert::FromSpecImpl<reqwest::Error> for HTTPError {
    // the message is the outside error's own text; the impl's `ensures`
    // states the category
    open spec fn obeys_from_spec() -> bool {
        false
    }

    open spec fn from_spec(e: reqwest::Error) -> HTTPError {
        arbitrary()
    }
}

/// Same as `HTTPError::from_header`.
impl From<reqwest::header::ToStrError> for HTTPError {
    fn from(e: reqwest::header::ToStrError) -> (r: HTTPError)
        ensures
            r.category@ == transport_category(),
            r.status == DEFAULT_STATUS,
    {
        HTTPError::from_header(e)
    }
}

impl vstd::std_specs::convert::FromSpecImpl<reqwest::header::ToStrError> for HTTPError {
    // the message is the outside error's own text; the impl's `ensures`
    // states the category
    open spec fn obeys_from_spec() -> bool {
        false
    }

    open spec fn from_spec(e: reqwest::header::ToStrError) -> HTTPError {
        arbitrary()
    }
}

/// Same as `ImageError::from_quantization`.
impl From<imagequant::Error> for ImageError {
    fn from(e: imagequant::Error) -> (r: ImageError)
        ensures
            r.category@ == quantization_category(),
    {
        ImageError::from_quantization(e)
    }
}

impl vstd::std_specs::convert::FromSpecImpl<imagequant::Error> for ImageError {
    // the message is the outside error's own text; the impl's `ensures`
    // states the category
    open spec fn obeys_from_spec() -> bool {
        false
    }

    open spec fn from_spec(e: imagequant::Error) -> ImageError {
        arbitrary()
    }
}

/// Same as `ImageError::from_codec`.
impl From<lodepng::Error> for ImageError {
    fn from(e: lodepng::Error) -> (r: ImageError)
        ensures
            r.category@ == codec_category(),
    {
        ImageError::from_codec(e)
    }
}

impl vstd::std_specs::convert::FromSpecImpl<lodepng::Error> for ImageError {
    // the message is the outside error's own text; the impl's `ensures`
    // states the category
    open spec fn obeys_from_spec() -> bool {
        false
    }

    open spec fn from_spec(e: lodepng::Error) -> ImageError {
        arbitrary()
    }
}

/// Same as `ImageError::from_decode`.
impl From<PixelDecodeError> for ImageError {
    fn from(e: PixelDecodeError) -> (r: ImageError)
        ensures
            r.category@ == decode_category(),
    {
        ImageError::from_decode(e)
    }
}

impl vstd::std_specs::convert::FromSpecImpl<PixelDecodeError> for ImageError {
    // the message is the outside error's own text; the impl's `ensures`
    // states the category
    open spec fn obeys_from_spec() -> bool {
        false
    }

    open spec fn from_spec(e: PixelDecodeError) -> ImageError {
        arbitrary()
    }
}

/// Same as `ImageError::unknown`.
impl From<String> for ImageError {
    fn from(e: String) -> (r: ImageError)
        ensures
            r.message@ == e@,
            r.category@ == unknown_category(),
    {
        ImageError::unknown(e)
    }
}

impl vstd::std_specs::convert::FromSpecImpl<String> for ImageError {
    // the category is a fresh `String`, which a spec value cannot build; the
    // impl's own `ensures` states the result
    open spec fn obeys_from_spec() -> bool {
        false
    }

    open spec fn from_spec(e: String) -> ImageError {
        arbitrary()
    }
}

/// Every envelope goes out with a valid HTTP status, its own where it is
/// valid and the default otherwise, and every category of the pipeline is a
/// non-empty tag.
pub proof fn lemma_envelope_well_formed(status: u16)
    ensures
        valid_status(effective_status(status)),
        valid_status(status) ==> effective_status(status) == status,
        !valid_status(status) ==> effective_status(status) == DEFAULT_STATUS,
        decode_category().len() > 0,
        quantization_category().len() > 0,
        codec_category().len() > 0,
        transport_category().len() > 0,
        payload_category().len() > 0,
        unknown_category().len() > 0,
{
}

impl Default for HTTPError {
    fn default() -> (r: HTTPError)
        ensures
            r.message@.len() == 0,
            r.category@ == unknown_category(),
            r.status == DEFAULT_STATUS,
    {
        proof {
            reveal_strlit("unknown");
        }
        HTTPError { message: String::new(), category: String::from_str("unknown"), status: DEFAULT_STATUS }
    }
}

} // verus!
