//! Where the launcher gets an image to show for a path.

use vstd::prelude::*;

use base64::Engine;

use crate::text::{chars_of, concat, starts_with, starts_with_seq, trim, trim_seq};

verus! {

/// The text is an absolute `http` or `https` URL.
pub open spec fn absolute_url(value: Seq<char>) -> bool {
    starts_with_seq(value, "http://"@) || starts_with_seq(value, "https://"@)
}

pub fn is_absolute_url(value: &str) -> (r: bool)
    ensures
        r == absolute_url(value@),
{
    let v = chars_of(value);
    let http = chars_of("http://");
    let https = chars_of("https://");
    starts_with(&v, &http) || starts_with(&v, &https)
}

/// Where to get an image from.
#[derive(Clone, Debug, PartialEq, Eq)]
pub enum ImageSource {
    /// No image.
    Nothing,
    /// Load this URL directly.
    Url(String),
    /// Fetch this icon from Wolf.
    WolfIcon(String),
}

/// The source of an image path, which is trimmed first: nothing when blank,
/// the URL itself when absolute, else an icon to fetch from Wolf.
pub fn image_source(path: &str) -> (r: ImageSource)
    ensures
        trim_seq(path@).len() == 0 ==> r == ImageSource::Nothing,
        trim_seq(path@).len() > 0 && absolute_url(trim_seq(path@)) ==> (r matches ImageSource::Url(u)
            && u@ == trim_seq(path@)),
        trim_seq(path@).len() > 0 && !absolute_url(trim_seq(path@)) ==> (r matches ImageSource::WolfIcon(p)
            && p@ == trim_seq(path@)),
{
    let path = trim(path);
    if path.as_str().is_empty() {
        return ImageSource::Nothing;
    }
    if is_absolute_url(path.as_str()) {
        ImageSource::Url(path)
    } else {
        ImageSource::WolfIcon(path)
    }
}

/// The standard base64 alphabet (RFC 4648).
pub open spec fn base64_alphabet() -> Seq<char> {
    seq!['A', 'B', 'C', 'D', 'E', 'F', 'G', 'H', 'I', 'J', 'K', 'L', 'M', 'N', 'O', 'P', 'Q', 'R', 'S', 'T', 'U', 'V', 'W', 'X', 'Y', 'Z', 'a', 'b', 'c', 'd', 'e', 'f', 'g', 'h', 'i', 'j', 'k', 'l', 'm', 'n', 'o', 'p', 'q', 'r', 's', 't', 'u', 'v', 'w', 'x', 'y', 'z', '0', '1', '2', '3', '4', '5', '6', '7', '8', '9', '+', '/']
}

/// The alphabet character for a six-bit value.
pub open spec fn base64_digit(v: int) -> char {
    base64_alphabet()[v]
}

/// Standard base64 with padding (RFC 4648): each group of three bytes
/// becomes four characters; a final group of one or two bytes is padded
/// with `=` to four.
pub open spec fn base64_standard(bytes: Seq<u8>) -> Seq<char>
    decreases bytes.len(),
{
    if bytes.len() == 0 {
        Seq::empty()
    } else if bytes.len() == 1 {
        let a = bytes[0] as int;
        seq![base64_digit(a / 4), base64_digit((a % 4) * 16), '=', '=']
    } else if bytes.len() == 2 {
        let a = bytes[0] as int;
        let b = bytes[1] as int;
        seq![
            base64_digit(a / 4),
            base64_digit((a % 4) * 16 + b / 16),
            base64_digit((b % 16) * 4),
            '=',
        ]
    } else {
        let a = bytes[0] as int;
        let b = bytes[1] as int;
        let c = bytes[2] as int;
        seq![
            base64_digit(a / 4),
            base64_digit((a % 4) * 16 + b / 16),
            base64_digit((b % 16) * 4 + c / 64),
            base64_digit(c % 64),
        ] + base64_standard(bytes.subrange(3, bytes.len() as int))
    }
}

/// `base64::engine::general_purpose::STANDARD.encode`: the standard padded
/// base64 text of the bytes.
#[verifier::external_body]
fn encode_base64(bytes: &[u8]) -> (r: String)
    ensures
        r@ == base64_standard(bytes@),
{
    base64::engine::general_purpose::STANDARD.encode(bytes)
}

/// A `data:` URL showing PNG bytes.
pub fn icon_data_url(bytes: &[u8]) -> (r: String)
    ensures
        r@ == "data:image/png;base64,"@ + base64_standard(bytes@),
{
    let encoded = encode_base64(bytes);
    concat("data:image/png;base64,", encoded.as_str())
}

} // verus!
