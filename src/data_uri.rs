//! Data URIs: a MIME type and the base64 text of the bytes.
use vstd::prelude::*;
use base64::Engine;

verus! {

/// The character of the standard base64 alphabet for a six-bit value:
/// `A`-`Z`, `a`-`z`, `0`-`9`, `+`, `/`.
pub open spec fn base64_digit(n: int) -> char {
    let code = if n < 26 {
        n + 65
    } else if n < 52 {
        n + 71
    } else if n < 62 {
        n - 4
    } else if n == 62 {
        43
    } else {
        47
    };
    (code as u8) as char
}

/// The four characters of three bytes.
pub open spec fn base64_quad(x0: u8, x1: u8, x2: u8) -> Seq<char> {
    let b0 = x0 as int;
    let b1 = x1 as int;
    let b2 = x2 as int;
    seq![
        base64_digit(b0 / 4),
        base64_digit((b0 % 4) * 16 + b1 / 16),
        base64_digit((b1 % 16) * 4 + b2 / 64),
        base64_digit(b2 % 64),
    ]
}

/// The standard, padded base64 text of `bytes`: four characters for each
/// three bytes, and `=` in place of what a short last group lacks.
pub open spec fn base64_of(bytes: Seq<u8>) -> Seq<char>
    decreases bytes.len(),
{
    if bytes.len() == 0 {
        Seq::empty()
    } else if bytes.len() == 1 {
        let b0 = bytes[0] as int;
        seq![base64_digit(b0 / 4), base64_digit((b0 % 4) * 16), '=', '=']
    } else if bytes.len() == 2 {
        let b0 = bytes[0] as int;
        let b1 = bytes[1] as int;
        seq![
            base64_digit(b0 / 4),
            base64_digit((b0 % 4) * 16 + b1 / 16),
            base64_digit((b1 % 16) * 4),
            '=',
        ]
    } else {
        base64_quad(bytes[0], bytes[1], bytes[2]) + base64_of(bytes.subrange(3, bytes.len() as int))
    }
}

/// The six-bit value of a character of the standard base64 alphabet.
pub open spec fn base64_value(c: char) -> int {
    let n = c as int;
    if 65 <= n <= 90 {
        n - 65
    } else if 97 <= n <= 122 {
        n - 71
    } else if 48 <= n <= 57 {
        n + 4
    } else if n == 43 {
        62
    } else {
        63
    }
}

/// The bytes of one group of four characters, of which the last one or two may be `=`.
pub open spec fn base64_group_bytes(c0: char, c1: char, c2: char, c3: char) -> Seq<u8> {
    let v0 = base64_value(c0);
    let v1 = base64_value(c1);
    let v2 = base64_value(c2);
    let v3 = base64_value(c3);
    let b0 = (v0 * 4 + v1 / 16) as u8;
    let b1 = ((v1 % 16) * 16 + v2 / 4) as u8;
    let b2 = ((v2 % 4) * 64 + v3) as u8;
    if c2 == '=' {
        seq![b0]
    } else if c3 == '=' {
        seq![b0, b1]
    } else {
        seq![b0, b1, b2]
    }
}

/// The bytes that padded base64 text stands for, group by group.
pub open spec fn base64_decoded(s: Seq<char>) -> Seq<u8>
    decreases s.len(),
{
    if s.len() < 4 {
        Seq::empty()
    } else {
        base64_group_bytes(s[0], s[1], s[2], s[3]) + base64_decoded(s.subrange(4, s.len() as int))
    }
}

proof fn lemma_digit_value(n: int)
    requires
        0 <= n < 64,
    ensures
        base64_value(base64_digit(n)) == n,
        base64_digit(n) != '=',
{
}

proof fn lemma_group_round_trip(x0: u8, x1: u8, x2: u8)
    ensures
        ({
            let q = base64_quad(x0, x1, x2);
            base64_group_bytes(q[0], q[1], q[2], q[3]) == seq![x0, x1, x2]
        }),
        ({
            let q = base64_of(seq![x0, x1]);
            base64_group_bytes(q[0], q[1], q[2], q[3]) == seq![x0, x1]
        }),
        ({
            let q = base64_of(seq![x0]);
            base64_group_bytes(q[0], q[1], q[2], q[3]) == seq![x0]
        }),
{
    let b0 = x0 as int;
    let b1 = x1 as int;
    let b2 = x2 as int;
    lemma_digit_value(b0 / 4);
    lemma_digit_value((b0 % 4) * 16 + b1 / 16);
    lemma_digit_value((b1 % 16) * 4 + b2 / 64);
    lemma_digit_value(b2 % 64);
    lemma_digit_value((b0 % 4) * 16);
    lemma_digit_value((b1 % 16) * 4);
    assert(base64_group_bytes(
        base64_quad(x0, x1, x2)[0],
        base64_quad(x0, x1, x2)[1],
        base64_quad(x0, x1, x2)[2],
        base64_quad(x0, x1, x2)[3],
    ) =~= seq![x0, x1, x2]);
    assert(base64_group_bytes(
        base64_of(seq![x0, x1])[0],
        base64_of(seq![x0, x1])[1],
        base64_of(seq![x0, x1])[2],
        base64_of(seq![x0, x1])[3],
    ) =~= seq![x0, x1]);
    assert(base64_group_bytes(
        base64_of(seq![x0])[0],
        base64_of(seq![x0])[1],
        base64_of(seq![x0])[2],
        base64_of(seq![x0])[3],
    ) =~= seq![x0]);
}

/// Decoding the base64 text of any bytes gives those bytes back.
pub proof fn lemma_base64_round_trip(bytes: Seq<u8>)
    ensures
        base64_decoded(base64_of(bytes)) == bytes,
    decreases bytes.len(),
{
    let n = bytes.len();
    if n == 0 {
        assert(base64_decoded(base64_of(bytes)) =~= bytes);
    } else if n == 1 {
        lemma_group_round_trip(bytes[0], 0, 0);
        assert(bytes =~= seq![bytes[0]]);
        let s = base64_of(bytes);
        assert(s == base64_of(seq![bytes[0]]));
        assert(s.subrange(4, 4) =~= Seq::<char>::empty());
        assert(base64_decoded(s.subrange(4, 4)) == Seq::<u8>::empty());
        assert(base64_decoded(s) == base64_group_bytes(s[0], s[1], s[2], s[3]) + Seq::<u8>::empty());
        assert(base64_decoded(s) =~= bytes);
    } else if n == 2 {
        lemma_group_round_trip(bytes[0], bytes[1], 0);
        assert(bytes =~= seq![bytes[0], bytes[1]]);
        let s = base64_of(bytes);
        assert(s == base64_of(seq![bytes[0], bytes[1]]));
        assert(s.subrange(4, 4) =~= Seq::<char>::empty());
        assert(base64_decoded(s.subrange(4, 4)) == Seq::<u8>::empty());
        assert(base64_decoded(s) == base64_group_bytes(s[0], s[1], s[2], s[3]) + Seq::<u8>::empty());
        assert(base64_decoded(s) =~= bytes);
    } else {
        let rest = bytes.subrange(3, n as int);
        lemma_base64_round_trip(rest);
        lemma_group_round_trip(bytes[0], bytes[1], bytes[2]);
        let q = base64_quad(bytes[0], bytes[1], bytes[2]);
        let s = base64_of(bytes);
        assert(s == q + base64_of(rest));
        assert(s.subrange(4, s.len() as int) =~= base64_of(rest));
        assert(s[0] == q[0] && s[1] == q[1] && s[2] == q[2] && s[3] == q[3]);
        assert(base64_decoded(s) =~= seq![bytes[0], bytes[1], bytes[2]] + rest);
        assert(bytes =~= seq![bytes[0], bytes[1], bytes[2]] + rest);
    }
}

/// Relies on base64's `STANDARD` engine and `Engine::encode`: the standard
/// alphabet, with `=` padding. The bound keeps `encoded_len`, which panics on
/// overflow, in range.
#[verifier::external_body]
fn encode_base64(bytes: &[u8]) -> (r: String)
    requires
        bytes@.len() <= usize::MAX / 2,
    ensures
        r@ == base64_of(bytes@),
{
    base64::engine::general_purpose::STANDARD.encode(bytes)
}

/// The image formats that an embedded image can have.
#[derive(Clone, Copy, Debug, PartialEq, Eq, Structural)]
pub enum ImageFormat {
    Png,
    Jpeg,
    Gif,
    Webp,
    Bmp,
    Ico,
    Tiff,
}

/// The MIME type of each image format.
pub open spec fn image_mime(f: ImageFormat) -> Seq<char> {
    match f {
        ImageFormat::Png => "image/png"@,
        ImageFormat::Jpeg => "image/jpeg"@,
        ImageFormat::Gif => "image/gif"@,
        ImageFormat::Webp => "image/webp"@,
        ImageFormat::Bmp => "image/bmp"@,
        ImageFormat::Ico => "image/x-icon"@,
        ImageFormat::Tiff => "image/tiff"@,
    }
}

/// The MIME type given to every font.
pub open spec fn font_mime() -> Seq<char> {
    "application/octet-stream"@
}

/// What a data URI of the given MIME type holds before its payload.
pub open spec fn data_uri_header(mime: Seq<char>) -> Seq<char> {
    "data:"@ + mime + ";base64,"@
}

/// A data URI of the given MIME type holding `bytes`.
pub open spec fn data_uri_of(mime: Seq<char>, bytes: Seq<u8>) -> Seq<char> {
    data_uri_header(mime) + base64_of(bytes)
}

/// A data URI begins with the header of its MIME type, and what follows the
/// header decodes to the bytes it was made from.
pub proof fn lemma_data_uri_valid(mime: Seq<char>, bytes: Seq<u8>)
    ensures
        ({
            let uri = data_uri_of(mime, bytes);
            let h = data_uri_header(mime);
            &&& uri.subrange(0, h.len() as int) == h
            &&& base64_decoded(uri.subrange(h.len() as int, uri.len() as int)) == bytes
        }),
{
    let uri = data_uri_of(mime, bytes);
    let h = data_uri_header(mime);
    assert(uri.subrange(0, h.len() as int) =~= h);
    assert(uri.subrange(h.len() as int, uri.len() as int) =~= base64_of(bytes));
    lemma_base64_round_trip(bytes);
}

/// The data URI of an image names the MIME type of the image's format, and
/// its payload decodes to the image's bytes.
pub proof fn lemma_image_data_uri_valid(format: ImageFormat, bytes: Seq<u8>)
    ensures
        ({
            let uri = data_uri_of(image_mime(format), bytes);
            let h = data_uri_header(image_mime(format));
            &&& uri.subrange(0, h.len() as int) == "data:"@ + image_mime(format) + ";base64,"@
            &&& base64_decoded(uri.subrange(h.len() as int, uri.len() as int)) == bytes
        }),
{
    lemma_data_uri_valid(image_mime(format), bytes);
}

impl ImageFormat {
    /// The MIME type of this format.
    pub fn mime_type(&self) -> (r: &'static str)
        ensures
            r@ == image_mime(*self),
    {
        match self {
            ImageFormat::Png => "image/png",
            ImageFormat::Jpeg => "image/jpeg",
            ImageFormat::Gif => "image/gif",
            ImageFormat::Webp => "image/webp",
            ImageFormat::Bmp => "image/bmp",
            ImageFormat::Ico => "image/x-icon",
            ImageFormat::Tiff => "image/tiff",
        }
    }
}

/// The data URI of `bytes` under the MIME type `mime`.
pub fn to_data_uri(mime: &str, bytes: &[u8]) -> (r: String)
    requires
        bytes@.len() <= usize::MAX / 2,
    ensures
        r@ == data_uri_of(mime@, bytes@),
{
    let mut uri = String::from_str("data:");
    uri.append(mime);
    uri.append(";base64,");
    let payload = encode_base64(bytes);
    uri.append(payload.as_str());
    uri
}

/// The data URI of an image: its format's MIME type and its bytes.
pub fn to_image_data_uri(format: ImageFormat, bytes: &[u8]) -> (r: String)
    requires
        bytes@.len() <= usize::MAX / 2,
    ensures
        r@ == data_uri_of(image_mime(format), bytes@),
{
    to_data_uri(format.mime_type(), bytes)
}

/// The data URI of a font: the generic font MIME type and its bytes.
pub fn to_font_data_uri(bytes: &[u8]) -> (r: String)
    requires
        bytes@.len() <= usize::MAX / 2,
    ensures
        r@ == data_uri_of(font_mime(), bytes@),
{
    to_data_uri("application/octet-stream", bytes)
}

} // verus!
