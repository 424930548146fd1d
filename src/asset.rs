//! Turning a file's bytes into an asset descriptor, or into the error that
//! stops the build.
use vstd::prelude::*;
use crate::data_uri::{ImageFormat, data_uri_of, font_mime, image_mime, to_font_data_uri, to_image_data_uri};

verus! {

/// What reading the asset file gave.
#[derive(Debug)]
pub enum FileContents {
    /// The whole content of the file.
    Bytes(Vec<u8>),
    /// The file could not be opened.
    CannotOpen,
    /// The file was opened but could not be read to its end.
    CannotRead,
}

/// Why an asset could not be embedded. Each variant holds the resolved path.
#[derive(Debug)]
pub enum EmbedError {
    /// The file could not be opened.
    Open(String),
    /// The file could not be read to its end.
    Read(String),
    /// The bytes are in no known image format.
    UnknownFormat(String),
    /// The image's dimensions could not be read from its bytes.
    BadDimensions(String),
}

/// An embedded asset: where the compiled program finds its bytes, the bytes,
/// their data URI, and an image's format and size.
#[derive(Debug)]
pub struct AssetDescriptor {
    /// The path, relative to the generated code, from which the bytes are included.
    pub include_path: String,
    pub bytes: Vec<u8>,
    pub data_uri: String,
    pub format: Option<ImageFormat>,
    /// Width and height, for images only.
    pub size: Option<(u32, u32)>,
}

/// The path from which generated code includes the bytes of `relative`.
pub open spec fn include_path_of(relative: Seq<char>) -> Seq<char> {
    "../"@ + relative
}

/// `d` describes the image at `relative` with these bytes, format and size.
pub open spec fn describes_image(
    d: AssetDescriptor,
    relative: Seq<char>,
    bytes: Seq<u8>,
    format: ImageFormat,
    size: (u32, u32),
) -> bool {
    &&& d.include_path@ == include_path_of(relative)
    &&& d.bytes@ == bytes
    &&& d.data_uri@ == data_uri_of(image_mime(format), bytes)
    &&& d.format == Some(format)
    &&& d.size == Some(size)
}

/// `d` describes the font at `relative` with these bytes.
pub open spec fn describes_font(d: AssetDescriptor, relative: Seq<char>, bytes: Seq<u8>) -> bool {
    &&& d.include_path@ == include_path_of(relative)
    &&& d.bytes@ == bytes
    &&& d.data_uri@ == data_uri_of(font_mime(), bytes)
    &&& d.format is None
    &&& d.size is None
}

/// The message that reports `e`, naming the resolved path.
pub open spec fn error_message(e: EmbedError) -> Seq<char> {
    match e {
        EmbedError::Open(p) => "Couldn't open file "@ + p@,
        EmbedError::Read(p) => "Couldn't read file "@ + p@,
        EmbedError::UnknownFormat(p) => "Unknown image format in file "@ + p@,
        EmbedError::BadDimensions(p) => "Couldn't read image dimensions of file "@ + p@,
    }
}

impl EmbedError {
    /// The resolved path of the file that failed.
    pub fn path(&self) -> (r: &String)
        ensures
            *r == match *self {
                EmbedError::Open(p) => p,
                EmbedError::Read(p) => p,
                EmbedError::UnknownFormat(p) => p,
                EmbedError::BadDimensions(p) => p,
            },
    {
        match self {
            EmbedError::Open(p) => p,
            EmbedError::Read(p) => p,
            EmbedError::UnknownFormat(p) => p,
            EmbedError::BadDimensions(p) => p,
        }
    }

    /// The human-readable report of this error.
    pub fn message(&self) -> (r: String)
        ensures
            r@ == error_message(*self),
    {
        let mut m = match self {
            EmbedError::Open(_) => String::from_str("Couldn't open file "),
            EmbedError::Read(_) => String::from_str("Couldn't read file "),
            EmbedError::UnknownFormat(_) => String::from_str("Unknown image format in file "),
            EmbedError::BadDimensions(_) => String::from_str(
                "Couldn't read image dimensions of file ",
            ),
        };
        m.append(self.path().as_str());
        m
    }
}

/// The path from which generated code includes the bytes of `relative`.
pub fn include_path(relative: &str) -> (r: String)
    ensures
        r@ == include_path_of(relative@),
{
    let mut p = String::from_str("../");
    p.append(relative);
    p
}

/// The bytes of a file that could be read, or the error that reports the failure at `resolved`.
pub fn file_bytes(resolved: &str, contents: FileContents) -> (r: Result<Vec<u8>, EmbedError>)
    ensures
        match contents {
            FileContents::Bytes(b) => r == Ok::<Vec<u8>, EmbedError>(b),
            FileContents::CannotOpen => r matches Err(EmbedError::Open(p)) && p@ == resolved@,
            FileContents::CannotRead => r matches Err(EmbedError::Read(p)) && p@ == resolved@,
        },
{
    match contents {
        FileContents::Bytes(b) => Ok(b),
        FileContents::CannotOpen => Err(EmbedError::Open(String::from_str(resolved))),
        FileContents::CannotRead => Err(EmbedError::Read(String::from_str(resolved))),
    }
}

/// Embeds the image at `relative` (resolved to `resolved`), given what reading
/// it gave, the format detected in its bytes and the dimensions read from them.
pub fn embed_image(
    relative: &str,
    resolved: &str,
    contents: FileContents,
    format: Option<ImageFormat>,
    size: Option<(u32, u32)>,
) -> (r: Result<AssetDescriptor, EmbedError>)
    requires
        contents matches FileContents::Bytes(b) ==> b@.len() <= usize::MAX / 2,
    ensures
        match r {
            Ok(d) => contents matches FileContents::Bytes(b) && format matches Some(f)
                && size matches Some(s) && describes_image(d, relative@, b@, f, s),
            Err(EmbedError::Open(p)) => contents is CannotOpen && p@ == resolved@,
            Err(EmbedError::Read(p)) => contents is CannotRead && p@ == resolved@,
            Err(EmbedError::UnknownFormat(p)) => contents is Bytes && format is None && p@
                == resolved@,
            Err(EmbedError::BadDimensions(p)) => contents is Bytes && format is Some && size is None
                && p@ == resolved@,
        },
{
    let bytes = match file_bytes(resolved, contents) {
        Ok(b) => b,
        Err(e) => {
            return Err(e);
        },
    };
    let f = match format {
        Some(f) => f,
        None => {
            return Err(EmbedError::UnknownFormat(String::from_str(resolved)));
        },
    };
    let s = match size {
        Some(s) => s,
        None => {
            return Err(EmbedError::BadDimensions(String::from_str(resolved)));
        },
    };
    let data_uri = to_image_data_uri(f, bytes.as_slice());
    Ok(
        AssetDescriptor {
            include_path: include_path(relative),
            bytes,
            data_uri,
            format: Some(f),
            size: Some(s),
        },
    )
}

/// Embeds the font at `relative` (resolved to `resolved`), given what reading it gave.
pub fn embed_font(relative: &str, resolved: &str, contents: FileContents) -> (r: Result<
    AssetDescriptor,
    EmbedError,
>)
    requires
        contents matches FileContents::Bytes(b) ==> b@.len() <= usize::MAX / 2,
    ensures
        match r {
            Ok(d) => contents matches FileContents::Bytes(b) && describes_font(d, relative@, b@),
            Err(EmbedError::Open(p)) => contents is CannotOpen && p@ == resolved@,
            Err(EmbedError::Read(p)) => contents is CannotRead && p@ == resolved@,
            Err(_) => false,
        },
{
    let bytes = match file_bytes(resolved, contents) {
        Ok(b) => b,
        Err(e) => {
            return Err(e);
        },
    };
    let data_uri = to_font_data_uri(bytes.as_slice());
    Ok(
        AssetDescriptor {
            include_path: include_path(relative),
            bytes,
            data_uri,
            format: None,
            size: None,
        },
    )
}

/// Embedding the same bytes twice, with the same format and size detected in
/// them, gives the same data URI and the same dimensions.
pub proof fn lemma_image_embedding_deterministic(
    d1: AssetDescriptor,
    d2: AssetDescriptor,
    relative: Seq<char>,
    bytes: Seq<u8>,
    format: ImageFormat,
    size: (u32, u32),
)
    requires
        describes_image(d1, relative, bytes, format, size),
        describes_image(d2, relative, bytes, format, size),
    ensures
        d1.data_uri@ == d2.data_uri@,
        d1.size == d2.size,
        d1.format == d2.format,
        d1.bytes@ == d2.bytes@,
        d1.include_path@ == d2.include_path@,
{
}

/// Embedding the same font bytes twice gives the same data URI.
pub proof fn lemma_font_embedding_deterministic(
    d1: AssetDescriptor,
    d2: AssetDescriptor,
    relative: Seq<char>,
    bytes: Seq<u8>,
)
    requires
        describes_font(d1, relative, bytes),
        describes_font(d2, relative, bytes),
    ensures
        d1.data_uri@ == d2.data_uri@,
        d1.bytes@ == d2.bytes@,
        d1.include_path@ == d2.include_path@,
{
}

} // verus!
