//! The errors of each stage, and the plain values that contracts compare them by.
use vstd::prelude::*;

verus! {

#[verifier::external_type_specification]
#[verifier::external_body]
pub struct ExZipError(zip::result::ZipError);

#[verifier::external_type_specification]
#[verifier::external_body]
pub struct ExDecodingError(image_webp::DecodingError);

/// The archive reader refused the container.
#[derive(Debug)]
pub enum UnzipError {
    Unzip(zip::result::ZipError),
}

pub type UnzipResult<T> = core::result::Result<T, UnzipError>;

/// The manifest is absent, malformed, or names a payload the archive lacks.
#[derive(Debug)]
pub enum ParseError {
    /// The archive has no entry `meta.json`.
    MetaJsonNotFound,
    /// The manifest is not UTF-8 text, does not fit the schema, is of
    /// another version, or lacks the name of a payload; the text says which.
    InvalidMetaJson(String),
    /// A list of bounds has fewer than three entries.
    ParseVector(String),
    /// A table has fewer than 256 entries.
    ParseCodebook(String),
    /// The archive has no entry of the name that the manifest gives for a
    /// payload; the text is that name.
    ImageNotFound(String),
}

pub type ParseResult<T> = core::result::Result<T, ParseError>;

/// What a [`ParseError`] says, as plain values.
pub enum ParseFailure {
    MetaJsonNotFound,
    InvalidMetaJson(Seq<char>),
    ParseVector(Seq<char>),
    ParseCodebook(Seq<char>),
    ImageNotFound(Seq<char>),
}

impl View for ParseError {
    type V = ParseFailure;

    open spec fn view(&self) -> ParseFailure {
        match *self {
            ParseError::MetaJsonNotFound => ParseFailure::MetaJsonNotFound,
            ParseError::InvalidMetaJson(m) => ParseFailure::InvalidMetaJson(m@),
            ParseError::ParseVector(m) => ParseFailure::ParseVector(m@),
            ParseError::ParseCodebook(m) => ParseFailure::ParseCodebook(m@),
            ParseError::ImageNotFound(m) => ParseFailure::ImageNotFound(m@),
        }
    }
}

/// A payload could not be turned into pixels, or the pixels do not fit the
/// declared point count.
#[derive(Debug)]
pub enum DecodeError {
    /// The image codec refused a payload.
    DecodeImage(image_webp::DecodingError),
    /// A pixel buffer or a count has a size that the format does not allow.
    InvalidSize(String),
    /// A pixel buffer holds a value that the format does not allow, or too
    /// little for the point count.
    InvalidData(String),
}

pub type DecodeResult<T> = core::result::Result<T, DecodeError>;

/// What a [`DecodeError`] says, as plain values beside the image codec's
/// own error.
pub enum DecodeFailure {
    DecodeImage(image_webp::DecodingError),
    InvalidSize(Seq<char>),
    InvalidData(Seq<char>),
}

impl View for DecodeError {
    type V = DecodeFailure;

    open spec fn view(&self) -> DecodeFailure {
        match *self {
            DecodeError::DecodeImage(e) => DecodeFailure::DecodeImage(e),
            DecodeError::InvalidSize(m) => DecodeFailure::InvalidSize(m@),
            DecodeError::InvalidData(m) => DecodeFailure::InvalidData(m@),
        }
    }
}

/// A decoder's result as plain values.
pub open spec fn decoded<T>(r: DecodeResult<Vec<T>>) -> core::result::Result<
    Seq<T>,
    DecodeFailure,
> {
    match r {
        Ok(v) => Ok(v@),
        Err(e) => Err(e@),
    }
}

/// Any failure of the pipeline, tagged by the stage it came from.
#[derive(Debug)]
pub enum Error {
    Unzip(UnzipError),
    SogParse(ParseError),
    SogDecode(DecodeError),
}

pub type Result<T> = core::result::Result<T, Error>;

/// What an [`Error`] says, as plain values beside the outside crates' own
/// errors.
pub enum Failure {
    Unzip(zip::result::ZipError),
    SogParse(ParseFailure),
    SogDecode(DecodeFailure),
}

impl View for Error {
    type V = Failure;

    open spec fn view(&self) -> Failure {
        match *self {
            Error::Unzip(UnzipError::Unzip(e)) => Failure::Unzip(e),
            Error::SogParse(e) => Failure::SogParse(e@),
            Error::SogDecode(e) => Failure::SogDecode(e@),
        }
    }
}

impl From<zip::result::ZipError> for UnzipError {
    /// Wraps the archive reader's error.
    fn from(e: zip::result::ZipError) -> (r: UnzipError) {
        UnzipError::Unzip(e)
    }
}

impl vstd::std_specs::convert::FromSpecImpl<zip::result::ZipError> for UnzipError {
    open spec fn obeys_from_spec() -> bool {
        true
    }

    open spec fn from_spec(e: zip::result::ZipError) -> UnzipError {
        UnzipError::Unzip(e)
    }
}

impl From<image_webp::DecodingError> for DecodeError {
    /// Wraps the image codec's error.
    fn from(e: image_webp::DecodingError) -> (r: DecodeError) {
        DecodeError::DecodeImage(e)
    }
}

impl vstd::std_specs::convert::FromSpecImpl<image_webp::DecodingError> for DecodeError {
    open spec fn obeys_from_spec() -> bool {
        true
    }

    open spec fn from_spec(e: image_webp::DecodingError) -> DecodeError {
        DecodeError::DecodeImage(e)
    }
}

impl From<UnzipError> for Error {
    /// Tags a failure of the archive stage.
    fn from(e: UnzipError) -> (r: Error) {
        Error::Unzip(e)
    }
}

impl vstd::std_specs::convert::FromSpecImpl<UnzipError> for Error {
    open spec fn obeys_from_spec() -> bool {
        true
    }

    open spec fn from_spec(e: UnzipError) -> Error {
        Error::Unzip(e)
    }
}

impl From<ParseError> for Error {
    /// Tags a failure of the manifest stage.
    fn from(e: ParseError) -> (r: Error) {
        Error::SogParse(e)
    }
}

impl vstd::std_specs::convert::FromSpecImpl<ParseError> for Error {
    open spec fn obeys_from_spec() -> bool {
        true
    }

    open spec fn from_spec(e: ParseError) -> Error {
        Error::SogParse(e)
    }
}

impl From<DecodeError> for Error {
    /// Tags a failure of the decoding stage.
    fn from(e: DecodeError) -> (r: Error) {
        Error::SogDecode(e)
    }
}

impl vstd::std_specs::convert::FromSpecImpl<DecodeError> for Error {
    open spec fn obeys_from_spec() -> bool {
        true
    }

    open spec fn from_spec(e: DecodeError) -> Error {
        Error::SogDecode(e)
    }
}

} // verus!
