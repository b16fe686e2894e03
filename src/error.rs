//! The error taxonomy shared by the sink's operations, and the mapping from
//! the engine's negative status codes onto it.
use vstd::prelude::*;

verus! {

// Status codes that the engine builds from a four-character tag, as the
// negation of the tag's little-endian value.
pub const AVERROR_BSF_NOT_FOUND: i32 = -1179861752;
pub const AVERROR_BUG: i32 = -558323010;
pub const AVERROR_BUFFER_TOO_SMALL: i32 = -1397118274;
pub const AVERROR_DECODER_NOT_FOUND: i32 = -1128613112;
pub const AVERROR_DEMUXER_NOT_FOUND: i32 = -1296385272;
pub const AVERROR_ENCODER_NOT_FOUND: i32 = -1129203192;
pub const AVERROR_EOF: i32 = -541478725;
pub const AVERROR_EXIT: i32 = -1414092869;
pub const AVERROR_EXTERNAL: i32 = -542398533;
pub const AVERROR_FILTER_NOT_FOUND: i32 = -1279870712;
pub const AVERROR_INVALIDDATA: i32 = -1094995529;
pub const AVERROR_MUXER_NOT_FOUND: i32 = -1481985528;
pub const AVERROR_OPTION_NOT_FOUND: i32 = -1414549496;
pub const AVERROR_PATCHWELCOME: i32 = -1163346256;
pub const AVERROR_PROTOCOL_NOT_FOUND: i32 = -1330794744;
pub const AVERROR_STREAM_NOT_FOUND: i32 = -1381258232;
pub const AVERROR_BUG2: i32 = -541545794;
pub const AVERROR_UNKNOWN: i32 = -1313558101;
pub const AVERROR_HTTP_BAD_REQUEST: i32 = -808465656;
pub const AVERROR_HTTP_UNAUTHORIZED: i32 = -825242872;
pub const AVERROR_HTTP_FORBIDDEN: i32 = -858797304;
pub const AVERROR_HTTP_NOT_FOUND: i32 = -875574520;
pub const AVERROR_HTTP_TOO_MANY_REQUESTS: i32 = -959591672;
pub const AVERROR_HTTP_OTHER_4XX: i32 = -1482175736;
pub const AVERROR_HTTP_SERVER_ERROR: i32 = -1482175992;

/// What went wrong in a call into the engine.
///
/// Each tagged status code has a variant of its own; any other code is an
/// `errno` value negated by the engine and comes back as `Other`, with the
/// sign undone (so a pull that would block is `Other { errno: EAGAIN }`).
#[derive(Clone, Copy, Debug, PartialEq, Eq, Structural)]
pub enum Error {
    BsfNotFound,
    Bug,
    BufferTooSmall,
    DecoderNotFound,
    DemuxerNotFound,
    EncoderNotFound,
    Eof,
    Exit,
    External,
    FilterNotFound,
    InvalidData,
    MuxerNotFound,
    OptionNotFound,
    PatchWelcome,
    ProtocolNotFound,
    StreamNotFound,
    Bug2,
    Unknown,
    HttpBadRequest,
    HttpUnauthorized,
    HttpForbidden,
    HttpNotFound,
    HttpTooManyRequests,
    HttpOther4xx,
    HttpServerError,
    Other { errno: libc::c_int },
}

/// The `errno` value behind a status code that carries no tag: the code
/// negated, where the negation fits.
pub open spec fn errno_of(code: libc::c_int) -> libc::c_int {
    if code == i32::MIN {
        code
    } else {
        (-code) as libc::c_int
    }
}

/// The error that a status code stands for.
pub open spec fn error_of(code: libc::c_int) -> Error {
    if code == AVERROR_BSF_NOT_FOUND {
        Error::BsfNotFound
    } else if code == AVERROR_BUG {
        Error::Bug
    } else if code == AVERROR_BUFFER_TOO_SMALL {
        Error::BufferTooSmall
    } else if code == AVERROR_DECODER_NOT_FOUND {
        Error::DecoderNotFound
    } else if code == AVERROR_DEMUXER_NOT_FOUND {
        Error::DemuxerNotFound
    } else if code == AVERROR_ENCODER_NOT_FOUND {
        Error::EncoderNotFound
    } else if code == AVERROR_EOF {
        Error::Eof
    } else if code == AVERROR_EXIT {
        Error::Exit
    } else if code == AVERROR_EXTERNAL {
        Error::External
    } else if code == AVERROR_FILTER_NOT_FOUND {
        Error::FilterNotFound
    } else if code == AVERROR_INVALIDDATA {
        Error::InvalidData
    } else if code == AVERROR_MUXER_NOT_FOUND {
        Error::MuxerNotFound
    } else if code == AVERROR_OPTION_NOT_FOUND {
        Error::OptionNotFound
    } else if code == AVERROR_PATCHWELCOME {
        Error::PatchWelcome
    } else if code == AVERROR_PROTOCOL_NOT_FOUND {
        Error::ProtocolNotFound
    } else if code == AVERROR_STREAM_NOT_FOUND {
        Error::StreamNotFound
    } else if code == AVERROR_BUG2 {
        Error::Bug2
    } else if code == AVERROR_UNKNOWN {
        Error::Unknown
    } else if code == AVERROR_HTTP_BAD_REQUEST {
        Error::HttpBadRequest
    } else if code == AVERROR_HTTP_UNAUTHORIZED {
        Error::HttpUnauthorized
    } else if code == AVERROR_HTTP_FORBIDDEN {
        Error::HttpForbidden
    } else if code == AVERROR_HTTP_NOT_FOUND {
        Error::HttpNotFound
    } else if code == AVERROR_HTTP_TOO_MANY_REQUESTS {
        Error::HttpTooManyRequests
    } else if code == AVERROR_HTTP_OTHER_4XX {
        Error::HttpOther4xx
    } else if code == AVERROR_HTTP_SERVER_ERROR {
        Error::HttpServerError
    } else {
        Error::Other { errno: errno_of(code) }
    }
}

/// The status code that an error was decoded from.
pub open spec fn code_of(e: Error) -> libc::c_int {
    match e {
        Error::BsfNotFound => AVERROR_BSF_NOT_FOUND,
        Error::Bug => AVERROR_BUG,
        Error::BufferTooSmall => AVERROR_BUFFER_TOO_SMALL,
        Error::DecoderNotFound => AVERROR_DECODER_NOT_FOUND,
        Error::DemuxerNotFound => AVERROR_DEMUXER_NOT_FOUND,
        Error::EncoderNotFound => AVERROR_ENCODER_NOT_FOUND,
        Error::Eof => AVERROR_EOF,
        Error::Exit => AVERROR_EXIT,
        Error::External => AVERROR_EXTERNAL,
        Error::FilterNotFound => AVERROR_FILTER_NOT_FOUND,
        Error::InvalidData => AVERROR_INVALIDDATA,
        Error::MuxerNotFound => AVERROR_MUXER_NOT_FOUND,
        Error::OptionNotFound => AVERROR_OPTION_NOT_FOUND,
        Error::PatchWelcome => AVERROR_PATCHWELCOME,
        Error::ProtocolNotFound => AVERROR_PROTOCOL_NOT_FOUND,
        Error::StreamNotFound => AVERROR_STREAM_NOT_FOUND,
        Error::Bug2 => AVERROR_BUG2,
        Error::Unknown => AVERROR_UNKNOWN,
        Error::HttpBadRequest => AVERROR_HTTP_BAD_REQUEST,
        Error::HttpUnauthorized => AVERROR_HTTP_UNAUTHORIZED,
        Error::HttpForbidden => AVERROR_HTTP_FORBIDDEN,
        Error::HttpNotFound => AVERROR_HTTP_NOT_FOUND,
        Error::HttpTooManyRequests => AVERROR_HTTP_TOO_MANY_REQUESTS,
        Error::HttpOther4xx => AVERROR_HTTP_OTHER_4XX,
        Error::HttpServerError => AVERROR_HTTP_SERVER_ERROR,
        Error::Other { errno } => errno_of(errno),
    }
}

impl From<libc::c_int> for Error {
    fn from(code: libc::c_int) -> (r: Error)
        ensures
            r == error_of(code),
    {
        if code == AVERROR_BSF_NOT_FOUND {
            Error::BsfNotFound
        } else if code == AVERROR_BUG {
            Error::Bug
        } else if code == AVERROR_BUFFER_TOO_SMALL {
            Error::BufferTooSmall
        } else if code == AVERROR_DECODER_NOT_FOUND {
            Error::DecoderNotFound
        } else if code == AVERROR_DEMUXER_NOT_FOUND {
            Error::DemuxerNotFound
        } else if code == AVERROR_ENCODER_NOT_FOUND {
            Error::EncoderNotFound
        } else if code == AVERROR_EOF {
            Error::Eof
        } else if code == AVERROR_EXIT {
            Error::Exit
        } else if code == AVERROR_EXTERNAL {
            Error::External
        } else if code == AVERROR_FILTER_NOT_FOUND {
            Error::FilterNotFound
        } else if code == AVERROR_INVALIDDATA {
            Error::InvalidData
        } else if code == AVERROR_MUXER_NOT_FOUND {
            Error::MuxerNotFound
        } else if code == AVERROR_OPTION_NOT_FOUND {
            Error::OptionNotFound
        } else if code == AVERROR_PATCHWELCOME {
            Error::PatchWelcome
        } else if code == AVERROR_PROTOCOL_NOT_FOUND {
            Error::ProtocolNotFound
        } else if code == AVERROR_STREAM_NOT_FOUND {
            Error::StreamNotFound
        } else if code == AVERROR_BUG2 {
            Error::Bug2
        } else if code == AVERROR_UNKNOWN {
            Error::Unknown
        } else if code == AVERROR_HTTP_BAD_REQUEST {
            Error::HttpBadRequest
        } else if code == AVERROR_HTTP_UNAUTHORIZED {
            Error::HttpUnauthorized
        } else if code == AVERROR_HTTP_FORBIDDEN {
            Error::HttpForbidden
        } else if code == AVERROR_HTTP_NOT_FOUND {
            Error::HttpNotFound
        } else if code == AVERROR_HTTP_TOO_MANY_REQUESTS {
            Error::HttpTooManyRequests
        } else if code == AVERROR_HTTP_OTHER_4XX {
            Error::HttpOther4xx
        } else if code == AVERROR_HTTP_SERVER_ERROR {
            Error::HttpServerError
        } else if code == i32::MIN {
            Error::Other { errno: code }
        } else {
            Error::Other { errno: -code }
        }
    }
}

impl vstd::std_specs::convert::FromSpecImpl<libc::c_int> for Error {
    open spec fn obeys_from_spec() -> bool {
        true
    }

    open spec fn from_spec(code: libc::c_int) -> Error {
        error_of(code)
    }
}

impl Error {
    /// The status code that this error stands for.
    pub fn code(self) -> (r: libc::c_int)
        ensures
            r == code_of(self),
    {
        match self {
            Error::BsfNotFound => AVERROR_BSF_NOT_FOUND,
            Error::Bug => AVERROR_BUG,
            Error::BufferTooSmall => AVERROR_BUFFER_TOO_SMALL,
            Error::DecoderNotFound => AVERROR_DECODER_NOT_FOUND,
            Error::DemuxerNotFound => AVERROR_DEMUXER_NOT_FOUND,
            Error::EncoderNotFound => AVERROR_ENCODER_NOT_FOUND,
            Error::Eof => AVERROR_EOF,
            Error::Exit => AVERROR_EXIT,
            Error::External => AVERROR_EXTERNAL,
            Error::FilterNotFound => AVERROR_FILTER_NOT_FOUND,
            Error::InvalidData => AVERROR_INVALIDDATA,
            Error::MuxerNotFound => AVERROR_MUXER_NOT_FOUND,
            Error::OptionNotFound => AVERROR_OPTION_NOT_FOUND,
            Error::PatchWelcome => AVERROR_PATCHWELCOME,
            Error::ProtocolNotFound => AVERROR_PROTOCOL_NOT_FOUND,
            Error::StreamNotFound => AVERROR_STREAM_NOT_FOUND,
            Error::Bug2 => AVERROR_BUG2,
            Error::Unknown => AVERROR_UNKNOWN,
            Error::HttpBadRequest => AVERROR_HTTP_BAD_REQUEST,
            Error::HttpUnauthorized => AVERROR_HTTP_UNAUTHORIZED,
            Error::HttpForbidden => AVERROR_HTTP_FORBIDDEN,
            Error::HttpNotFound => AVERROR_HTTP_NOT_FOUND,
            Error::HttpTooManyRequests => AVERROR_HTTP_TOO_MANY_REQUESTS,
            Error::HttpOther4xx => AVERROR_HTTP_OTHER_4XX,
            Error::HttpServerError => AVERROR_HTTP_SERVER_ERROR,
            Error::Other { errno } => if errno == i32::MIN {
                errno
            } else {
                -errno
            },
        }
    }
}

/// Decoding a status code and encoding the error again gives back the code
/// itself, for every negative code: no failure the engine reports is lost
/// or mistaken for another.
pub proof fn lemma_error_code_round_trip(code: libc::c_int)
    requires
        code < 0,
    ensures
        code_of(error_of(code)) == code,
{
}

} // verus!
