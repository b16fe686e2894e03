//! Typed views of the raw codes that the engine reports for a stream: its
//! media type, and the pixel or sample format stored in the one slot that
//! the two kinds of stream share.
use vstd::prelude::*;

verus! {

/// The kind of stream a context carries.
#[derive(Clone, Copy, Debug, PartialEq, Eq, Structural)]
pub enum MediaType {
    Unknown,
    Video,
    Audio,
    Data,
    Subtitle,
    Attachment,
}

/// The media type that a raw code stands for; codes the engine does not
/// define are `Unknown`.
pub open spec fn media_type_of(code: libc::c_int) -> MediaType {
    if code == 0 {
        MediaType::Video
    } else if code == 1 {
        MediaType::Audio
    } else if code == 2 {
        MediaType::Data
    } else if code == 3 {
        MediaType::Subtitle
    } else if code == 4 {
        MediaType::Attachment
    } else {
        MediaType::Unknown
    }
}

impl MediaType {
    pub fn from_code(code: libc::c_int) -> (r: MediaType)
        ensures
            r == media_type_of(code),
    {
        if code == 0 {
            MediaType::Video
        } else if code == 1 {
            MediaType::Audio
        } else if code == 2 {
            MediaType::Data
        } else if code == 3 {
            MediaType::Subtitle
        } else if code == 4 {
            MediaType::Attachment
        } else {
            MediaType::Unknown
        }
    }
}

/// How the channels of an audio frame are laid out in memory.
#[derive(Clone, Copy, Debug, PartialEq, Eq, Structural)]
pub enum SampleType {
    Packed,
    Planar,
}

/// The format of one audio sample.
#[derive(Clone, Copy, Debug, PartialEq, Eq, Structural)]
pub enum Sample {
    Unspecified,
    U8(SampleType),
    I16(SampleType),
    I32(SampleType),
    I64(SampleType),
    F32(SampleType),
    F64(SampleType),
}

/// The sample format that a raw code stands for; codes the engine does not
/// define are `Unspecified`.
pub open spec fn sample_of(code: libc::c_int) -> Sample {
    if code == 0 {
        Sample::U8(SampleType::Packed)
    } else if code == 1 {
        Sample::I16(SampleType::Packed)
    } else if code == 2 {
        Sample::I32(SampleType::Packed)
    } else if code == 3 {
        Sample::F32(SampleType::Packed)
    } else if code == 4 {
        Sample::F64(SampleType::Packed)
    } else if code == 5 {
        Sample::U8(SampleType::Planar)
    } else if code == 6 {
        Sample::I16(SampleType::Planar)
    } else if code == 7 {
        Sample::I32(SampleType::Planar)
    } else if code == 8 {
        Sample::F32(SampleType::Planar)
    } else if code == 9 {
        Sample::F64(SampleType::Planar)
    } else if code == 10 {
        Sample::I64(SampleType::Packed)
    } else if code == 11 {
        Sample::I64(SampleType::Planar)
    } else {
        Sample::Unspecified
    }
}

impl Sample {
    pub fn from_code(code: libc::c_int) -> (r: Sample)
        ensures
            r == sample_of(code),
    {
        if code == 0 {
            Sample::U8(SampleType::Packed)
        } else if code == 1 {
            Sample::I16(SampleType::Packed)
        } else if code == 2 {
            Sample::I32(SampleType::Packed)
        } else if code == 3 {
            Sample::F32(SampleType::Packed)
        } else if code == 4 {
            Sample::F64(SampleType::Packed)
        } else if code == 5 {
            Sample::U8(SampleType::Planar)
        } else if code == 6 {
            Sample::I16(SampleType::Planar)
        } else if code == 7 {
            Sample::I32(SampleType::Planar)
        } else if code == 8 {
            Sample::F32(SampleType::Planar)
        } else if code == 9 {
            Sample::F64(SampleType::Planar)
        } else if code == 10 {
            Sample::I64(SampleType::Packed)
        } else if code == 11 {
            Sample::I64(SampleType::Planar)
        } else {
            Sample::Unspecified
        }
    }
}

/// The layout of one pixel. The engine's first formats have variants of
/// their own; any later one is kept by its code as `Other`.
#[allow(non_camel_case_types)]
#[derive(Clone, Copy, Debug, PartialEq, Eq, Structural)]
pub enum Pixel {
    Unspecified,
    YUV420P,
    YUYV422,
    RGB24,
    BGR24,
    YUV422P,
    YUV444P,
    YUV410P,
    YUV411P,
    GRAY8,
    MonoWhite,
    MonoBlack,
    PAL8,
    YUVJ420P,
    YUVJ422P,
    YUVJ444P,
    UYVY422,
    UYYVYY411,
    BGR8,
    BGR4,
    BGR4_BYTE,
    RGB8,
    RGB4,
    RGB4_BYTE,
    NV12,
    NV21,
    ARGB,
    RGBA,
    ABGR,
    BGRA,
    Other(libc::c_int),
}

/// The pixel format that a raw code stands for.
pub open spec fn pixel_of(code: libc::c_int) -> Pixel {
    if code == -1 {
        Pixel::Unspecified
    } else if code == 0 {
        Pixel::YUV420P
    } else if code == 1 {
        Pixel::YUYV422
    } else if code == 2 {
        Pixel::RGB24
    } else if code == 3 {
        Pixel::BGR24
    } else if code == 4 {
        Pixel::YUV422P
    } else if code == 5 {
        Pixel::YUV444P
    } else if code == 6 {
        Pixel::YUV410P
    } else if code == 7 {
        Pixel::YUV411P
    } else if code == 8 {
        Pixel::GRAY8
    } else if code == 9 {
        Pixel::MonoWhite
    } else if code == 10 {
        Pixel::MonoBlack
    } else if code == 11 {
        Pixel::PAL8
    } else if code == 12 {
        Pixel::YUVJ420P
    } else if code == 13 {
        Pixel::YUVJ422P
    } else if code == 14 {
        Pixel::YUVJ444P
    } else if code == 15 {
        Pixel::UYVY422
    } else if code == 16 {
        Pixel::UYYVYY411
    } else if code == 17 {
        Pixel::BGR8
    } else if code == 18 {
        Pixel::BGR4
    } else if code == 19 {
        Pixel::BGR4_BYTE
    } else if code == 20 {
        Pixel::RGB8
    } else if code == 21 {
        Pixel::RGB4
    } else if code == 22 {
        Pixel::RGB4_BYTE
    } else if code == 23 {
        Pixel::NV12
    } else if code == 24 {
        Pixel::NV21
    } else if code == 25 {
        Pixel::ARGB
    } else if code == 26 {
        Pixel::RGBA
    } else if code == 27 {
        Pixel::ABGR
    } else if code == 28 {
        Pixel::BGRA
    } else {
        Pixel::Other(code)
    }
}

/// The raw code of a pixel format.
pub open spec fn pixel_code(p: Pixel) -> libc::c_int {
    match p {
        Pixel::Unspecified => -1i32,
        Pixel::YUV420P => 0,
        Pixel::YUYV422 => 1,
        Pixel::RGB24 => 2,
        Pixel::BGR24 => 3,
        Pixel::YUV422P => 4,
        Pixel::YUV444P => 5,
        Pixel::YUV410P => 6,
        Pixel::YUV411P => 7,
        Pixel::GRAY8 => 8,
        Pixel::MonoWhite => 9,
        Pixel::MonoBlack => 10,
        Pixel::PAL8 => 11,
        Pixel::YUVJ420P => 12,
        Pixel::YUVJ422P => 13,
        Pixel::YUVJ444P => 14,
        Pixel::UYVY422 => 15,
        Pixel::UYYVYY411 => 16,
        Pixel::BGR8 => 17,
        Pixel::BGR4 => 18,
        Pixel::BGR4_BYTE => 19,
        Pixel::RGB8 => 20,
        Pixel::RGB4 => 21,
        Pixel::RGB4_BYTE => 22,
        Pixel::NV12 => 23,
        Pixel::NV21 => 24,
        Pixel::ARGB => 25,
        Pixel::RGBA => 26,
        Pixel::ABGR => 27,
        Pixel::BGRA => 28,
        Pixel::Other(code) => code,
    }
}

impl Pixel {
    pub fn from_code(code: libc::c_int) -> (r: Pixel)
        ensures
            r == pixel_of(code),
    {
        if code == -1 {
            Pixel::Unspecified
        } else if code == 0 {
            Pixel::YUV420P
        } else if code == 1 {
            Pixel::YUYV422
        } else if code == 2 {
            Pixel::RGB24
        } else if code == 3 {
            Pixel::BGR24
        } else if code == 4 {
            Pixel::YUV422P
        } else if code == 5 {
            Pixel::YUV444P
        } else if code == 6 {
            Pixel::YUV410P
        } else if code == 7 {
            Pixel::YUV411P
        } else if code == 8 {
            Pixel::GRAY8
        } else if code == 9 {
            Pixel::MonoWhite
        } else if code == 10 {
            Pixel::MonoBlack
        } else if code == 11 {
            Pixel::PAL8
        } else if code == 12 {
            Pixel::YUVJ420P
        } else if code == 13 {
            Pixel::YUVJ422P
        } else if code == 14 {
            Pixel::YUVJ444P
        } else if code == 15 {
            Pixel::UYVY422
        } else if code == 16 {
            Pixel::UYYVYY411
        } else if code == 17 {
            Pixel::BGR8
        } else if code == 18 {
            Pixel::BGR4
        } else if code == 19 {
            Pixel::BGR4_BYTE
        } else if code == 20 {
            Pixel::RGB8
        } else if code == 21 {
            Pixel::RGB4
        } else if code == 22 {
            Pixel::RGB4_BYTE
        } else if code == 23 {
            Pixel::NV12
        } else if code == 24 {
            Pixel::NV21
        } else if code == 25 {
            Pixel::ARGB
        } else if code == 26 {
            Pixel::RGBA
        } else if code == 27 {
            Pixel::ABGR
        } else if code == 28 {
            Pixel::BGRA
        } else {
            Pixel::Other(code)
        }
    }
}

/// A decoded pixel format is exactly the code that was read: every code
/// maps to one pixel format and back to itself.
pub proof fn lemma_pixel_code_round_trip(code: libc::c_int)
    ensures
        pixel_code(pixel_of(code)) == code,
{
}

} // verus!
