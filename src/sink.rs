//! The output end of a filter graph: what its sink context reports, read as
//! plain values, and the typed answers built from them.
use vstd::prelude::*;
use crate::channel_layout::{ChannelLayout, KNOWN_CHANNELS};
use crate::error::{Error, error_of};
use crate::format::{MediaType, Pixel, Sample, media_type_of, pixel_of, sample_of};
use crate::rational::Rational;

verus! {

/// The properties that a sink context of a finalized filter graph reports,
/// each as the raw value the engine gives for it.
///
/// `format` is one slot shared by video and audio streams: it holds a pixel
/// format code for a video sink and a sample format code for an audio one,
/// and `media_type` tells which.
#[derive(Clone, Copy, Debug, PartialEq, Eq, Structural)]
pub struct Sink {
    pub media_type: libc::c_int,
    pub format: libc::c_int,
    pub width: libc::c_int,
    pub height: libc::c_int,
    pub time_base: Rational,
    pub frame_rate: Rational,
    pub sample_rate: libc::c_int,
    pub channels: libc::c_int,
    pub channel_layout: u64,
}

/// What a pull from the sink comes to, given the status the engine returned
/// for it: success for any non-negative status, else the error it encodes.
pub open spec fn pull_result(status: libc::c_int) -> Result<(), Error> {
    if status >= 0 {
        Ok(())
    } else {
        Err(error_of(status))
    }
}

/// The pixel format of a sink, or `InvalidData` where it carries no video.
pub open spec fn pixel_format_of(s: Sink) -> Result<Pixel, Error> {
    if media_type_of(s.media_type) == MediaType::Video {
        Ok(pixel_of(s.format))
    } else {
        Err(Error::InvalidData)
    }
}

/// The sample format of a sink, or `InvalidData` where it carries no audio.
pub open spec fn sample_format_of(s: Sink) -> Result<Sample, Error> {
    if media_type_of(s.media_type) == MediaType::Audio {
        Ok(sample_of(s.format))
    } else {
        Err(Error::InvalidData)
    }
}

impl Sink {
    /// The frame width, as an unsigned number (zero before any frame has
    /// gone through the graph).
    pub fn width(&self) -> (r: u32)
        ensures
            r == self.width as u32,
    {
        self.width as u32
    }

    /// The frame height, as an unsigned number (zero before any frame has
    /// gone through the graph).
    pub fn height(&self) -> (r: u32)
        ensures
            r == self.height as u32,
    {
        self.height as u32
    }

    pub fn time_base(&self) -> (r: Rational)
        ensures
            r == self.time_base,
    {
        self.time_base
    }

    pub fn frame_rate(&self) -> (r: Rational)
        ensures
            r == self.frame_rate,
    {
        self.frame_rate
    }

    /// The kind of stream that reaches the sink.
    pub fn media_type(&self) -> (r: MediaType)
        ensures
            r == media_type_of(self.media_type),
    {
        MediaType::from_code(self.media_type)
    }

    /// The pixel format of a video sink. The shared format slot is read as a
    /// pixel format only once the sink is known to carry video; any other
    /// sink gives `InvalidData`.
    pub fn pixel_format(&self) -> (r: Result<Pixel, Error>)
        ensures
            r == pixel_format_of(*self),
            media_type_of(self.media_type) == MediaType::Video <==> r is Ok,
    {
        if self.media_type() != MediaType::Video {
            return Err(Error::InvalidData);
        }
        Ok(Pixel::from_code(self.format))
    }

    /// The sample format of an audio sink. The shared format slot is read as
    /// a sample format only once the sink is known to carry audio; any other
    /// sink gives `InvalidData`.
    pub fn sample_format(&self) -> (r: Result<Sample, Error>)
        ensures
            r == sample_format_of(*self),
            media_type_of(self.media_type) == MediaType::Audio <==> r is Ok,
    {
        if self.media_type() != MediaType::Audio {
            return Err(Error::InvalidData);
        }
        Ok(Sample::from_code(self.format))
    }

    pub fn sample_rate(&self) -> (r: libc::c_int)
        ensures
            r == self.sample_rate,
    {
        self.sample_rate
    }

    pub fn channels(&self) -> (r: libc::c_int)
        ensures
            r == self.channels,
    {
        self.channels
    }

    /// The channel layout, with every bit that names no known speaker
    /// position dropped.
    pub fn channel_layout(&self) -> (r: ChannelLayout)
        ensures
            r@ == self.channel_layout & KNOWN_CHANNELS,
    {
        ChannelLayout::from_bits_truncate(self.channel_layout)
    }

    /// The outcome of pulling the next buffered frame, given the status that
    /// the engine returned for the pull.
    pub fn frame(status: libc::c_int) -> (r: Result<(), Error>)
        ensures
            r == pull_result(status),
            status >= 0 <==> r is Ok,
    {
        if status >= 0 {
            Ok(())
        } else {
            Err(Error::from(status))
        }
    }

    /// The outcome of pulling a frame of a given number of samples, given
    /// the status that the engine returned for the pull.
    pub fn samples(status: libc::c_int) -> (r: Result<(), Error>)
        ensures
            r == pull_result(status),
            status >= 0 <==> r is Ok,
    {
        if status >= 0 {
            Ok(())
        } else {
            Err(Error::from(status))
        }
    }

    /// The sample count to hand to the engine for a pull of `samples`
    /// samples; the count must fit the engine's signed integer.
    pub fn sample_count(samples: usize) -> (r: libc::c_int)
        requires
            samples <= i32::MAX,
        ensures
            r == samples,
    {
        samples as libc::c_int
    }
}

/// Whatever the sink carries, exactly one of the two format readings
/// succeeds when it carries video or audio, and neither does otherwise.
pub proof fn lemma_formats_exclusive(s: Sink)
    ensures
        !(pixel_format_of(s) is Ok && sample_format_of(s) is Ok),
        pixel_format_of(s) is Ok <==> media_type_of(s.media_type) == MediaType::Video,
        sample_format_of(s) is Ok <==> media_type_of(s.media_type) == MediaType::Audio,
{
}

} // verus!
