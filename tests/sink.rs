use filter_sink::channel_layout::{ChannelLayout, KNOWN_CHANNELS};
use filter_sink::error::{Error, AVERROR_EOF, AVERROR_INVALIDDATA};
use filter_sink::format::SampleType::{Packed, Planar};
use filter_sink::format::{MediaType, Pixel, Sample, SampleType};
use filter_sink::rational::Rational;
use filter_sink::sink::Sink;

const VIDEO: i32 = 0;
const AUDIO: i32 = 1;

fn video_sink(width: i32, height: i32, format: i32) -> Sink {
    Sink {
        media_type: VIDEO,
        format,
        width,
        height,
        time_base: Rational::new(1, 25),
        frame_rate: Rational::new(25, 1),
        sample_rate: 0,
        channels: 0,
        channel_layout: 0,
    }
}

fn audio_sink(format: i32) -> Sink {
    Sink {
        media_type: AUDIO,
        format,
        width: 0,
        height: 0,
        time_base: Rational::new(1, 48000),
        frame_rate: Rational::new(0, 1),
        sample_rate: 48000,
        channels: 2,
        channel_layout: 0x3,
    }
}

#[test]
fn video_sink_reports_its_pixel_format() {
    let s = video_sink(64, 48, 0);
    assert_eq!(s.pixel_format(), Ok(Pixel::YUV420P));
    assert_eq!(video_sink(64, 48, 26).pixel_format(), Ok(Pixel::RGBA));
}

#[test]
fn audio_sink_has_no_pixel_format() {
    assert_eq!(audio_sink(8).pixel_format(), Err(Error::InvalidData));
}

#[test]
fn audio_sink_reports_its_sample_format() {
    assert_eq!(audio_sink(8).sample_format(), Ok(Sample::F32(SampleType::Planar)));
    assert_eq!(audio_sink(1).sample_format(), Ok(Sample::I16(SampleType::Packed)));
}

#[test]
fn video_sink_has_no_sample_format() {
    assert_eq!(video_sink(64, 48, 0).sample_format(), Err(Error::InvalidData));
}

#[test]
fn other_media_has_neither_format() {
    let mut s = video_sink(0, 0, 0);
    s.media_type = 3;
    assert_eq!(s.media_type(), MediaType::Subtitle);
    assert_eq!(s.pixel_format(), Err(Error::InvalidData));
    assert_eq!(s.sample_format(), Err(Error::InvalidData));
    s.media_type = -1;
    assert_eq!(s.media_type(), MediaType::Unknown);
    assert_eq!(s.pixel_format(), Err(Error::InvalidData));
    assert_eq!(s.sample_format(), Err(Error::InvalidData));
}

#[test]
fn constant_video_sink_dimensions() {
    let s = video_sink(64, 48, 0);
    assert_eq!(s.width(), 64);
    assert_eq!(s.height(), 48);
    assert!(s.pixel_format().is_ok());
    assert_eq!(s.sample_format(), Err(Error::InvalidData));
}

#[test]
fn dimensions_before_any_frame_are_zero() {
    let s = video_sink(0, 0, -1);
    assert_eq!(s.width(), 0);
    assert_eq!(s.height(), 0);
    assert_eq!(s.pixel_format(), Ok(Pixel::Unspecified));
}

#[test]
fn negative_dimension_reads_as_unsigned() {
    let s = video_sink(-1, -2, 0);
    assert_eq!(s.width(), u32::MAX);
    assert_eq!(s.height(), u32::MAX - 1);
}

#[test]
fn timing_is_passed_through() {
    let s = video_sink(64, 48, 0);
    assert_eq!(s.time_base(), Rational(1, 25));
    assert_eq!(s.frame_rate().numerator(), 25);
    assert_eq!(s.frame_rate().denominator(), 1);
}

#[test]
fn audio_counts_are_passed_through() {
    let s = audio_sink(3);
    assert_eq!(s.sample_rate(), 48000);
    assert_eq!(s.channels(), 2);
    let v = video_sink(64, 48, 0);
    assert_eq!(v.sample_rate(), 0);
    assert_eq!(v.channels(), 0);
}

#[test]
fn channel_layout_keeps_known_positions() {
    assert_eq!(audio_sink(3).channel_layout().bits(), 0x3);
    let mut s = audio_sink(3);
    s.channel_layout = 0x3F | 0x100000000;
    assert_eq!(s.channel_layout().bits(), 0x3F | 0x100000000);
}

#[test]
fn channel_layout_drops_unknown_positions() {
    let mut s = audio_sink(3);
    s.channel_layout = 0x3 | (1 << 20) | (1 << 50);
    assert_eq!(s.channel_layout().bits(), 0x3);
    s.channel_layout = u64::MAX;
    assert_eq!(s.channel_layout().bits(), KNOWN_CHANNELS);
    assert_eq!(ChannelLayout::from_bits_truncate(1 << 63).bits(), 1 << 63);
    assert_eq!(ChannelLayout::from_bits_truncate(0).bits(), 0);
}

#[test]
fn successful_pull() {
    assert_eq!(Sink::frame(0), Ok(()));
    assert_eq!(Sink::frame(7), Ok(()));
    assert_eq!(Sink::samples(0), Ok(()));
    assert_eq!(Sink::samples(1024), Ok(()));
}

#[test]
fn drained_sink_reports_end_of_stream() {
    assert_eq!(Sink::frame(AVERROR_EOF), Err(Error::Eof));
    assert_eq!(Sink::frame(-541478725), Err(Error::Eof));
    assert_eq!(Sink::samples(AVERROR_EOF), Err(Error::Eof));
}

#[test]
fn empty_sink_asks_to_try_again() {
    let again = -libc::EAGAIN;
    assert_eq!(Sink::frame(again), Err(Error::Other { errno: libc::EAGAIN }));
    assert_eq!(Sink::samples(again), Err(Error::Other { errno: libc::EAGAIN }));
}

#[test]
fn failed_pull_maps_tagged_codes() {
    assert_eq!(Sink::frame(AVERROR_INVALIDDATA), Err(Error::InvalidData));
    assert_eq!(Sink::frame(-1313558101), Err(Error::Unknown));
    assert_eq!(Sink::frame(-542398533), Err(Error::External));
    assert_eq!(Sink::frame(-1), Err(Error::Other { errno: 1 }));
}

#[test]
fn error_from_every_tag() {
    let tagged = [
        (-1179861752, Error::BsfNotFound),
        (-558323010, Error::Bug),
        (-1397118274, Error::BufferTooSmall),
        (-1128613112, Error::DecoderNotFound),
        (-1296385272, Error::DemuxerNotFound),
        (-1129203192, Error::EncoderNotFound),
        (-541478725, Error::Eof),
        (-1414092869, Error::Exit),
        (-542398533, Error::External),
        (-1279870712, Error::FilterNotFound),
        (-1094995529, Error::InvalidData),
        (-1481985528, Error::MuxerNotFound),
        (-1414549496, Error::OptionNotFound),
        (-1163346256, Error::PatchWelcome),
        (-1330794744, Error::ProtocolNotFound),
        (-1381258232, Error::StreamNotFound),
        (-541545794, Error::Bug2),
        (-1313558101, Error::Unknown),
        (-808465656, Error::HttpBadRequest),
        (-825242872, Error::HttpUnauthorized),
        (-858797304, Error::HttpForbidden),
        (-875574520, Error::HttpNotFound),
        (-959591672, Error::HttpTooManyRequests),
        (-1482175736, Error::HttpOther4xx),
        (-1482175992, Error::HttpServerError),
    ];
    for (code, e) in tagged {
        assert_eq!(Error::from(code), e);
        assert_eq!(e.code(), code);
    }
}

#[test]
fn error_code_round_trip() {
    for code in [-1, -2, -11, -22, -1000, i32::MIN + 1, i32::MIN, AVERROR_EOF] {
        assert_eq!(Error::from(code).code(), code);
    }
    assert_eq!(Error::from(i32::MIN), Error::Other { errno: i32::MIN });
    assert_eq!(Error::from(-22), Error::Other { errno: 22 });
    assert_eq!(Error::Other { errno: 22 }.code(), -22);
}

#[test]
fn media_type_codes() {
    assert_eq!(MediaType::from_code(-1), MediaType::Unknown);
    assert_eq!(MediaType::from_code(0), MediaType::Video);
    assert_eq!(MediaType::from_code(1), MediaType::Audio);
    assert_eq!(MediaType::from_code(2), MediaType::Data);
    assert_eq!(MediaType::from_code(3), MediaType::Subtitle);
    assert_eq!(MediaType::from_code(4), MediaType::Attachment);
    assert_eq!(MediaType::from_code(5), MediaType::Unknown);
}

#[test]
fn sample_format_codes() {
    let expected = [
        Sample::U8(Packed),
        Sample::I16(Packed),
        Sample::I32(Packed),
        Sample::F32(Packed),
        Sample::F64(Packed),
        Sample::U8(Planar),
        Sample::I16(Planar),
        Sample::I32(Planar),
        Sample::F32(Planar),
        Sample::F64(Planar),
        Sample::I64(Packed),
        Sample::I64(Planar),
    ];
    for (code, s) in expected.iter().enumerate() {
        assert_eq!(Sample::from_code(code as i32), *s);
    }
    assert_eq!(Sample::from_code(-1), Sample::Unspecified);
    assert_eq!(Sample::from_code(12), Sample::Unspecified);
}

#[test]
fn pixel_format_codes() {
    assert_eq!(Pixel::from_code(-1), Pixel::Unspecified);
    assert_eq!(Pixel::from_code(0), Pixel::YUV420P);
    assert_eq!(Pixel::from_code(2), Pixel::RGB24);
    assert_eq!(Pixel::from_code(8), Pixel::GRAY8);
    assert_eq!(Pixel::from_code(23), Pixel::NV12);
    assert_eq!(Pixel::from_code(28), Pixel::BGRA);
    assert_eq!(Pixel::from_code(29), Pixel::Other(29));
    assert_eq!(Pixel::from_code(-7), Pixel::Other(-7));
}

#[test]
fn sample_count_fits() {
    assert_eq!(Sink::sample_count(0), 0);
    assert_eq!(Sink::sample_count(1024), 1024);
    assert_eq!(Sink::sample_count(i32::MAX as usize), i32::MAX);
}
