use scuffle_ffmpeg::codec_parameters::CodecParameters;
use scuffle_ffmpeg::dict::Dictionary;
use scuffle_ffmpeg::enums::{AVFmtFlags, AVFormatFlags};
use scuffle_ffmpeg::error::{FfmpegError, FfmpegErrorCode};
use scuffle_ffmpeg::io::output::{OutputFormat, OutputState, OutputWrite, DEFAULT_BUFFER_SIZE};
use scuffle_ffmpeg::io::{Output, OutputOptions};
use scuffle_ffmpeg::rational::{AVRational, Rational};
use scuffle_ffmpeg::raw::{AVChannelLayout, AVCodecParameters};
use scuffle_ffmpeg::stream::Stream;

fn mp4() -> OutputFormat {
    OutputFormat { handle: 0x10, flags: AVFormatFlags::GlobalHeader }
}

fn options() -> OutputOptions {
    OutputOptions::builder().format_ffi(mp4()).unwrap().build().unwrap()
}

fn params() -> AVCodecParameters {
    AVCodecParameters {
        codec_type: 0,
        codec_id: 27,
        format: 0,
        bit_rate: 0,
        width: 16,
        height: 16,
        sample_aspect_ratio: AVRational { num: 1, den: 1 },
        framerate: AVRational { num: 25, den: 1 },
        color_range: 0,
        sample_rate: 0,
        ch_layout: AVChannelLayout { order: 0, nb_channels: 0, mask: 0 },
    }
}

#[test]
fn test_output_options_get_format_ffi_null() {
    let output_options = OutputOptions::builder().format_ffi(mp4()).unwrap().build().unwrap();
    assert_eq!(output_options.format_ffi, mp4());
    assert_eq!(output_options.buffer_size, DEFAULT_BUFFER_SIZE);
}

#[test]
fn test_output_options_get_format_ffi_output_format_error() {
    match OutputOptions::builder().format_ffi(OutputFormat { handle: 0, flags: 0 }) {
        Ok(_) => panic!("Expected error, got Ok"),
        Err(e) => {
            assert_eq!(e, FfmpegError::Arguments("could not determine output format"));
        }
    }
}

#[test]
fn test_output_into_inner() {
    let data: Vec<u8> = Vec::with_capacity(1024);
    let output = Output::new(data, options()).ok().expect("Failed to create Output");
    let inner_data = output.into_inner();

    assert!(inner_data.is_empty());
    assert_eq!(inner_data.capacity(), 1024);
}

#[test]
fn test_output_new() {
    let output = Output::new(Vec::<u8>::new(), options());
    assert!(output.is_ok());
}

#[test]
fn test_output_seekable() {
    let output = Output::seekable(Vec::<u8>::new(), options());
    assert!(output.is_ok());
}

#[test]
fn test_output_flags() {
    let output = Output::new(Vec::<u8>::new(), options()).ok().expect("Failed to create Output");
    let flags = output.flags();

    assert_eq!(flags.0, AVFmtFlags::AutoBsf, "Expected default flag to be AVFMT_FLAG_AUTO_BSF");
    assert_eq!(output.output_flags(), Some(AVFormatFlags(AVFormatFlags::GlobalHeader)));
}

#[test]
fn test_add_stream_with_valid_codec() {
    let mut output = Output::new(Vec::<u8>::new(), options()).ok().unwrap();
    let stream = output.add_stream();
    assert_eq!(stream, Some(0), "Expected a valid Stream to be added");
    assert_eq!(output.add_stream(), Some(1));
    assert_eq!(output.streams()[1].id, 1);
}

#[test]
fn test_copy_stream() {
    let mut output = Output::new(Vec::<u8>::new(), options()).ok().unwrap();
    let mut output_two = Output::new(Vec::<u8>::new(), options()).ok().unwrap();

    let source_index = output.add_stream().expect("Failed to add source stream");
    output.set_stream_parameters(source_index, params());
    output.set_stream_times(source_index, Rational::new(1, 25), Some(1000), Some(500));
    let source_stream = output.streams()[source_index];

    let copied_index = output_two
        .copy_stream(&source_stream)
        .expect("Failed to copy the stream")
        .expect("Failed to copy the stream");
    let copied_stream = output_two.streams()[copied_index];

    assert_eq!(copied_stream.index, source_stream.index, "Stream indices should match");
    assert_eq!(copied_stream.id, source_stream.id, "Stream IDs should match");
    assert_eq!(copied_stream.time_base, source_stream.time_base, "Time bases should match");
    assert_eq!(copied_stream.start_time, source_stream.start_time, "Start times should match");
    assert_eq!(copied_stream.duration, source_stream.duration, "Durations should match");
    assert_eq!(copied_stream.codec_parameters, Some(params()));
}

#[test]
fn copy_stream_without_parameters_adds_nothing() {
    let mut output = Output::new(Vec::<u8>::new(), options()).ok().unwrap();
    let stream = Stream {
        index: 0,
        id: 0,
        codec_parameters: None,
        time_base: Rational::new(1, 25),
        start_time: None,
        duration: None,
        guessed_frame_rate: AVRational { num: 0, den: 1 },
    };
    assert_eq!(output.copy_stream(&stream), Ok(None));
    assert!(output.streams().is_empty());
}

#[test]
fn add_stream_from_codec_parameters() {
    let stream = Stream {
        index: 4,
        id: 4,
        codec_parameters: Some(params()),
        time_base: Rational::new(1, 90000),
        start_time: Some(7),
        duration: Some(9),
        guessed_frame_rate: AVRational { num: 0, den: 1 },
    };
    let mut cp = CodecParameters::from_stream(&stream).ok().unwrap();
    assert_eq!(cp.time_base(), Rational::new(1, 90000));
    cp.set_time_base(Rational::new(1, 1000));
    let mut output = Output::new(Vec::<u8>::new(), options()).ok().unwrap();
    let index = output.add_stream_from_codec_parameters(&cp).unwrap().unwrap();
    let s = output.streams()[index];
    assert_eq!(s.index, 0);
    assert_eq!(s.time_base, Rational::new(1, 1000));
    assert_eq!(s.start_time, Some(7));
    assert_eq!(s.duration, Some(9));
    assert_eq!(s.codec_parameters, Some(params()));

    let mut no_params = stream;
    no_params.codec_parameters = None;
    assert!(matches!(
        CodecParameters::from_stream(&no_params),
        Err(FfmpegError::Arguments("stream has no codec parameters"))
    ));
}

#[test]
fn output_write_order_is_enforced() {
    let mut output = Output::new(Vec::<u8>::new(), options()).ok().unwrap();
    assert_eq!(
        output.write_packet(0),
        Err(FfmpegError::Arguments("cannot write packet before header or after trailer has been written"))
    );
    assert_eq!(
        output.write_trailer(0),
        Err(FfmpegError::Arguments("cannot write trailer before header or after trailer has been written"))
    );
    assert!(output.allows(OutputWrite::Header));
    assert_eq!(output.write_header(-5), Err(FfmpegError::Code(FfmpegErrorCode(-5))));
    assert_eq!(output.state(), OutputState::Uninitialized);
    assert_eq!(output.write_header(0), Ok(()));
    assert_eq!(output.write_header(0), Err(FfmpegError::Arguments("header already written")));
    assert_eq!(output.write_packet(0), Ok(()));
    assert_eq!(output.write_interleaved_packet(0), Ok(()));
    assert_eq!(output.write_packet(-3), Err(FfmpegError::Code(FfmpegErrorCode(-3))));
    assert_eq!(output.write_trailer(0), Ok(()));
    assert_eq!(output.state(), OutputState::TrailerWritten);
    assert_eq!(
        output.write_interleaved_packet(0),
        Err(FfmpegError::Arguments(
            "cannot write interleaved packet before header or after trailer has been written"
        ))
    );
    assert_eq!(
        output.write_trailer(0),
        Err(FfmpegError::Arguments("cannot write trailer before header or after trailer has been written"))
    );
}

#[test]
fn header_options_keep_what_the_muxer_left() {
    let mut output = Output::new(Vec::<u8>::new(), options()).unwrap();
    let mut opts = Dictionary::new();
    opts.set("movflags", "frag_keyframe").unwrap();
    opts.set("unknown_option", "1").unwrap();
    let mut unused = Dictionary::new();
    unused.set("unknown_option", "1").unwrap();
    assert!(output.write_header_with_options(&mut opts, 0, unused).is_ok());
    assert_eq!(opts.get("movflags"), None, "the muxer took this option");
    assert_eq!(opts.get("unknown_option"), Some("1"));
    assert_eq!(output.state(), OutputState::HeaderWritten);

    let mut again = Dictionary::new();
    again.set("a", "b").unwrap();
    let r = output.write_header_with_options(&mut again, 0, Dictionary::new());
    assert!(matches!(r, Err(FfmpegError::Arguments("header already written"))));
    assert_eq!(again.get("a"), Some("b"), "no write, no change");
}
