use scuffle_ffmpeg::enums::AVPixelFormat;
use scuffle_ffmpeg::error::{FfmpegError, FfmpegErrorCode, AVERROR_EAGAIN, AVERROR_EOF};
use scuffle_ffmpeg::filter_graph::{Filter, FilterContext, FilterGraph, HWFramesContext};
use scuffle_ffmpeg::frame::GenericFrame;
use scuffle_ffmpeg::raw::BufferRef;

#[test]
fn test_filter_graph_new() {
    let filter_graph = FilterGraph::new();
    assert!(filter_graph.is_ok(), "FilterGraph::new should create a valid filter graph");
    let graph = filter_graph.ok().unwrap();
    assert_eq!(graph.thread_count(), 0);
    assert!(graph.get("anything").is_none());
}

#[test]
fn test_filter_graph_set_thread_count() {
    let mut filter_graph = FilterGraph::new().ok().expect("Failed to create filter graph");
    filter_graph.set_thread_count(4);
    assert_eq!(filter_graph.thread_count(), 4, "Thread count should be set to 4");

    filter_graph.set_thread_count(8);
    assert_eq!(filter_graph.thread_count(), 8, "Thread count should be set to 8");
}

#[test]
fn test_filter_graph_add() {
    let mut filter_graph = FilterGraph::new().ok().unwrap();
    let filter = Filter::wrap(0x1234);
    let name = "buffer_filter";
    let args = "width=1920:height=1080:pix_fmt=0:time_base=1/30";
    let result = filter_graph.add(filter, name, args, 0);

    assert!(result.is_ok(), "FilterGraph::add should successfully add a filter to the graph");
    assert_eq!(result.ok().unwrap(), FilterContext { index: 0 });
    assert!(matches!(
        filter_graph.add(filter, "x\0", args, 0),
        Err(FfmpegError::Arguments("name must be non-empty"))
    ));
    assert!(matches!(
        filter_graph.add(filter, "x", "a\0", 0),
        Err(FfmpegError::Arguments("args must be non-empty"))
    ));
    assert!(matches!(
        filter_graph.add(filter, "x", args, -22),
        Err(FfmpegError::Code(FfmpegErrorCode(-22)))
    ));
    assert!(filter_graph.get("x").is_none());
}

#[test]
fn test_filter_graph_get() {
    let mut filter_graph = FilterGraph::new().ok().unwrap();
    let filter = Filter::wrap(0x1234);
    let name = "buffer_filter";
    let args = "width=1920:height=1080:pix_fmt=0:time_base=1/30";
    filter_graph.add(filter, name, args, 0).ok().expect("Failed to add filter to the graph");

    let result = filter_graph.get(name);
    assert!(result.is_some(), "FilterGraph::get should return Some(FilterContext) for an existing filter");

    let non_existent = filter_graph.get("non_existent_filter");
    assert!(non_existent.is_none(), "FilterGraph::get should return None for a non-existent filter");
}

#[test]
fn test_filter_graph_input() {
    let mut filter_graph = FilterGraph::new().ok().unwrap();
    filter_graph
        .add(Filter::wrap(1), "src", "sample_rate=44100:channel_layout=stereo", 0)
        .ok()
        .expect("Failed to add 'anullsrc' filter");
    assert!(filter_graph.input("src", 0).is_ok());
    assert!(matches!(filter_graph.input("missing", 0), Err(FfmpegError::Arguments("unknown name"))));
}

#[test]
fn test_filter_graph_output() {
    let mut filter_graph = FilterGraph::new().ok().unwrap();
    filter_graph.add(Filter::wrap(1), "sink", "", 0).ok().unwrap();
    filter_graph.add(Filter::wrap(2), "src", "", 0).ok().unwrap();
    let parser = filter_graph.output("sink", 0).ok().unwrap();
    let parser = parser.output("src", 1).ok().unwrap();
    assert!(matches!(parser.input("nope", 0), Err(FfmpegError::Arguments("unknown name"))));
}

#[test]
fn test_filter_graph_link() {
    let mut filter_graph = FilterGraph::new().ok().expect("Failed to create filter graph");
    // The buffer and buffersink filters, as FFmpeg's lookup hands them out.
    let buffer_filter = Filter::wrap(0x100);
    let buffersink_filter = Filter::wrap(0x200);
    filter_graph
        .add(buffer_filter, "src", "width=640:height=480:pix_fmt=0:time_base=1/25", 0)
        .ok()
        .expect("Failed to add buffer filter");
    filter_graph.add(buffersink_filter, "sink", "", 0).ok().expect("Failed to add buffersink filter");

    let link_result = filter_graph.link("src", 0, "sink", 0, 0);
    assert!(link_result.is_ok(), "FilterGraph::link should successfully link compatible filters");

    // Configuring the linked graph succeeds.
    let validate_result = filter_graph.validate(0);
    assert!(validate_result.is_ok(), "Filter graph should validate successfully after linking");

    // FFmpeg refuses pads the filters do not have.
    let invalid_link_result = filter_graph.link("src", 999, "sink", 0, -22);
    assert!(invalid_link_result.is_err(), "FilterGraph::link should fail with invalid source pad index");

    let invalid_link_result2 = filter_graph.link("src", 0, "sink", 999, -22);
    assert!(invalid_link_result2.is_err(), "FilterGraph::link should fail with invalid destination pad index");

    let nonexistent_link_result = filter_graph.link("nonexistent", 0, "sink", 0, 0);
    assert!(matches!(nonexistent_link_result, Err(FfmpegError::Arguments("source filter not found"))));

    let nonexistent_link_result2 = filter_graph.link("src", 0, "nonexistent", 0, 0);
    assert!(matches!(nonexistent_link_result2, Err(FfmpegError::Arguments("destination filter not found"))));
    assert!(matches!(filter_graph.link("src", 0, "sink", 7, -22), Err(FfmpegError::Code(FfmpegErrorCode(-22)))));
}

#[test]
fn test_filter_context_sink() {
    let sink = FilterContext { index: 3 }.sink();
    assert_eq!(sink.index, 3);
    assert!(matches!(sink.receive_frame(AVERROR_EAGAIN, GenericFrame::new().unwrap()), Ok(None)));
    assert!(matches!(sink.receive_frame(AVERROR_EOF, GenericFrame::new().unwrap()), Ok(None)));
    assert!(matches!(sink.receive_frame(0, GenericFrame::new().unwrap()), Ok(Some(_))));
    assert!(matches!(
        sink.receive_frame(-1, GenericFrame::new().unwrap()),
        Err(FfmpegError::Code(FfmpegErrorCode(-1)))
    ));
    assert_eq!(FilterContext { index: 3 }.source().index, 3);
}

#[test]
fn test_hw_frames_context_creation() {
    let hw_frames = HWFramesContext::new(BufferRef(0x50), AVPixelFormat::Cuda, AVPixelFormat::Nv12, 1920, 1080, 4, 0);
    assert_eq!(hw_frames.ok().unwrap().as_ptr(), BufferRef(0x50));
    assert!(matches!(
        HWFramesContext::new(BufferRef(0), AVPixelFormat::Cuda, AVPixelFormat::Nv12, 1920, 1080, 4, 0),
        Err(FfmpegError::Alloc)
    ));
    assert!(matches!(
        HWFramesContext::new(BufferRef(1), AVPixelFormat::Cuda, AVPixelFormat::Nv12, 1920, 1080, 4, -5),
        Err(FfmpegError::Code(FfmpegErrorCode(-5)))
    ));
}

#[test]
fn test_hw_frames_context_cuda_convenience() {
    assert!(HWFramesContext::new_cuda(BufferRef(0x50), 1920, 1080, Some(8), 0).is_ok());
    assert!(HWFramesContext::new_cuda(BufferRef(0x50), 1920, 1080, None, 0).is_ok());
}

#[test]
fn test_filter_graph_validate_and_dump() {
    let filter_spec = "anullsrc=sample_rate=44100:channel_layout=stereo [out0]; [out0] anullsink";
    let mut graph = FilterGraph::new().ok().expect("Failed to create filter graph");
    assert!(graph.output("anything", 0).is_err(), "no instance is named yet");
    graph.add(Filter::wrap(0x10), "src", "", 0).ok().unwrap();
    let parser = graph.input("src", 0).ok().unwrap();
    assert_eq!(parser.inputs().len(), 1);
    assert!(parser.outputs().is_empty());
    // FFmpeg's parser accepts the description.
    parser.parse(filter_spec, 0).expect("Failed to parse filter graph spec");
    graph.validate(0).expect("FilterGraph::validate should succeed");
    assert!(matches!(graph.validate(-22), Err(FfmpegError::Code(FfmpegErrorCode(-22)))));
    let parser = graph.output("src", 1).ok().unwrap();
    assert!(matches!(parser.parse("[in] nosuchfilter", -22), Err(FfmpegError::Code(FfmpegErrorCode(-22)))));
}

#[test]
fn test_filter_context_source() {
    let mut filter_graph = FilterGraph::new().ok().expect("Failed to create filter graph");
    filter_graph
        .add(Filter::wrap(0x20), "src", "sample_rate=44100:channel_layout=stereo", 0)
        .ok()
        .expect("Failed to add 'anullsrc' filter");
    let filter_context = filter_graph.get("src").expect("Failed to retrieve 'src' filter context");
    let source_context = filter_context.source();

    assert_eq!(
        source_context.index,
        filter_graph.get("src").unwrap().index,
        "Source context should wrap the same filter as the original filter context"
    );
}

#[test]
fn test_filter_context_source_send_frame_error() {
    let mut filter_graph = FilterGraph::new().ok().expect("Failed to create filter graph");
    // The instance FFmpeg's parser names after the first filter of the description.
    filter_graph.add(Filter::wrap(0x30), "Parsed_abuffer_0", "", 0).ok().unwrap();
    filter_graph.validate(0).expect("Failed to validate filter graph");
    let source_context = filter_graph
        .get("Parsed_abuffer_0")
        .expect("Failed to retrieve 'Parsed_abuffer_0' filter context")
        .source();

    // A frame whose format does not match the source is refused.
    let result = source_context.send_frame(-22);
    assert!(result.is_err(), "send_frame should fail when sending an invalid frame");
    assert!(source_context.send_frame(0).is_ok());
}

#[test]
fn test_filter_context_source_send_and_receive_eof() {
    let mut filter_graph = FilterGraph::new().ok().expect("Failed to create filter graph");
    filter_graph.add(Filter::wrap(0x30), "Parsed_abuffer_0", "", 0).ok().unwrap();
    filter_graph.add(Filter::wrap(0x31), "Parsed_abuffersink_1", "", 0).ok().unwrap();
    filter_graph.validate(0).expect("Failed to validate filter graph");

    {
        let source_context = filter_graph
            .get("Parsed_abuffer_0")
            .expect("Failed to retrieve source filter context")
            .source();
        let eof_result_with_pts = source_context.send_eof(Some(12345), 0);
        assert!(eof_result_with_pts.is_ok(), "send_eof with PTS should succeed");

        let eof_result_without_pts = source_context.send_eof(None, 0);
        assert!(eof_result_without_pts.is_ok(), "send_eof without PTS should succeed");
        assert!(matches!(source_context.send_eof(None, -5), Err(FfmpegError::Code(FfmpegErrorCode(-5)))));
    }

    {
        let sink_context = filter_graph
            .get("Parsed_abuffersink_1")
            .expect("Failed to retrieve sink filter context")
            .sink();
        let received_frame = sink_context.receive_frame(AVERROR_EOF, GenericFrame::new().unwrap());
        assert!(received_frame.is_ok(), "receive_frame should succeed after EOF is sent");
        assert!(received_frame.ok().unwrap().is_none(), "No frame should be received after EOF");
    }
}

#[test]
fn test_filter_context_source_hardware_integration() {
    let mut filter_graph = FilterGraph::new().ok().expect("Failed to create filter graph");
    filter_graph
        .add(Filter::wrap(0x40), "hw_source", "width=1920:height=1080:pix_fmt=0:time_base=1/25", 0)
        .ok()
        .expect("Failed to add buffer filter");
    filter_graph.add(Filter::wrap(0x41), "hw_sink", "", 0).ok().expect("Failed to add nullsink filter");
    filter_graph.link("hw_source", 0, "hw_sink", 0, 0).expect("Failed to link filters");
    filter_graph.validate(0).expect("Failed to validate filter graph");

    let source_context = filter_graph.get("hw_source").expect("Failed to get source context").source();
    let hw_frames = HWFramesContext::new_cuda(BufferRef(0x50), 1920, 1080, None, 0).ok().unwrap();
    assert!(source_context.set_hw_frames_context(&hw_frames, true, BufferRef(0x51), 0).is_ok());
    assert!(matches!(
        source_context.set_hw_frames_context(&hw_frames, false, BufferRef(0x51), 0),
        Err(FfmpegError::Alloc)
    ));
    assert!(matches!(
        source_context.set_hw_frames_context(&hw_frames, true, BufferRef(0), 0),
        Err(FfmpegError::Alloc)
    ));
    assert!(matches!(
        source_context.set_hw_frames_context(&hw_frames, true, BufferRef(0x51), -12),
        Err(FfmpegError::Code(FfmpegErrorCode(-12)))
    ));
}
