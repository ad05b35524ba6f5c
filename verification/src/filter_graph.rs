use vstd::prelude::*;
use vstd::string::StringSliceAdditionalSpecFns;

use crate::enums::AVPixelFormat;
use crate::error::{FfmpegError, FfmpegErrorCode, AVERROR_EAGAIN, AVERROR_EOF};
use crate::frame::GenericFrame;
use crate::hardware::has_nul_byte;
use crate::raw::BufferRef;

verus! {

/// A filter (`AVFilter`), held as an opaque handle to FFmpeg's filter.
#[derive(Clone, Copy, Debug, PartialEq, Eq, Structural)]
pub struct Filter(pub usize);

impl Filter {
    /// Wraps the handle of a filter.
    pub fn wrap(ptr: usize) -> (r: Filter)
        ensures
            r.0 == ptr,
    {
        Filter(ptr)
    }

    /// Returns the handle of the filter.
    pub fn as_ptr(&self) -> (r: usize)
        ensures
            r == self.0,
    {
        self.0
    }
}

/// A filter instance of a graph (`AVFilterContext`), named by its position in the
/// graph.
#[derive(Clone, Copy, Debug, PartialEq, Eq, Structural)]
pub struct FilterContext {
    /// The position of the instance in its graph.
    pub index: usize,
}

/// A filter instance used as a source: frames are sent to it.
#[derive(Clone, Copy, Debug, PartialEq, Eq, Structural)]
pub struct FilterContextSource {
    /// The position of the instance in its graph.
    pub index: usize,
}

/// A filter instance used as a sink: frames are received from it.
#[derive(Clone, Copy, Debug, PartialEq, Eq, Structural)]
pub struct FilterContextSink {
    /// The position of the instance in its graph.
    pub index: usize,
}

impl FilterContext {
    /// Uses the instance as a source.
    pub fn source(self) -> (r: FilterContextSource)
        ensures
            r.index == self.index,
    {
        FilterContextSource { index: self.index }
    }

    /// Uses the instance as a sink.
    pub fn sink(self) -> (r: FilterContextSink)
        ensures
            r.index == self.index,
    {
        FilterContextSink { index: self.index }
    }
}

impl FilterContextSource {
    /// Turns the return code of sending a frame to the source
    /// (`av_buffersrc_write_frame`) into a result: its error for a negative code.
    pub fn send_frame(&self, ret: i32) -> (r: Result<(), FfmpegError>)
        ensures
            ret < 0 ==> r == Err::<(), FfmpegError>(FfmpegError::Code(FfmpegErrorCode(ret))),
            ret >= 0 ==> r == Ok::<(), FfmpegError>(()),
    {
        if ret < 0 {
            Err(FfmpegError::Code(FfmpegErrorCode(ret)))
        } else {
            Ok(())
        }
    }

    /// Turns the return code of closing the source into a result: its error for a
    /// negative code. The source is closed at `pts` (`av_buffersrc_close`) when it is
    /// given, by sending no frame (`av_buffersrc_write_frame`) otherwise.
    pub fn send_eof(&self, pts: Option<i64>, ret: i32) -> (r: Result<(), FfmpegError>)
        ensures
            ret < 0 ==> r == Err::<(), FfmpegError>(FfmpegError::Code(FfmpegErrorCode(ret))),
            ret >= 0 ==> r == Ok::<(), FfmpegError>(()),
    {
        if ret < 0 {
            Err(FfmpegError::Code(FfmpegErrorCode(ret)))
        } else {
            Ok(())
        }
    }

    /// Attaches a hardware frames context to the source, given what FFmpeg reported:
    /// whether a parameter set was allocated (`av_buffersrc_parameters_alloc`), the
    /// new reference to the frames context it was given (`av_buffer_ref`, null on
    /// failure), and the return code of applying it (`av_buffersrc_parameters_set`,
    /// read only once both exist). Fails with `Alloc` for a missing parameter set or
    /// reference, with the error of a negative code.
    pub fn set_hw_frames_context(
        &self,
        hw_frames_ctx: &HWFramesContext,
        params_allocated: bool,
        frames_ref: BufferRef,
        set_ret: i32,
    ) -> (r: Result<(), FfmpegError>)
        ensures
            !params_allocated ==> r == Err::<(), FfmpegError>(FfmpegError::Alloc),
            params_allocated && frames_ref.0 == 0 ==> r == Err::<(), FfmpegError>(FfmpegError::Alloc),
            params_allocated && frames_ref.0 != 0 && set_ret < 0 ==> r == Err::<(), FfmpegError>(
                FfmpegError::Code(FfmpegErrorCode(set_ret)),
            ),
            params_allocated && frames_ref.0 != 0 && set_ret >= 0 ==> r == Ok::<(), FfmpegError>(()),
    {
        if !params_allocated || frames_ref.is_null() {
            return Err(FfmpegError::Alloc);
        }
        if set_ret < 0 {
            return Err(FfmpegError::Code(FfmpegErrorCode(set_ret)));
        }
        Ok(())
    }
}

impl FilterContextSink {
    /// Turns the result of one receive call (`av_buffersink_get_frame`), its return
    /// code `ret` and the frame it filled, into what the sink yields: the frame on
    /// success, `None` when no frame is available now or any more, the error otherwise.
    pub fn receive_frame(&self, ret: i32, frame: GenericFrame) -> (r: Result<Option<GenericFrame>, FfmpegError>)
        ensures
            ret >= 0 ==> (r matches Ok(Some(f)) && f@ == frame@ && f.spec_planes() == frame.spec_planes()),
            (ret == AVERROR_EAGAIN || ret == AVERROR_EOF) ==> r matches Ok(None),
            (ret < 0 && ret != AVERROR_EAGAIN && ret != AVERROR_EOF) ==> r == Err::<
                Option<GenericFrame>,
                FfmpegError,
            >(FfmpegError::Code(FfmpegErrorCode(ret))),
    {
        if ret >= 0 {
            Ok(Some(frame))
        } else if ret == AVERROR_EAGAIN || ret == AVERROR_EOF {
            Ok(None)
        } else {
            Err(FfmpegError::Code(FfmpegErrorCode(ret)))
        }
    }
}

/// A link between two filter instances: an output pad of one to an input pad of the
/// other.
#[derive(Clone, Copy, Debug, PartialEq, Eq, Structural)]
pub struct FilterLink {
    /// The position of the source instance.
    pub src: usize,
    /// The output pad of the source instance.
    pub srcpad: u32,
    /// The position of the destination instance.
    pub dst: usize,
    /// The input pad of the destination instance.
    pub dstpad: u32,
}

/// The position of the first name equal to `name` from index `from` on.
pub open spec fn spec_find_from(names: Seq<Seq<char>>, name: Seq<char>, from: int) -> Option<int>
    decreases names.len() - from,
{
    if from < 0 || from >= names.len() {
        None
    } else if names[from] == name {
        Some(from)
    } else {
        spec_find_from(names, name, from + 1)
    }
}

/// The position of the first instance named `name`.
pub open spec fn spec_find(names: Seq<Seq<char>>, name: Seq<char>) -> Option<int> {
    spec_find_from(names, name, 0)
}

proof fn lemma_find_first(names: Seq<Seq<char>>, i: int, from: int)
    requires
        0 <= from <= i < names.len(),
        forall|j: int| 0 <= j < i ==> names[j] != names[i],
    ensures
        spec_find_from(names, names[i], from) == Some(i),
    decreases i - from,
{
    if from < i {
        lemma_find_first(names, i, from + 1);
    }
}

proof fn lemma_find_absent(names: Seq<Seq<char>>, name: Seq<char>, from: int)
    requires
        0 <= from,
        forall|j: int| from <= j < names.len() ==> names[j] != name,
    ensures
        spec_find_from(names, name, from) is None,
    decreases names.len() - from,
{
    if from < names.len() {
        lemma_find_absent(names, name, from + 1);
    }
}

proof fn lemma_find_push(names: Seq<Seq<char>>, added: Seq<char>, name: Seq<char>, from: int)
    requires
        0 <= from <= names.len(),
    ensures
        spec_find_from(names, name, from) is Some ==> spec_find_from(names.push(added), name, from)
            == spec_find_from(names, name, from),
        spec_find_from(names, name, from) is None ==> spec_find_from(names.push(added), name, from)
            == (if added == name {
            Some(names.len() as int)
        } else {
            None
        }),
    decreases names.len() - from,
{
    if from < names.len() {
        lemma_find_push(names, added, name, from + 1);
    } else {
        assert(spec_find_from(names.push(added), name, from + 1) is None);
    }
}

/// After an instance named `added` is added to a graph, looking up a name finds what
/// it found before when the name was already taken; a name that was free is found at
/// the new instance exactly when it is `added`.
pub proof fn lemma_add_then_get(names: Seq<Seq<char>>, added: Seq<char>, name: Seq<char>)
    ensures
        spec_find(names, name) is Some ==> spec_find(names.push(added), name) == spec_find(names, name),
        spec_find(names, name) is None && name == added ==> spec_find(names.push(added), name) == Some(
            names.len() as int,
        ),
        spec_find(names, name) is None && name != added ==> spec_find(names.push(added), name) is None,
{
    lemma_find_push(names, added, name, 0);
}

/// A filter graph: filter instances, each with a name, and the links between them.
pub struct FilterGraph {
    nb_threads: i32,
    names: Vec<String>,
    filters: Vec<Filter>,
    links: Vec<FilterLink>,
}

impl FilterGraph {
    /// The number of threads of the graph.
    pub closed spec fn spec_threads(&self) -> i32 {
        self.nb_threads
    }

    /// The names of the instances, in the order they were added.
    pub closed spec fn spec_names(&self) -> Seq<Seq<char>> {
        self.names@.map_values(|s: String| s@)
    }

    /// The filters of the instances, in the order they were added.
    pub closed spec fn spec_filters(&self) -> Seq<Filter> {
        self.filters@
    }

    /// The links of the graph, in the order they were made.
    pub closed spec fn spec_links(&self) -> Seq<FilterLink> {
        self.links@
    }

    /// Whether every instance has a name and a filter.
    pub open spec fn wf(&self) -> bool {
        self.spec_names().len() == self.spec_filters().len()
    }

    /// Creates an empty graph.
    pub fn new() -> (r: Result<FilterGraph, FfmpegError>)
        ensures
            r matches Ok(g) && g.wf() && g.spec_names().len() == 0 && g.spec_links().len() == 0
                && g.spec_threads() == 0,
    {
        let g = FilterGraph { nb_threads: 0, names: Vec::new(), filters: Vec::new(), links: Vec::new() };
        assert(g.spec_names() =~= Seq::<Seq<char>>::empty());
        Ok(g)
    }

    /// Returns the number of threads of the graph.
    pub fn thread_count(&self) -> (r: i32)
        ensures
            r == self.spec_threads(),
    {
        self.nb_threads
    }

    /// Sets the number of threads of the graph.
    pub fn set_thread_count(&mut self, threads: i32)
        ensures
            final(self).spec_threads() == threads,
            final(self).spec_names() == old(self).spec_names(),
            final(self).spec_filters() == old(self).spec_filters(),
            final(self).spec_links() == old(self).spec_links(),
    {
        self.nb_threads = threads;
    }

    /// Adds an instance of `filter` named `name`, where `ret` is what creating it with
    /// `args` (`avfilter_graph_create_filter`) returned.
    ///
    /// Fails when the name or the arguments hold a NUL byte, or with the error of a
    /// negative code; the graph then stays as it was. Otherwise the instance is added
    /// after the others.
    pub fn add(&mut self, filter: Filter, name: &str, args: &str, ret: i32) -> (r: Result<
        FilterContext,
        FfmpegError,
    >)
        requires
            old(self).wf(),
        ensures
            final(self).wf(),
            final(self).spec_threads() == old(self).spec_threads(),
            final(self).spec_links() == old(self).spec_links(),
            name.spec_bytes().contains(0u8) ==> (r matches Err(FfmpegError::Arguments(m)) && m@
                == "name must be non-empty"@),
            !name.spec_bytes().contains(0u8) && args.spec_bytes().contains(0u8) ==> (r matches Err(
                FfmpegError::Arguments(m),
            ) && m@ == "args must be non-empty"@),
            !name.spec_bytes().contains(0u8) && !args.spec_bytes().contains(0u8) && ret < 0 ==> r
                == Err::<FilterContext, FfmpegError>(FfmpegError::Code(FfmpegErrorCode(ret))),
            r is Err ==> final(self).spec_names() == old(self).spec_names()
                && final(self).spec_filters() == old(self).spec_filters(),
            !name.spec_bytes().contains(0u8) && !args.spec_bytes().contains(0u8) && ret >= 0 ==> (r
                == Ok::<FilterContext, FfmpegError>(
                FilterContext { index: old(self).spec_names().len() as usize },
            ) && final(self).spec_names() == old(self).spec_names().push(name@)
                && final(self).spec_filters() == old(self).spec_filters().push(filter)),
    {
        if has_nul_byte(name) {
            return Err(FfmpegError::Arguments("name must be non-empty"));
        }
        if has_nul_byte(args) {
            return Err(FfmpegError::Arguments("args must be non-empty"));
        }
        if ret < 0 {
            return Err(FfmpegError::Code(FfmpegErrorCode(ret)));
        }
        let index = self.names.len();
        let ghost before = self.spec_names();
        self.names.push(name.to_owned());
        self.filters.push(filter);
        assert(self.spec_names() =~= before.push(name@));
        Ok(FilterContext { index })
    }

    /// Returns the first instance named `name`, or `None` when there is none (or the
    /// name holds a NUL byte).
    pub fn get(&self, name: &str) -> (r: Option<FilterContext>)
        requires
            self.wf(),
        ensures
            name.spec_bytes().contains(0u8) ==> r is None,
            !name.spec_bytes().contains(0u8) ==> match spec_find(self.spec_names(), name@) {
                Some(i) => r == Some(FilterContext { index: i as usize }),
                None => r is None,
            },
    {
        if has_nul_byte(name) {
            return None;
        }
        let key = name.to_owned();
        let mut i: usize = 0;
        while i < self.names.len()
            invariant
                i <= self.names@.len(),
                key@ == name@,
                !name.spec_bytes().contains(0u8),
                forall|j: int| 0 <= j < i ==> (#[trigger] self.spec_names()[j]) != name@,
            decreases self.names@.len() - i,
        {
            if self.names[i] == key {
                proof {
                    assert(self.spec_names()[i as int] == name@);
                    lemma_find_first(self.spec_names(), i as int, 0);
                }
                return Some(FilterContext { index: i });
            }
            i = i + 1;
        }
        proof {
            lemma_find_absent(self.spec_names(), name@, 0);
        }
        None
    }

    /// Links output pad `srcpad` of the first instance named `src_name` to input pad
    /// `dstpad` of the first instance named `dst_name`, where `ret` is what linking
    /// them (`avfilter_link`) returned.
    ///
    /// Fails when a name holds a NUL byte, when no instance has a name, or with the
    /// error of a negative code; the graph then stays as it was. Otherwise the link is
    /// added.
    pub fn link(&mut self, src_name: &str, srcpad: u32, dst_name: &str, dstpad: u32, ret: i32) -> (r:
        Result<(), FfmpegError>)
        requires
            old(self).wf(),
        ensures
            final(self).wf(),
            final(self).spec_threads() == old(self).spec_threads(),
            final(self).spec_names() == old(self).spec_names(),
            final(self).spec_filters() == old(self).spec_filters(),
            src_name.spec_bytes().contains(0u8) ==> (r matches Err(FfmpegError::Arguments(m)) && m@
                == "src_name must be valid"@),
            !src_name.spec_bytes().contains(0u8) && dst_name.spec_bytes().contains(0u8) ==> (r matches Err(
                FfmpegError::Arguments(m),
            ) && m@ == "dst_name must be valid"@),
            !src_name.spec_bytes().contains(0u8) && !dst_name.spec_bytes().contains(0u8) && spec_find(
                old(self).spec_names(),
                src_name@,
            ) is None ==> (r matches Err(FfmpegError::Arguments(m)) && m@
                == "source filter not found"@),
            !src_name.spec_bytes().contains(0u8) && !dst_name.spec_bytes().contains(0u8) && spec_find(
                old(self).spec_names(),
                src_name@,
            ) is Some && spec_find(old(self).spec_names(), dst_name@) is None ==> (r matches Err(
                FfmpegError::Arguments(m),
            ) && m@ == "destination filter not found"@),
            !src_name.spec_bytes().contains(0u8) && !dst_name.spec_bytes().contains(0u8) && spec_find(
                old(self).spec_names(),
                src_name@,
            ) is Some && spec_find(old(self).spec_names(), dst_name@) is Some && ret < 0 ==> r
                == Err::<(), FfmpegError>(FfmpegError::Code(FfmpegErrorCode(ret))),
            r is Err ==> final(self).spec_links() == old(self).spec_links(),
            r is Ok <==> (!src_name.spec_bytes().contains(0u8) && !dst_name.spec_bytes().contains(0u8)
                && spec_find(old(self).spec_names(), src_name@) is Some && spec_find(
                old(self).spec_names(),
                dst_name@,
            ) is Some && ret >= 0),
            r is Ok ==> final(self).spec_links() == old(self).spec_links().push(
                FilterLink {
                    src: spec_find(old(self).spec_names(), src_name@)->0 as usize,
                    srcpad,
                    dst: spec_find(old(self).spec_names(), dst_name@)->0 as usize,
                    dstpad,
                },
            ),
    {
        if has_nul_byte(src_name) {
            return Err(FfmpegError::Arguments("src_name must be valid"));
        }
        if has_nul_byte(dst_name) {
            return Err(FfmpegError::Arguments("dst_name must be valid"));
        }
        let src = match self.get(src_name) {
            Some(c) => c,
            None => {
                return Err(FfmpegError::Arguments("source filter not found"));
            },
        };
        let dst = match self.get(dst_name) {
            Some(c) => c,
            None => {
                return Err(FfmpegError::Arguments("destination filter not found"));
            },
        };
        if ret < 0 {
            return Err(FfmpegError::Code(FfmpegErrorCode(ret)));
        }
        self.links.push(FilterLink { src: src.index, srcpad, dst: dst.index, dstpad });
        Ok(())
    }

    /// Turns the return code of configuring the graph (`avfilter_graph_config`) into
    /// a result: its error for a negative code.
    pub fn validate(&self, ret: i32) -> (r: Result<(), FfmpegError>)
        ensures
            ret < 0 ==> r == Err::<(), FfmpegError>(FfmpegError::Code(FfmpegErrorCode(ret))),
            ret >= 0 ==> r == Ok::<(), FfmpegError>(()),
    {
        if ret < 0 {
            Err(FfmpegError::Code(FfmpegErrorCode(ret)))
        } else {
            Ok(())
        }
    }

    /// Starts a parser of this graph with an input named `name` on pad `pad`.
    pub fn input(&self, name: &str, pad: i32) -> (r: Result<FilterGraphParser<'_>, FfmpegError>)
        requires
            self.wf(),
        ensures
            FilterGraphParser::spec_inout_result(r, self, Seq::empty(), Seq::empty(), name, pad, false),
    {
        FilterGraphParser::new(self).input(name, pad)
    }

    /// Starts a parser of this graph with an output named `name` on pad `pad`.
    pub fn output(&self, name: &str, pad: i32) -> (r: Result<FilterGraphParser<'_>, FfmpegError>)
        requires
            self.wf(),
        ensures
            FilterGraphParser::spec_inout_result(r, self, Seq::empty(), Seq::empty(), name, pad, true),
    {
        FilterGraphParser::new(self).output(name, pad)
    }
}

/// An open end of a graph description (`AVFilterInOut`): a name, the instance it
/// stands for, and a pad of that instance.
#[derive(Clone, Debug)]
pub struct FilterInOut {
    /// The name of the end.
    pub name: String,
    /// The position of the instance in the graph.
    pub filter_index: usize,
    /// The pad of the instance.
    pub pad_idx: i32,
}

/// The values of an open end.
pub open spec fn inout_view(e: FilterInOut) -> (Seq<char>, usize, i32) {
    (e.name@, e.filter_index, e.pad_idx)
}

/// A parser of a graph description: the inputs and outputs declared so far, the most
/// recent first, as FFmpeg chains them.
pub struct FilterGraphParser<'a> {
    graph: &'a FilterGraph,
    inputs: Vec<FilterInOut>,
    outputs: Vec<FilterInOut>,
}

impl<'a> FilterGraphParser<'a> {
    /// The graph parsed into.
    pub closed spec fn spec_graph(&self) -> &'a FilterGraph {
        self.graph
    }

    /// The inputs declared so far, the most recent first.
    pub closed spec fn spec_inputs(&self) -> Seq<(Seq<char>, usize, i32)> {
        self.inputs@.map_values(|e: FilterInOut| inout_view(e))
    }

    /// The outputs declared so far, the most recent first.
    pub closed spec fn spec_outputs(&self) -> Seq<(Seq<char>, usize, i32)> {
        self.outputs@.map_values(|e: FilterInOut| inout_view(e))
    }

    /// Whether `r` is what declaring an end named `name` on pad `pad` (an output when
    /// `output`, else an input) gives, on a parser of `graph` with `inputs` and
    /// `outputs` declared: "unknown name" when no instance has the name, otherwise the
    /// parser with the new end put first in its list.
    pub open spec fn spec_inout_result(
        r: Result<FilterGraphParser<'a>, FfmpegError>,
        graph: &'a FilterGraph,
        inputs: Seq<(Seq<char>, usize, i32)>,
        outputs: Seq<(Seq<char>, usize, i32)>,
        name: &str,
        pad: i32,
        output: bool,
    ) -> bool {
        let found = if name.spec_bytes().contains(0u8) {
            None
        } else {
            spec_find(graph.spec_names(), name@)
        };
        match found {
            None => r matches Err(FfmpegError::Arguments(m)) && m@ == "unknown name"@,
            Some(i) => {
                let e = (name@, i as usize, pad);
                &&& r matches Ok(p)
                &&& p.spec_graph() == graph
                &&& p.spec_inputs() == (if output {
                    inputs
                } else {
                    seq![e] + inputs
                })
                &&& p.spec_outputs() == (if output {
                    seq![e] + outputs
                } else {
                    outputs
                })
            },
        }
    }

    /// Creates a parser of `graph` with no inputs or outputs declared.
    fn new(graph: &'a FilterGraph) -> (r: FilterGraphParser<'a>)
        ensures
            r.spec_graph() == graph,
            r.spec_inputs() == Seq::<(Seq<char>, usize, i32)>::empty(),
            r.spec_outputs() == Seq::<(Seq<char>, usize, i32)>::empty(),
    {
        let p = FilterGraphParser { graph, inputs: Vec::new(), outputs: Vec::new() };
        assert(p.spec_inputs() =~= Seq::<(Seq<char>, usize, i32)>::empty());
        assert(p.spec_outputs() =~= Seq::<(Seq<char>, usize, i32)>::empty());
        p
    }

    /// Declares an input named `name` on pad `pad`.
    pub fn input(self, name: &str, pad: i32) -> (r: Result<FilterGraphParser<'a>, FfmpegError>)
        requires
            self.spec_graph().wf(),
        ensures
            FilterGraphParser::spec_inout_result(
                r,
                self.spec_graph(),
                self.spec_inputs(),
                self.spec_outputs(),
                name,
                pad,
                false,
            ),
    {
        self.inout_impl(name, pad, false)
    }

    /// Declares an output named `name` on pad `pad`.
    pub fn output(self, name: &str, pad: i32) -> (r: Result<FilterGraphParser<'a>, FfmpegError>)
        requires
            self.spec_graph().wf(),
        ensures
            FilterGraphParser::spec_inout_result(
                r,
                self.spec_graph(),
                self.spec_inputs(),
                self.spec_outputs(),
                name,
                pad,
                true,
            ),
    {
        self.inout_impl(name, pad, true)
    }

    /// Returns the inputs declared so far, the most recent first.
    pub fn inputs(&self) -> (r: &Vec<FilterInOut>)
        ensures
            r@.map_values(|e: FilterInOut| inout_view(e)) == self.spec_inputs(),
    {
        &self.inputs
    }

    /// Returns the outputs declared so far, the most recent first.
    pub fn outputs(&self) -> (r: &Vec<FilterInOut>)
        ensures
            r@.map_values(|e: FilterInOut| inout_view(e)) == self.spec_outputs(),
    {
        &self.outputs
    }

    /// Finishes parsing the graph description `spec` into the graph, with the
    /// declared inputs and outputs, where `ret` is what FFmpeg's parser
    /// (`avfilter_graph_parse_ptr`) returned: its error for a negative code.
    pub fn parse(self, spec: &str, ret: i32) -> (r: Result<(), FfmpegError>)
        requires
            !spec.spec_bytes().contains(0u8),
        ensures
            ret < 0 ==> r == Err::<(), FfmpegError>(FfmpegError::Code(FfmpegErrorCode(ret))),
            ret >= 0 ==> r == Ok::<(), FfmpegError>(()),
    {
        if ret < 0 {
            Err(FfmpegError::Code(FfmpegErrorCode(ret)))
        } else {
            Ok(())
        }
    }

    fn inout_impl(self, name: &str, pad: i32, output: bool) -> (r: Result<FilterGraphParser<'a>, FfmpegError>)
        requires
            self.spec_graph().wf(),
        ensures
            FilterGraphParser::spec_inout_result(
                r,
                self.spec_graph(),
                self.spec_inputs(),
                self.spec_outputs(),
                name,
                pad,
                output,
            ),
    {
        let context = match self.graph.get(name) {
            Some(c) => c,
            None => {
                return Err(FfmpegError::Arguments("unknown name"));
            },
        };
        let entry = FilterInOut { name: name.to_owned(), filter_index: context.index, pad_idx: pad };
        let ghost e = inout_view(entry);
        let mut p = self;
        if output {
            let ghost before = p.spec_outputs();
            p.outputs.insert(0, entry);
            assert(p.spec_outputs() =~= seq![e] + before);
        } else {
            let ghost before = p.spec_inputs();
            p.inputs.insert(0, entry);
            assert(p.spec_inputs() =~= seq![e] + before);
        }
        Ok(p)
    }
}

/// A hardware frames context (`AVHWFramesContext`) for hardware filtering: its buffer
/// and the pool it was set up with.
pub struct HWFramesContext {
    ptr: BufferRef,
    format: AVPixelFormat,
    sw_format: AVPixelFormat,
    width: i32,
    height: i32,
    initial_pool_size: i32,
}

impl HWFramesContext {
    /// The buffer of the context.
    pub closed spec fn spec_ptr(&self) -> BufferRef {
        self.ptr
    }

    /// The hardware pixel format, software pixel format, width, height and initial
    /// pool size the context was set up with.
    pub closed spec fn spec_config(&self) -> (AVPixelFormat, AVPixelFormat, i32, i32, i32) {
        (self.format, self.sw_format, self.width, self.height, self.initial_pool_size)
    }

    /// Builds the context from what FFmpeg reported: `allocated` is the frames context
    /// allocated on the device (`av_hwframe_ctx_alloc`, null on failure), `init_ret`
    /// the return code of initializing it with the given formats, size and pool size.
    ///
    /// Fails with `Alloc` for a null allocation and with the error of a negative code.
    pub fn new(
        allocated: BufferRef,
        format: AVPixelFormat,
        sw_format: AVPixelFormat,
        width: i32,
        height: i32,
        initial_pool_size: i32,
        init_ret: i32,
    ) -> (r: Result<HWFramesContext, FfmpegError>)
        ensures
            allocated.0 == 0 ==> r == Err::<HWFramesContext, FfmpegError>(FfmpegError::Alloc),
            allocated.0 != 0 && init_ret < 0 ==> r == Err::<HWFramesContext, FfmpegError>(
                FfmpegError::Code(FfmpegErrorCode(init_ret)),
            ),
            allocated.0 != 0 && init_ret >= 0 ==> (r matches Ok(c) && c.spec_ptr() == allocated
                && c.spec_config() == (format, sw_format, width, height, initial_pool_size)),
    {
        if allocated.is_null() {
            return Err(FfmpegError::Alloc);
        }
        if init_ret < 0 {
            return Err(FfmpegError::Code(FfmpegErrorCode(init_ret)));
        }
        Ok(HWFramesContext { ptr: allocated, format, sw_format, width, height, initial_pool_size })
    }

    /// Builds a CUDA frames context with NV12 as the software format and a pool of
    /// `initial_pool_size` frames (4 when not given); see [`HWFramesContext::new`].
    pub fn new_cuda(
        allocated: BufferRef,
        width: i32,
        height: i32,
        initial_pool_size: Option<i32>,
        init_ret: i32,
    ) -> (r: Result<HWFramesContext, FfmpegError>)
        ensures
            allocated.0 == 0 ==> r == Err::<HWFramesContext, FfmpegError>(FfmpegError::Alloc),
            allocated.0 != 0 && init_ret < 0 ==> r == Err::<HWFramesContext, FfmpegError>(
                FfmpegError::Code(FfmpegErrorCode(init_ret)),
            ),
            allocated.0 != 0 && init_ret >= 0 ==> (r matches Ok(c) && c.spec_ptr() == allocated
                && c.spec_config() == (
                AVPixelFormat::Cuda,
                AVPixelFormat::Nv12,
                width,
                height,
                match initial_pool_size {
                    Some(n) => n,
                    None => 4i32,
                },
            )),
    {
        let pool = match initial_pool_size {
            Some(n) => n,
            None => 4,
        };
        Self::new(allocated, AVPixelFormat::Cuda, AVPixelFormat::Nv12, width, height, pool, init_ret)
    }

    /// Returns the buffer of the context.
    pub fn as_ptr(&self) -> (r: BufferRef)
        ensures
            r == self.spec_ptr(),
    {
        self.ptr
    }
}

} // verus!
