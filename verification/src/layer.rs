use vstd::prelude::*;
use vstd::string::*;

use crate::config::WASMLayerConfig;
use crate::counter::EventCounter;
use crate::event::{text_view, EventRecord, EventView, SpanMeta, SpanView};
use crate::level::Level;
use crate::recorder::{fields_view, trailer_text, RecorderView, StringRecorder};
use crate::sink::{calls_view, SinkCall, SinkCallView};
use crate::text::{decimal_text, hex_text, lemma_hex_text_injective, to_decimal, to_hex};
use crate::thread::{
    current_thread_label,
    mark_name,
    span_mark_name,
    thread_display_suffix,
    ThreadLabel,
};

verus! {

/// Where an event comes from: `<file>:<line>`, or nothing where the file
/// or the line is not known.
pub open spec fn origin_text(file: Option<Seq<char>>, line: Option<u32>) -> Seq<char> {
    match (file, line) {
        (Some(file), Some(line)) => file + ":"@ + decimal_text(line as nat),
        _ => Seq::empty(),
    }
}

/// The module an event or a span comes from, or `...` where it is not known.
pub open spec fn module_text(module: Option<Seq<char>>) -> Seq<char> {
    match module {
        Some(module) => module,
        None => "..."@,
    }
}

/// The fields of the span an event stands in, as the trailer of its line.
pub open spec fn span_trailer(span: Option<RecorderView>) -> Seq<char> {
    match span {
        Some(span) => trailer_text(span.fields),
        None => Seq::empty(),
    }
}

/// The plain console line of an event:
/// `<LEVEL> <origin><thread> <text><trailer>`.
pub open spec fn plain_line(
    level: Level,
    origin: Seq<char>,
    thread: ThreadLabel,
    text: Seq<char>,
    trailer: Seq<char>,
) -> Seq<char> {
    level.name() + " "@ + origin + thread.suffix() + " "@ + text + trailer
}

/// The styled console line of an event, with a `%c` where each of its
/// three styles sets in: `%c<LEVEL>%c <origin><thread>%c<text><trailer>`.
pub open spec fn styled_line(
    level: Level,
    origin: Seq<char>,
    thread: ThreadLabel,
    text: Seq<char>,
    trailer: Seq<char>,
) -> Seq<char> {
    "%c"@ + level.name() + "%c "@ + origin + thread.suffix() + "%c"@ + text + trailer
}

/// The name of the mark of the event that took the number `id`.
pub open spec fn event_mark_name(id: usize) -> Seq<char> {
    "c"@ + hex_text(id as nat)
}

/// The name of the measurement of an event:
/// `<LEVEL> <module><thread> <text>`.
pub open spec fn event_measure_name(
    level: Level,
    module: Option<Seq<char>>,
    thread: ThreadLabel,
    text: Seq<char>,
) -> Seq<char> {
    level.name() + " "@ + module_text(module) + thread.suffix() + " "@ + text
}

/// The name of the measurement of a span that is left:
/// `"<name>"<thread> <module>`, and after it a space and the text of the
/// span's recorder where the span has one.
pub open spec fn span_measure_name(
    span: SpanView,
    thread: ThreadLabel,
    recorder: Option<RecorderView>,
) -> Seq<char> {
    "\""@ + span.name + "\""@ + thread.suffix() + " "@ + module_text(span.module) + match recorder {
        Some(recorder) => " "@ + recorder.text(),
        None => Seq::empty(),
    }
}

/// The text of an event's own fields under `config`.
pub open spec fn event_text(config: WASMLayerConfig, event: EventView) -> Seq<char> {
    RecorderView::empty(config.show_fields).record_all(event.fields).text()
}

/// What an event writes to the console: nothing where the console is not
/// reported to, else one line, styled or plain.
pub open spec fn console_calls(
    config: WASMLayerConfig,
    thread: ThreadLabel,
    event: EventView,
    span: Option<RecorderView>,
) -> Seq<SinkCallView> {
    let origin = origin_text(event.file, event.line);
    let text = event_text(config, event);
    let trailer = span_trailer(span);
    if !config.report_logs_in_console {
        Seq::empty()
    } else if config.use_console_color {
        seq![
            SinkCallView::LogStyled {
                message: styled_line(event.level, origin, thread, text, trailer),
                level_style: event.level.style(),
                origin_style: "color: gray; font-style: italic"@,
                fields_style: "color: inherit"@,
            },
        ]
    } else {
        seq![SinkCallView::Log { message: plain_line(event.level, origin, thread, text, trailer) }]
    }
}

/// What an event adds to the timeline: nothing where timings are not
/// reported, else a mark named by the event's number and, from that mark,
/// a measurement.
pub open spec fn timing_calls(
    config: WASMLayerConfig,
    id: usize,
    thread: ThreadLabel,
    event: EventView,
) -> Seq<SinkCallView> {
    if !config.report_logs_in_timings {
        Seq::empty()
    } else {
        seq![
            SinkCallView::Mark { name: event_mark_name(id) },
            SinkCallView::Measure {
                name: event_measure_name(
                    event.level,
                    event.module,
                    thread,
                    event_text(config, event),
                ),
                start_mark: event_mark_name(id),
            },
        ]
    }
}

/// The calls that are due for an event: first the console, then the
/// timeline; none where events are reported nowhere.
pub open spec fn event_calls_for(
    config: WASMLayerConfig,
    id: usize,
    thread: ThreadLabel,
    event: EventView,
    span: Option<RecorderView>,
) -> Seq<SinkCallView> {
    console_calls(config, thread, event, span) + timing_calls(config, id, thread, event)
}

/// The call that is due when the span `id` is entered.
pub open spec fn enter_call_for(id: u64, thread: ThreadLabel) -> SinkCallView {
    SinkCallView::Mark { name: span_mark_name(id, thread) }
}

/// The call that is due when the span `id` is left.
pub open spec fn exit_call_for(
    id: u64,
    thread: ThreadLabel,
    span: SpanView,
    recorder: Option<RecorderView>,
) -> SinkCallView {
    SinkCallView::Measure {
        name: span_measure_name(span, thread, recorder),
        start_mark: span_mark_name(id, thread),
    }
}

/// What a recorder holds, where there is one.
pub open spec fn recorder_view(recorder: Option<&StringRecorder>) -> Option<RecorderView> {
    match recorder {
        Some(recorder) => Some(recorder@),
        None => None,
    }
}

/// Events that took different numbers have marks of different names.
pub proof fn lemma_event_marks_distinct(a: usize, b: usize)
    requires
        a != b,
    ensures
        event_mark_name(a) != event_mark_name(b),
{
    reveal_strlit("c");
    if event_mark_name(a) == event_mark_name(b) {
        assert(hex_text(a as nat) =~= event_mark_name(a).subrange(
            1,
            event_mark_name(a).len() as int,
        ));
        assert(hex_text(b as nat) =~= event_mark_name(b).subrange(
            1,
            event_mark_name(b).len() as int,
        ));
        lemma_hex_text_injective(a as nat, b as nat);
    }
}

/// Different spans have marks of different names, on whatever thread
/// where threads are hidden.
pub proof fn lemma_span_marks_distinct(a: u64, b: u64)
    requires
        a != b,
    ensures
        span_mark_name(a, ThreadLabel::Hidden) != span_mark_name(b, ThreadLabel::Hidden),
{
    reveal_strlit("t");
    let name_a = span_mark_name(a, ThreadLabel::Hidden);
    let name_b = span_mark_name(b, ThreadLabel::Hidden);
    if name_a == name_b {
        assert(hex_text(a as nat) =~= name_a.subrange(1, name_a.len() as int));
        assert(hex_text(b as nat) =~= name_b.subrange(1, name_b.len() as int));
        lemma_hex_text_injective(a as nat, b as nat);
    }
}

/// The mark of an event never has the name of the mark of a span.
pub proof fn lemma_event_mark_is_no_span_mark(event: usize, span: u64, thread: ThreadLabel)
    ensures
        event_mark_name(event) != span_mark_name(span, thread),
{
    reveal_strlit("c");
    reveal_strlit("t");
    assert(event_mark_name(event)[0] == 'c');
    assert(span_mark_name(span, thread)[0] == 't');
}

/// Where timings are reported, an event is measured from the mark that
/// it has just put down, whatever else it writes.
pub proof fn lemma_event_measures_from_its_mark(
    config: WASMLayerConfig,
    id: usize,
    thread: ThreadLabel,
    event: EventView,
)
    requires
        config.report_logs_in_timings,
    ensures
        timing_calls(config, id, thread, event).len() == 2,
        timing_calls(config, id, thread, event)[0] == (SinkCallView::Mark {
            name: event_mark_name(id),
        }),
        timing_calls(config, id, thread, event)[1] is Measure,
        timing_calls(config, id, thread, event)[1]->start_mark == event_mark_name(id),
{
}

/// A span that is left is measured from the mark that entering it on the
/// same thread put down.
pub proof fn lemma_exit_measures_from_enter_mark(
    id: u64,
    thread: ThreadLabel,
    span: SpanView,
    recorder: Option<RecorderView>,
)
    ensures
        enter_call_for(id, thread) == (SinkCallView::Mark {
            name: exit_call_for(id, thread, span, recorder)->start_mark,
        }),
{
}

/// Where an event comes from, as text.
pub fn origin(file: &Option<String>, line: Option<u32>) -> (text: String)
    ensures
        text@ == origin_text(text_view(*file), line),
{
    match file {
        Some(file) => match line {
            Some(line) => {
                let mut text = file.clone();
                text.append(":");
                text.append(to_decimal(line as u64).as_str());
                text
            },
            None => String::new(),
        },
        None => String::new(),
    }
}

/// The module an event or a span comes from, as text.
pub fn module_or_dots(module: &Option<String>) -> (text: &str)
    ensures
        text@ == module_text(text_view(*module)),
{
    match module {
        Some(module) => module.as_str(),
        None => "...",
    }
}

/// The calls that are due for an event that took the number `id` on the
/// thread `thread`, within the span that `span` is the recorder of.
pub fn event_calls(
    config: &WASMLayerConfig,
    id: usize,
    thread: ThreadLabel,
    event: &EventRecord,
    span: Option<&StringRecorder>,
) -> (calls: Vec<SinkCall>)
    ensures
        calls_view(calls@) == event_calls_for(*config, id, thread, event@, recorder_view(span)),
{
    let mut calls: Vec<SinkCall> = Vec::new();
    if config.takes_events() {
        let mut recorder = StringRecorder::new(config.show_fields);
        recorder.record_all(&event.fields);
        let text = recorder.to_text();
        let suffix = thread_display_suffix(thread);
        let level = event.level;
        if config.report_logs_in_console {
            let origin = origin(&event.file, event.line);
            let fields = match span {
                Some(span) => span.trailer(),
                None => String::new(),
            };
            if config.use_console_color {
                let mut message = String::from_str("%c");
                message.append(level.as_str());
                message.append("%c ");
                message.append(origin.as_str());
                message.append(suffix.as_str());
                message.append("%c");
                message.append(text.as_str());
                message.append(fields.as_str());
                calls.push(
                    SinkCall::LogStyled {
                        message,
                        level_style: String::from_str(level.console_style()),
                        origin_style: String::from_str("color: gray; font-style: italic"),
                        fields_style: String::from_str("color: inherit"),
                    },
                );
            } else {
                let mut message = String::from_str(level.as_str());
                message.append(" ");
                message.append(origin.as_str());
                message.append(suffix.as_str());
                message.append(" ");
                message.append(text.as_str());
                message.append(fields.as_str());
                calls.push(SinkCall::Log { message });
            }
        }
        assert(calls_view(calls@) =~= console_calls(*config, thread, event@, recorder_view(span)));
        if config.report_logs_in_timings {
            let mut mark = String::from_str("c");
            mark.append(to_hex(id as u64).as_str());
            let mut name = String::from_str(level.as_str());
            name.append(" ");
            name.append(module_or_dots(&event.module));
            name.append(suffix.as_str());
            name.append(" ");
            name.append(text.as_str());
            // mark and measure so you can see a little blip in the profile
            calls.push(SinkCall::Mark { name: mark.clone() });
            calls.push(SinkCall::Measure { name, start_mark: mark });
        }
    }
    assert(calls_view(calls@) =~= event_calls_for(
        *config,
        id,
        thread,
        event@,
        recorder_view(span),
    ));
    calls
}

/// The call that is due when the span `id` is entered on the thread `thread`.
pub fn enter_call(id: u64, thread: ThreadLabel) -> (call: SinkCall)
    ensures
        call@ == enter_call_for(id, thread),
{
    SinkCall::Mark { name: mark_name(id, thread) }
}

/// The call that is due when the span `id` is left on the thread `thread`.
pub fn exit_call(
    id: u64,
    thread: ThreadLabel,
    span: &SpanMeta,
    recorder: Option<&StringRecorder>,
) -> (call: SinkCall)
    ensures
        call@ == exit_call_for(id, thread, span@, recorder_view(recorder)),
{
    let mut name = String::from_str("\"");
    name.append(span.name.as_str());
    name.append("\"");
    name.append(thread_display_suffix(thread).as_str());
    name.append(" ");
    name.append(module_or_dots(&span.module));
    match recorder {
        Some(recorder) => {
            let mut text = String::from_str(" ");
            text.append(recorder.to_text().as_str());
            name.append(text.as_str());
        },
        None => {
            assert(name@ =~= span_measure_name(span@, thread, recorder_view(recorder)));
        },
    }
    SinkCall::Measure { name, start_mark: mark_name(id, thread) }
}

/// What a layer goes by.
pub struct LayerView {
    pub config: WASMLayerConfig,
    pub labels_threads: bool,
}

impl LayerView {
    /// Whether `thread` is a label that the layer may give to a thread:
    /// the hidden one where it does not tell threads apart, any other
    /// where it does.
    pub open spec fn may_label(self, thread: ThreadLabel) -> bool {
        (thread == ThreadLabel::Hidden) == !self.labels_threads
    }
}

/// Turns the notifications of spans and events into calls to the console
/// and to the performance timeline.
pub struct WASMLayer {
    last_event_id: EventCounter,
    config: WASMLayerConfig,
    labels_threads: bool,
}

impl View for WASMLayer {
    type V = LayerView;

    closed spec fn view(&self) -> LayerView {
        LayerView { config: self.config, labels_threads: self.labels_threads }
    }
}

impl Default for WASMLayer {
    fn default() -> (layer: WASMLayer)
        ensures
            layer@.config == WASMLayerConfig::defaults(),
            !layer@.labels_threads,
    {
        WASMLayer::new(WASMLayerConfig::default())
    }
}

impl WASMLayer {
    /// A layer that goes by `config` and does not tell threads apart.
    pub fn new(config: WASMLayerConfig) -> (layer: WASMLayer)
        ensures
            layer@.config == config,
            !layer@.labels_threads,
    {
        WASMLayer { last_event_id: EventCounter::new(), config, labels_threads: false }
    }

    /// A layer that goes by `config` and tells in each line, and in the
    /// name of each measurement and span mark, the thread it was made on.
    pub fn with_thread_labels(config: WASMLayerConfig) -> (layer: WASMLayer)
        ensures
            layer@.config == config,
            layer@.labels_threads,
    {
        WASMLayer { last_event_id: EventCounter::new(), config, labels_threads: true }
    }

    /// The configuration that the layer goes by.
    pub fn config(&self) -> (config: &WASMLayerConfig)
        ensures
            *config == self@.config,
    {
        &self.config
    }

    /// The label of the calling thread, as this layer tells it.
    pub fn thread_label(&self) -> (thread: ThreadLabel)
        ensures
            self@.may_label(thread),
    {
        if self.labels_threads {
            current_thread_label()
        } else {
            ThreadLabel::Hidden
        }
    }

    /// Whether spans and events of `level` are taken: those that are at
    /// least as severe as the level of the configuration.
    pub fn enabled(&self, level: Level) -> (taken: bool)
        ensures
            taken == level.passes(self@.config.max_level),
    {
        level.is_at_least(self.config.max_level)
    }

    /// A new span: the recorder that belongs to it, with the fields that
    /// the span was made with recorded in order.
    pub fn on_new_span(&self, attrs: &Vec<(String, String)>) -> (recorder: StringRecorder)
        ensures
            recorder@ == RecorderView::empty(self@.config.show_fields).record_all(
                fields_view(attrs@),
            ),
            recorder@.wf(),
    {
        let mut new_debug_record = StringRecorder::new(self.config.show_fields);
        new_debug_record.record_all(attrs);
        new_debug_record
    }

    /// A span recorded `values`: they go into its recorder, in order. A
    /// span without a recorder is left as it is.
    pub fn on_record(&self, recorder: Option<&mut StringRecorder>, values: &Vec<(String, String)>)
        ensures
            match recorder {
                Some(recorder) => {
                    &&& final(recorder)@ == recorder@.record_all(fields_view(values@))
                    &&& recorder@.wf() ==> final(recorder)@.wf()
                },
                None => true,
            },
    {
        match recorder {
            Some(debug_record) => {
                debug_record.record_all(values);
            },
            None => {},
        }
    }

    /// An event occurred, within the span that `span` is the recorder of.
    /// The calls are those of `event_calls` for the label of the calling
    /// thread and, where timings are reported, for a number taken from the
    /// layer's counter.
    pub fn on_event(&self, event: &EventRecord, span: Option<&StringRecorder>) -> (calls: Vec<
        SinkCall,
    >)
        ensures
            exists|id: usize, thread: ThreadLabel|
                self@.may_label(thread) && calls_view(calls@) == #[trigger] event_calls_for(
                    self@.config,
                    id,
                    thread,
                    event@,
                    recorder_view(span),
                ),
    {
        let id = if self.config.report_logs_in_timings {
            self.last_event_id.take()
        } else {
            0
        };
        let thread = self.thread_label();
        let calls = event_calls(&self.config, id, thread, event, span);
        assert(calls_view(calls@) == event_calls_for(
            self@.config,
            id,
            thread,
            event@,
            recorder_view(span),
        ));
        calls
    }

    /// The span `id` was entered: a mark is due, named by the span alone,
    /// so that a later entry puts its mark in the place of an earlier one.
    pub fn on_enter(&self, id: u64) -> (call: SinkCall)
        ensures
            exists|thread: ThreadLabel|
                self@.may_label(thread) && call@ == #[trigger] enter_call_for(id, thread),
    {
        let thread = self.thread_label();
        let call = enter_call(id, thread);
        assert(call@ == enter_call_for(id, thread));
        call
    }

    /// The span `id` was left: for a span that is known, a measurement
    /// from its mark is due; for one that is not, nothing.
    pub fn on_exit(
        &self,
        id: u64,
        span: Option<&SpanMeta>,
        recorder: Option<&StringRecorder>,
    ) -> (call: Option<SinkCall>)
        ensures
            span is None ==> call is None,
            span is Some ==> call is Some && exists|thread: ThreadLabel|
                self@.may_label(thread) && (call->0)@ == #[trigger] exit_call_for(
                    id,
                    thread,
                    (span->0)@,
                    recorder_view(recorder),
                ),
    {
        match span {
            Some(span) => {
                let thread = self.thread_label();
                let call = exit_call(id, thread, span, recorder);
                assert(call@ == exit_call_for(id, thread, span@, recorder_view(recorder)));
                Some(call)
            },
            None => None,
        }
    }
}

} // verus!
