use vstd::prelude::*;

verus! {

/// One call to the host: the performance timeline or the console. A layer
/// decides which calls are due; whoever drives it makes them, in order.
#[derive(Debug, PartialEq, Eq)]
pub enum SinkCall {
    /// Put a mark of this name at the present instant.
    Mark { name: String },
    /// Record under `name` the time from the mark `start_mark` to now. The
    /// host may refuse; the refusal is dropped.
    Measure { name: String, start_mark: String },
    /// Write one plain line to the console.
    Log { message: String },
    /// Write one line to the console, with one style for each `%c` in it.
    LogStyled { message: String, level_style: String, origin_style: String, fields_style: String },
}

/// A call to the host, as plain texts.
pub enum SinkCallView {
    Mark { name: Seq<char> },
    Measure { name: Seq<char>, start_mark: Seq<char> },
    Log { message: Seq<char> },
    LogStyled {
        message: Seq<char>,
        level_style: Seq<char>,
        origin_style: Seq<char>,
        fields_style: Seq<char>,
    },
}

impl View for SinkCall {
    type V = SinkCallView;

    open spec fn view(&self) -> SinkCallView {
        match *self {
            SinkCall::Mark { name } => SinkCallView::Mark { name: name@ },
            SinkCall::Measure { name, start_mark } => SinkCallView::Measure {
                name: name@,
                start_mark: start_mark@,
            },
            SinkCall::Log { message } => SinkCallView::Log { message: message@ },
            SinkCall::LogStyled {
                message,
                level_style,
                origin_style,
                fields_style,
            } => SinkCallView::LogStyled {
                message: message@,
                level_style: level_style@,
                origin_style: origin_style@,
                fields_style: fields_style@,
            },
        }
    }
}

/// The calls of `calls` as plain texts.
pub open spec fn calls_view(calls: Seq<SinkCall>) -> Seq<SinkCallView> {
    calls.map_values(|call: SinkCall| call@)
}

} // verus!
