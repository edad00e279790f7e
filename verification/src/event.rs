use vstd::prelude::*;

use crate::level::Level;
use crate::recorder::{fields_view, FieldText};

verus! {

/// The text of `text`, where there is one.
pub open spec fn text_view(text: Option<String>) -> Option<Seq<char>> {
    match text {
        Some(text) => Some(text@),
        None => None,
    }
}

/// What a layer reads of an event: where it comes from, how severe it is,
/// and its fields, each with its value already rendered.
#[derive(Debug, PartialEq, Eq)]
pub struct EventRecord {
    pub level: Level,
    pub file: Option<String>,
    pub line: Option<u32>,
    pub module: Option<String>,
    pub fields: Vec<(String, String)>,
}

/// An event as plain texts.
pub struct EventView {
    pub level: Level,
    pub file: Option<Seq<char>>,
    pub line: Option<u32>,
    pub module: Option<Seq<char>>,
    pub fields: Seq<FieldText>,
}

impl View for EventRecord {
    type V = EventView;

    open spec fn view(&self) -> EventView {
        EventView {
            level: self.level,
            file: text_view(self.file),
            line: self.line,
            module: text_view(self.module),
            fields: fields_view(self.fields@),
        }
    }
}

/// What a layer reads of a span when it is left.
#[derive(Debug, PartialEq, Eq)]
pub struct SpanMeta {
    pub name: String,
    pub module: Option<String>,
}

/// A span as plain texts.
pub struct SpanView {
    pub name: Seq<char>,
    pub module: Option<Seq<char>>,
}

impl View for SpanMeta {
    type V = SpanView;

    open spec fn view(&self) -> SpanView {
        SpanView { name: self.name@, module: text_view(self.module) }
    }
}

} // verus!
