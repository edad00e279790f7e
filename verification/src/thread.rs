use vstd::prelude::*;
use vstd::string::*;

use crate::text::{decimal_text, hex_text, to_decimal, to_hex};

verus! {

/// The thread a notification arrives on, as far as names are to tell it.
#[derive(Clone, Copy, Debug, PartialEq, Eq, Structural)]
pub enum ThreadLabel {
    /// Names do not tell threads apart.
    Hidden,
    /// A thread outside any pool of workers.
    Main,
    /// The worker of this index in its pool.
    Worker(usize),
}

impl ThreadLabel {
    /// What a label adds to a line or to the name of a measurement: nothing
    /// where threads are hidden, else ` #main` or ` #` and the worker's index.
    pub open spec fn suffix(self) -> Seq<char> {
        match self {
            ThreadLabel::Hidden => Seq::empty(),
            ThreadLabel::Main => " #main"@,
            ThreadLabel::Worker(index) => " #"@ + decimal_text(index as nat),
        }
    }

    /// What a label adds to the name of a span's mark: nothing where
    /// threads are hidden, else `-` and the worker's index, with 999 for a
    /// thread outside any pool.
    pub open spec fn mark_suffix(self) -> Seq<char> {
        match self {
            ThreadLabel::Hidden => Seq::empty(),
            ThreadLabel::Main => "-"@ + decimal_text(999),
            ThreadLabel::Worker(index) => "-"@ + decimal_text(index as nat),
        }
    }

    /// The label of a thread from its index in a pool of workers.
    pub open spec fn of_index(index: Option<usize>) -> ThreadLabel {
        match index {
            Some(index) => ThreadLabel::Worker(index),
            None => ThreadLabel::Main,
        }
    }

    pub fn from_index(index: Option<usize>) -> (label: ThreadLabel)
        ensures
            label == ThreadLabel::of_index(index),
    {
        match index {
            Some(index) => ThreadLabel::Worker(index),
            None => ThreadLabel::Main,
        }
    }
}

/// The name of the mark that stands for the entry into the span `id`.
pub open spec fn span_mark_name(id: u64, thread: ThreadLabel) -> Seq<char> {
    "t"@ + hex_text(id as nat) + thread.mark_suffix()
}

/// `rayon::current_thread_index`: the index of the calling thread within
/// its pool of workers, `None` on a thread that belongs to no pool. The
/// answer depends on the thread that asks, so nothing is claimed of it.
#[verifier::external_body]
pub(crate) fn current_thread_index() -> Option<usize> {
    rayon::current_thread_index()
}

/// The label of the calling thread.
pub fn current_thread_label() -> (label: ThreadLabel)
    ensures
        label != ThreadLabel::Hidden,
{
    ThreadLabel::from_index(current_thread_index())
}

/// The text that tells the thread in a line or in the name of a measurement.
pub fn thread_display_suffix(thread: ThreadLabel) -> (message: String)
    ensures
        message@ == thread.suffix(),
{
    match thread {
        ThreadLabel::Hidden => String::new(),
        ThreadLabel::Main => String::from_str(" #main"),
        ThreadLabel::Worker(index) => {
            let mut message = String::from_str(" #");
            message.append(to_decimal(index as u64).as_str());
            message
        },
    }
}

/// The name of the mark that stands for the entry into the span `id`.
pub fn mark_name(id: u64, thread: ThreadLabel) -> (name: String)
    ensures
        name@ == span_mark_name(id, thread),
{
    let mut name = String::from_str("t");
    name.append(to_hex(id).as_str());
    match thread {
        ThreadLabel::Hidden => {
            assert(name@ =~= span_mark_name(id, thread));
        },
        ThreadLabel::Main => {
            name.append("-");
            name.append(to_decimal(999).as_str());
            assert(name@ =~= span_mark_name(id, thread));
        },
        ThreadLabel::Worker(index) => {
            name.append("-");
            name.append(to_decimal(index as u64).as_str());
            assert(name@ =~= span_mark_name(id, thread));
        },
    }
    name
}

} // verus!
