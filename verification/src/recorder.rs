use vstd::prelude::*;
use vstd::string::*;

use crate::text::same_text;

verus! {

/// A field as it is handed to a recorder: its name and its value, already
/// rendered as text.
pub type FieldText = (Seq<char>, Seq<char>);

/// The fields of `fields` as name and value texts.
pub open spec fn fields_view(fields: Seq<(String, String)>) -> Seq<FieldText> {
    fields.map_values(|f: (String, String)| (f.0@, f.1@))
}

/// Whether some entry of `fields` has the name `name`.
pub open spec fn has_name(fields: Seq<FieldText>, name: Seq<char>) -> bool {
    exists|i: int| 0 <= i < fields.len() && (#[trigger] fields[i]).0 == name
}

/// Whether `i` is the place of the first entry of `fields` named `name`.
pub open spec fn is_first_named(fields: Seq<FieldText>, name: Seq<char>, i: int) -> bool {
    &&& 0 <= i < fields.len()
    &&& fields[i].0 == name
    &&& forall|j: int| 0 <= j < i ==> (#[trigger] fields[j]).0 != name
}

/// The place of the first entry of `fields` named `name`, where there is one.
pub open spec fn first_named(fields: Seq<FieldText>, name: Seq<char>) -> int {
    choose|i: int| is_first_named(fields, name, i)
}

/// `fields` with `name` set to `value`: the entry of that name keeps its
/// place and takes the new value; a new name goes to the end.
pub open spec fn upsert(fields: Seq<FieldText>, name: Seq<char>, value: Seq<char>) -> Seq<
    FieldText,
> {
    if has_name(fields, name) {
        fields.update(first_named(fields, name), (name, value))
    } else {
        fields.push((name, value))
    }
}

/// No two entries of `fields` share a name.
pub open spec fn names_unique(fields: Seq<FieldText>) -> bool {
    forall|i: int, j: int|
        0 <= i < j < fields.len() ==> (#[trigger] fields[i]).0 != (#[trigger] fields[j]).0
}

/// The entry of a field in the display text: `<name> = <value>;`.
pub open spec fn field_entry(name: Seq<char>, value: Seq<char>) -> Seq<char> {
    name + " = "@ + value + ";"@
}

/// The entry of a field in the trailer of a console line: a newline, a tab,
/// then `<name>: <value>`.
pub open spec fn trailer_entry(name: Seq<char>, value: Seq<char>) -> Seq<char> {
    "\n\t"@ + name + ": "@ + value
}

/// The trailer entries of `fields`, one after the other, in their order.
pub open spec fn trailer_text(fields: Seq<FieldText>) -> Seq<char>
    decreases fields.len(),
{
    if fields.len() == 0 {
        Seq::empty()
    } else {
        trailer_text(fields.drop_last()) + trailer_entry(fields.last().0, fields.last().1)
    }
}

/// What a recorder holds, as plain texts.
#[verifier::ext_equal]
pub struct RecorderView {
    pub display: Seq<char>,
    pub is_following_args: bool,
    pub show_fields: bool,
    pub fields: Seq<FieldText>,
}

impl RecorderView {
    /// A recorder that nothing was recorded into.
    pub open spec fn empty(show_fields: bool) -> RecorderView {
        RecorderView {
            display: Seq::empty(),
            is_following_args: false,
            show_fields,
            fields: Seq::empty(),
        }
    }

    /// The recorder after one field was recorded. A field named `message`
    /// goes in front of the display text, on a line of its own where the
    /// text was not empty, and never among the fields. Any other field
    /// counts only where fields are shown: its entry goes to the end of the
    /// display text, after a space for the first and after a newline for
    /// each later one, and its value is kept under its name.
    pub open spec fn record(self, name: Seq<char>, value: Seq<char>) -> RecorderView {
        if name == "message"@ {
            RecorderView {
                display: if self.display.len() > 0 {
                    value + "\n"@ + self.display
                } else {
                    value
                },
                ..self
            }
        } else if self.show_fields {
            RecorderView {
                display: self.display + (if self.is_following_args {
                    "\n"@
                } else {
                    " "@
                }) + field_entry(name, value),
                is_following_args: true,
                fields: upsert(self.fields, name, value),
                ..self
            }
        } else {
            self
        }
    }

    /// The recorder after each field of `fields` was recorded, in order.
    pub open spec fn record_all(self, fields: Seq<FieldText>) -> RecorderView
        decreases fields.len(),
    {
        if fields.len() == 0 {
            self
        } else {
            self.record_all(fields.drop_last()).record(fields.last().0, fields.last().1)
        }
    }

    /// The text of the recorder: nothing where the display text is empty,
    /// else a space and the display text.
    pub open spec fn text(self) -> Seq<char> {
        if self.display.len() == 0 {
            Seq::empty()
        } else {
            " "@ + self.display
        }
    }

    /// No field is kept under the name `message`, and none under the same
    /// name as another.
    pub open spec fn wf(self) -> bool {
        &&& !has_name(self.fields, "message"@)
        &&& names_unique(self.fields)
    }
}

/// None of `fields` is named `message`.
pub open spec fn no_message(fields: Seq<FieldText>) -> bool {
    forall|i: int| 0 <= i < fields.len() ==> (#[trigger] fields[i]).0 != "message"@
}

/// The display text of `fields` alone: their entries in order, a space
/// before the first and a newline before each later one.
pub open spec fn fields_display(fields: Seq<FieldText>) -> Seq<char>
    decreases fields.len(),
{
    if fields.len() == 0 {
        Seq::empty()
    } else {
        fields_display(fields.drop_last()) + (if fields.len() == 1 {
            " "@
        } else {
            "\n"@
        }) + field_entry(fields.last().0, fields.last().1)
    }
}

/// Setting a name that is not `message` keeps the names unique and keeps
/// `message` out.
pub proof fn lemma_upsert_keeps_names(fields: Seq<FieldText>, name: Seq<char>, value: Seq<char>)
    requires
        names_unique(fields),
        !has_name(fields, "message"@),
        name != "message"@,
    ensures
        names_unique(upsert(fields, name, value)),
        !has_name(upsert(fields, name, value), "message"@),
        has_name(upsert(fields, name, value), name),
{
    let after = upsert(fields, name, value);
    if has_name(fields, name) {
        let first = first_named(fields, name);
        assert(is_first_named(fields, name, first)) by {
            let i = choose|i: int| 0 <= i < fields.len() && (#[trigger] fields[i]).0 == name;
            lemma_first_named_exists(fields, name, i);
        }
        assert forall|i: int, j: int| 0 <= i < j < after.len() implies (#[trigger] after[i]).0 != (
        #[trigger] after[j]).0 by {
            assert(after[i].0 == fields[i].0);
            assert(after[j].0 == fields[j].0);
        }
        assert forall|i: int| 0 <= i < after.len() implies (#[trigger] after[i]).0 != "message"@ by {
            assert(after[i].0 == fields[i].0);
        }
        assert(after[first].0 == name);
    } else {
        assert forall|i: int, j: int| 0 <= i < j < after.len() implies (#[trigger] after[i]).0 != (
        #[trigger] after[j]).0 by {
            if j < fields.len() {
                assert(after[i] == fields[i]);
                assert(after[j] == fields[j]);
            } else {
                assert(after[i] == fields[i]);
            }
        }
        assert forall|i: int| 0 <= i < after.len() implies (#[trigger] after[i]).0 != "message"@ by {
            if i < fields.len() {
                assert(after[i] == fields[i]);
            }
        }
        assert(after[fields.len() as int].0 == name);
    }
}

/// Where the entry at `at` has the name, some entry is the first of that
/// name, and `first_named` is its place.
pub proof fn lemma_first_named_exists(fields: Seq<FieldText>, name: Seq<char>, at: int)
    requires
        0 <= at < fields.len(),
        fields[at].0 == name,
    ensures
        exists|i: int| is_first_named(fields, name, i),
        is_first_named(fields, name, first_named(fields, name)),
    decreases at,
{
    if forall|j: int| 0 <= j < at ==> (#[trigger] fields[j]).0 != name {
        assert(is_first_named(fields, name, at));
    } else {
        let j = choose|j: int| 0 <= j < at && (#[trigger] fields[j]).0 == name;
        lemma_first_named_exists(fields, name, j);
    }
}

impl RecorderView {
    /// A recorder that nothing was recorded into is well formed.
    pub proof fn lemma_empty_wf(show_fields: bool)
        ensures
            RecorderView::empty(show_fields).wf(),
    {
    }

    /// Recording a field keeps a recorder well formed: whatever is
    /// recorded, `message` is never among the kept names.
    pub proof fn lemma_record_keeps_wf(self, name: Seq<char>, value: Seq<char>)
        requires
            self.wf(),
        ensures
            self.record(name, value).wf(),
    {
        if name != "message"@ && self.show_fields {
            lemma_upsert_keeps_names(self.fields, name, value);
        }
    }

    /// Recording any sequence of fields keeps a recorder well formed.
    pub proof fn lemma_record_all_keeps_wf(self, fields: Seq<FieldText>)
        requires
            self.wf(),
        ensures
            self.record_all(fields).wf(),
        decreases fields.len(),
    {
        if fields.len() > 0 {
            self.lemma_record_all_keeps_wf(fields.drop_last());
            self.record_all(fields.drop_last()).lemma_record_keeps_wf(
                fields.last().0,
                fields.last().1,
            );
        }
    }

    /// A message recorded onto a display text that is not empty stands in
    /// front of it, on a line of its own. So of two messages recorded one
    /// after the other, the first of them not empty, the later one comes
    /// first; on a recorder without earlier text the display text is then
    /// the second message, a newline, and the first message.
    pub proof fn lemma_later_message_first(self, first: Seq<char>, second: Seq<char>)
        requires
            first.len() > 0,
        ensures
            self.record("message"@, first).record("message"@, second).display == second + "\n"@
                + self.record("message"@, first).display,
            self.display.len() == 0 ==> self.record("message"@, first).record(
                "message"@,
                second,
            ).display == second + "\n"@ + first,
            self.record("message"@, first).record("message"@, second).fields == self.fields,
    {
        let once = self.record("message"@, first);
        assert(once.display.len() > 0);
    }

    /// With fields shown, recording fields of which none is the message
    /// into a recorder that nothing was recorded into gives their entries
    /// in the order of recording: a space before the first, a newline
    /// before each later one.
    pub proof fn lemma_fields_in_order(fields: Seq<FieldText>)
        requires
            no_message(fields),
        ensures
            RecorderView::empty(true).record_all(fields).display == fields_display(fields),
            RecorderView::empty(true).record_all(fields).is_following_args == (fields.len() > 0),
            RecorderView::empty(true).record_all(fields).show_fields,
        decreases fields.len(),
    {
        if fields.len() > 0 {
            let front = fields.drop_last();
            assert(no_message(front)) by {
                assert forall|i: int| 0 <= i < front.len() implies (#[trigger] front[i]).0
                    != "message"@ by {
                    assert(front[i] == fields[i]);
                }
            }
            Self::lemma_fields_in_order(front);
            assert(fields.last() == fields[fields.len() - 1]);
            assert(fields.last().0 != "message"@);
            let before = RecorderView::empty(true).record_all(front);
            assert(before.display + (if before.is_following_args {
                "\n"@
            } else {
                " "@
            }) + field_entry(fields.last().0, fields.last().1) =~= fields_display(fields));
        }
    }

    /// With fields hidden, recording fields of which none is the message
    /// changes nothing: the text of a recorder that only such fields were
    /// recorded into is empty.
    pub proof fn lemma_hidden_fields(self, fields: Seq<FieldText>)
        requires
            !self.show_fields,
            no_message(fields),
        ensures
            self.record_all(fields) == self,
            RecorderView::empty(false).record_all(fields).text() == Seq::<char>::empty(),
        decreases fields.len(),
    {
        if fields.len() > 0 {
            let front = fields.drop_last();
            assert(no_message(front)) by {
                assert forall|i: int| 0 <= i < front.len() implies (#[trigger] front[i]).0
                    != "message"@ by {
                    assert(front[i] == fields[i]);
                }
            }
            self.lemma_hidden_fields(front);
            RecorderView::empty(false).lemma_hidden_fields(front);
            assert(fields.last() == fields[fields.len() - 1]);
        }
    }
}

/// Collects the fields of one span or event into a display text, and keeps
/// the value of each field but the message under its name. The kept fields
/// stand in the order in which their names first came.
pub struct StringRecorder {
    pub display: String,
    pub is_following_args: bool,
    pub show_fields: bool,
    pub fields: Vec<(String, String)>,
}

impl View for StringRecorder {
    type V = RecorderView;

    open spec fn view(&self) -> RecorderView {
        RecorderView {
            display: self.display@,
            is_following_args: self.is_following_args,
            show_fields: self.show_fields,
            fields: fields_view(self.fields@),
        }
    }
}

impl Default for StringRecorder {
    fn default() -> (recorder: StringRecorder)
        ensures
            recorder@ == RecorderView::empty(true),
    {
        StringRecorder {
            display: String::new(),
            is_following_args: false,
            show_fields: true,
            fields: Vec::new(),
        }
    }
}

/// Sets `name` to `value` in `fields`.
pub fn set_field(fields: &mut Vec<(String, String)>, name: &str, value: &str)
    ensures
        fields_view(final(fields)@) == upsert(fields_view(old(fields)@), name@, value@),
{
    let ghost before = fields_view(fields@);
    let mut i: usize = 0;
    while i < fields.len()
        invariant
            i <= fields.len(),
            fields@ == old(fields)@,
            before == fields_view(fields@),
            forall|j: int| 0 <= j < i ==> (#[trigger] before[j]).0 != name@,
        decreases fields.len() - i,
    {
        if same_text(fields[i].0.as_str(), name) {
            assert(is_first_named(before, name@, i as int));
            assert(has_name(before, name@));
            let ghost first = first_named(before, name@);
            assert(is_first_named(before, name@, first));
            assert(first == i) by {
                if first < i {
                    assert(before[first].0 != name@);
                }
                if i < first {
                    assert(before[i as int].0 == name@);
                }
            }
            fields.set(i, (String::from_str(name), String::from_str(value)));
            assert(fields_view(fields@) =~= upsert(before, name@, value@));
            return ;
        }
        i = i + 1;
    }
    assert(!has_name(before, name@));
    fields.push((String::from_str(name), String::from_str(value)));
    assert(fields_view(fields@) =~= upsert(before, name@, value@));
}

impl StringRecorder {
    /// A recorder that nothing was recorded into.
    pub fn new(show_fields: bool) -> (recorder: StringRecorder)
        ensures
            recorder@ == RecorderView::empty(show_fields),
            recorder@.wf(),
    {
        StringRecorder {
            display: String::new(),
            is_following_args: false,
            show_fields,
            fields: Vec::new(),
        }
    }

    /// Records one field, given by its name and its rendered value.
    pub fn record(&mut self, field_name: &str, debug_value: &str)
        ensures
            final(self)@ == old(self)@.record(field_name@, debug_value@),
            old(self)@.wf() ==> final(self)@.wf(),
    {
        proof {
            if old(self)@.wf() {
                old(self)@.lemma_record_keeps_wf(field_name@, debug_value@);
            }
        }
        if same_text(field_name, "message") {
            if !self.display.as_str().is_empty() {
                let mut display = String::from_str(debug_value);
                display.append("\n");
                display.append(self.display.as_str());
                self.display = display;
            } else {
                self.display = String::from_str(debug_value);
            }
        } else if self.show_fields {
            let mut entry = String::from_str(field_name);
            entry.append(" = ");
            entry.append(debug_value);
            entry.append(";");
            if self.is_following_args {
                self.display.append("\n");
            } else {
                self.display.append(" ");
                self.is_following_args = true;
            }
            self.display.append(entry.as_str());
            set_field(&mut self.fields, field_name, debug_value);
        }
    }

    /// Records each field of `fields`, in order.
    pub fn record_all(&mut self, fields: &Vec<(String, String)>)
        ensures
            final(self)@ == old(self)@.record_all(fields_view(fields@)),
            old(self)@.wf() ==> final(self)@.wf(),
    {
        proof {
            if old(self)@.wf() {
                old(self)@.lemma_record_all_keeps_wf(fields_view(fields@));
            }
        }
        let ghost all = fields_view(fields@);
        let mut i: usize = 0;
        while i < fields.len()
            invariant
                i <= fields.len(),
                all == fields_view(fields@),
                self@ == old(self)@.record_all(all.take(i as int)),
            decreases fields.len() - i,
        {
            self.record(fields[i].0.as_str(), fields[i].1.as_str());
            assert(all.take(i + 1).drop_last() =~= all.take(i as int));
            i = i + 1;
        }
        assert(all.take(i as int) =~= all);
    }

    /// The text of the recorder, ready to follow a prefix directly.
    pub fn to_text(&self) -> (text: String)
        ensures
            text@ == self@.text(),
    {
        if !self.display.as_str().is_empty() {
            let mut text = String::from_str(" ");
            text.append(self.display.as_str());
            text
        } else {
            String::new()
        }
    }

    /// The kept fields as the trailer of a console line.
    pub fn trailer(&self) -> (text: String)
        ensures
            text@ == trailer_text(self@.fields),
    {
        let ghost all = fields_view(self.fields@);
        let mut text = String::new();
        let mut i: usize = 0;
        while i < self.fields.len()
            invariant
                i <= self.fields.len(),
                all == fields_view(self.fields@),
                text@ == trailer_text(all.take(i as int)),
            decreases self.fields.len() - i,
        {
            let mut entry = String::from_str("\n\t");
            entry.append(self.fields[i].0.as_str());
            entry.append(": ");
            entry.append(self.fields[i].1.as_str());
            text.append(entry.as_str());
            assert(all.take(i + 1).drop_last() =~= all.take(i as int));
            i = i + 1;
        }
        assert(all.take(i as int) =~= all);
        text
    }
}

} // verus!
