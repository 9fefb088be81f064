//! JSON log lines: the names of their keys and which entries each event gets.

use vstd::prelude::*;

use crate::text::{owned, string_of, chars_of};

verus! {

/// Custom names of JSON keys.
#[derive(Clone, Debug)]
pub struct JsonKeyNames {
    /// Key of the timestamp.
    pub timestamp: String,
    /// Key of the level.
    pub level: String,
    /// Key of the event fields.
    pub fields: String,
    /// Key of the target.
    pub target: String,
    /// Key of the source file name.
    pub filename: String,
    /// Key of the source line.
    pub line_number: String,
    /// Key of the current span.
    pub span: String,
    /// Key of the thread name.
    pub thread_name: String,
    /// Key of the thread ID.
    pub thread_id: String,
}

impl Default for JsonKeyNames {
    fn default() -> (r: JsonKeyNames)
        ensures
            r.timestamp@ == "timestamp"@,
            r.level@ == "level"@,
            r.fields@ == "fields"@,
            r.target@ == "target"@,
            r.filename@ == "filename"@,
            r.line_number@ == "line_number"@,
            r.span@ == "span"@,
            r.thread_name@ == "threadName"@,
            r.thread_id@ == "threadId"@,
    {
        JsonKeyNames {
            timestamp: owned("timestamp"),
            level: owned("level"),
            fields: owned("fields"),
            target: owned("target"),
            filename: owned("filename"),
            line_number: owned("line_number"),
            span: owned("span"),
            thread_name: owned("threadName"),
            thread_id: owned("threadId"),
        }
    }
}

/// What an entry of a JSON log line holds.
#[derive(Clone, Copy, Debug, PartialEq, Eq, Structural)]
pub enum JsonEntry {
    /// The formatted time.
    Timestamp,
    /// The event level.
    Level,
    /// The event fields as one object.
    Fields,
    /// The event fields, each as an entry of its own.
    FlattenedFields,
    /// The event target.
    Target,
    /// The source file.
    Filename,
    /// The source line.
    LineNumber,
    /// The current span.
    Span,
    /// The thread name.
    ThreadName,
    /// The thread ID, standing in for a missing thread name.
    ThreadIdAsName,
    /// The thread ID.
    ThreadId,
    /// A static field, by position.
    Static(usize),
}

/// What a formatter knows of an event before writing it.
#[derive(Clone, Copy, Debug, PartialEq, Eq, Structural)]
pub struct EventShape {
    /// The event has a source file.
    pub has_file: bool,
    /// The event has a source line.
    pub has_line: bool,
    /// There is a current span.
    pub has_span: bool,
    /// The current thread has a name.
    pub thread_named: bool,
}

/// JSON event formatter settings.
#[derive(Clone, Debug)]
pub struct ExtensibleJsonFormat {
    /// Add timestamps.
    pub display_timestamp: bool,
    /// Add the event target.
    pub display_target: bool,
    /// Add the event level.
    pub display_level: bool,
    /// Add the thread ID.
    pub display_thread_id: bool,
    /// Add the thread name.
    pub display_thread_name: bool,
    /// Add the source file.
    pub display_filename: bool,
    /// Add the source line.
    pub display_line_number: bool,
    /// Put event fields at the top level.
    pub flatten_event: bool,
    /// Add the current span.
    pub display_current_span: bool,
    /// Keys of the static fields, in order.
    pub static_keys: Vec<String>,
    /// Key names.
    pub key_names: JsonKeyNames,
}

/// Appends an entry when a condition holds.
#[verifier::opaque]
pub open spec fn push_if(s: Seq<(Seq<char>, JsonEntry)>, cond: bool, key: Seq<char>, entry: JsonEntry) -> Seq<(Seq<char>, JsonEntry)> {
    if cond {
        s.push((key, entry))
    } else {
        s
    }
}

/// The entries of a JSON log line before the static fields, in order: key
/// (empty for flattened fields) and content.
pub open spec fn fixed_entries_spec(f: ExtensibleJsonFormat, e: EventShape) -> Seq<(Seq<char>, JsonEntry)> {
    let k = f.key_names;
    let s1 = push_if(Seq::empty(), f.display_timestamp, k.timestamp@, JsonEntry::Timestamp);
    let s2 = push_if(s1, f.display_level, k.level@, JsonEntry::Level);
    let s3a = push_if(s2, f.flatten_event, Seq::empty(), JsonEntry::FlattenedFields);
    let s3 = push_if(s3a, !f.flatten_event, k.fields@, JsonEntry::Fields);
    let s4 = push_if(s3, f.display_target, k.target@, JsonEntry::Target);
    let s5 = push_if(s4, f.display_filename && e.has_file, k.filename@, JsonEntry::Filename);
    let s6 = push_if(s5, f.display_line_number && e.has_line, k.line_number@, JsonEntry::LineNumber);
    let s7 = push_if(s6, f.display_current_span && e.has_span, k.span@, JsonEntry::Span);
    let s8a = push_if(s7, f.display_thread_name && e.thread_named, k.thread_name@, JsonEntry::ThreadName);
    let s8 = push_if(s8a, f.display_thread_name && !e.thread_named && !f.display_thread_id, k.thread_name@, JsonEntry::ThreadIdAsName);
    push_if(s8, f.display_thread_id, k.thread_id@, JsonEntry::ThreadId)
}

/// The entries of a JSON log line, in order: the fixed entries, then the static fields.
pub open spec fn entry_plan_spec(f: ExtensibleJsonFormat, e: EventShape) -> Seq<(Seq<char>, JsonEntry)> {
    fixed_entries_spec(f, e) + Seq::new(f.static_keys@.len(), |i: int| (f.static_keys@[i]@, JsonEntry::Static(i as usize)))
}

/// The abstract content of planned entries.
pub open spec fn plan_view(v: Seq<(String, JsonEntry)>) -> Seq<(Seq<char>, JsonEntry)> {
    v.map_values(|p: (String, JsonEntry)| (p.0@, p.1))
}

impl Default for ExtensibleJsonFormat {
    fn default() -> (r: ExtensibleJsonFormat)
        ensures
            r.display_timestamp && r.display_target && r.display_level && r.display_current_span,
            !r.display_thread_id && !r.display_thread_name && !r.display_filename,
            !r.display_line_number && !r.flatten_event,
            r.static_keys@.len() == 0,
    {
        ExtensibleJsonFormat {
            display_timestamp: true,
            display_target: true,
            display_level: true,
            display_thread_id: false,
            display_thread_name: false,
            display_filename: false,
            display_line_number: false,
            flatten_event: false,
            display_current_span: true,
            static_keys: Vec::new(),
            key_names: JsonKeyNames::default(),
        }
    }
}

impl ExtensibleJsonFormat {
    /// A formatter with the default settings.
    pub fn new() -> (r: ExtensibleJsonFormat)
        ensures
            r.display_timestamp && r.display_target && r.display_level && r.display_current_span,
            !r.display_thread_id && !r.display_thread_name && !r.display_filename,
            !r.display_line_number && !r.flatten_event,
            r.static_keys@.len() == 0,
    {
        ExtensibleJsonFormat::default()
    }

    /// Do not emit timestamps.
    pub fn without_time(self) -> (r: ExtensibleJsonFormat)
        ensures
            r == (ExtensibleJsonFormat { display_timestamp: false, ..self }),
    {
        ExtensibleJsonFormat { display_timestamp: false, ..self }
    }

    /// Sets whether an event's target is displayed.
    pub fn with_target(self, display_target: bool) -> (r: ExtensibleJsonFormat)
        ensures
            r == (ExtensibleJsonFormat { display_target, ..self }),
    {
        ExtensibleJsonFormat { display_target, ..self }
    }

    /// Sets whether an event's level is displayed.
    pub fn with_level(self, display_level: bool) -> (r: ExtensibleJsonFormat)
        ensures
            r == (ExtensibleJsonFormat { display_level, ..self }),
    {
        ExtensibleJsonFormat { display_level, ..self }
    }

    /// Sets whether the current thread's ID is displayed.
    pub fn with_thread_ids(self, display_thread_id: bool) -> (r: ExtensibleJsonFormat)
        ensures
            r == (ExtensibleJsonFormat { display_thread_id, ..self }),
    {
        ExtensibleJsonFormat { display_thread_id, ..self }
    }

    /// Sets whether the current thread's name is displayed.
    pub fn with_thread_names(self, display_thread_name: bool) -> (r: ExtensibleJsonFormat)
        ensures
            r == (ExtensibleJsonFormat { display_thread_name, ..self }),
    {
        ExtensibleJsonFormat { display_thread_name, ..self }
    }

    /// Sets whether an event's source file is displayed.
    pub fn with_file(self, display_filename: bool) -> (r: ExtensibleJsonFormat)
        ensures
            r == (ExtensibleJsonFormat { display_filename, ..self }),
    {
        ExtensibleJsonFormat { display_filename, ..self }
    }

    /// Sets whether an event's source line is displayed.
    pub fn with_line_number(self, display_line_number: bool) -> (r: ExtensibleJsonFormat)
        ensures
            r == (ExtensibleJsonFormat { display_line_number, ..self }),
    {
        ExtensibleJsonFormat { display_line_number, ..self }
    }

    /// Sets whether event fields are put at the top level of the line.
    pub fn flatten_event(self, flatten_event: bool) -> (r: ExtensibleJsonFormat)
        ensures
            r == (ExtensibleJsonFormat { flatten_event, ..self }),
    {
        ExtensibleJsonFormat { flatten_event, ..self }
    }

    /// Sets whether the current span is displayed.
    pub fn with_current_span(self, display_current_span: bool) -> (r: ExtensibleJsonFormat)
        ensures
            r == (ExtensibleJsonFormat { display_current_span, ..self }),
    {
        ExtensibleJsonFormat { display_current_span, ..self }
    }

    /// Sets the keys of the static fields, in the order they are written (the
    /// caller holds the values, by key).
    pub fn with_static_keys(self, static_keys: Vec<String>) -> (r: ExtensibleJsonFormat)
        ensures
            r == (ExtensibleJsonFormat { static_keys, ..self }),
    {
        ExtensibleJsonFormat { static_keys, ..self }
    }

    /// Sets custom names of the JSON keys.
    pub fn with_key_names(self, key_names: JsonKeyNames) -> (r: ExtensibleJsonFormat)
        ensures
            r == (ExtensibleJsonFormat { key_names, ..self }),
    {
        ExtensibleJsonFormat { key_names, ..self }
    }
}

/// Appends a keyed entry when a condition holds.
fn push_entry_if(v: &mut Vec<(String, JsonEntry)>, cond: bool, key: &str, entry: JsonEntry)
    ensures
        plan_view(final(v)@) == push_if(plan_view(old(v)@), cond, key@, entry),
{
    reveal(push_if);
    if cond {
        let ghost before = plan_view(v@);
        v.push((owned(key), entry));
        assert(plan_view(v@) =~= before.push((key@, entry)));
    }
}

impl ExtensibleJsonFormat {
    /// The entries a JSON log line for an event gets, in order.
    pub fn entry_plan(&self, event: &EventShape) -> (r: Vec<(String, JsonEntry)>)
        requires
            self.static_keys@.len() <= usize::MAX,
        ensures
            plan_view(r@) == entry_plan_spec(*self, *event),
    {
        let k = &self.key_names;
        let mut v: Vec<(String, JsonEntry)> = Vec::new();
        assert(plan_view(v@) =~= Seq::<(Seq<char>, JsonEntry)>::empty());
        push_entry_if(&mut v, self.display_timestamp, k.timestamp.as_str(), JsonEntry::Timestamp);
        push_entry_if(&mut v, self.display_level, k.level.as_str(), JsonEntry::Level);
        push_entry_if(&mut v, self.flatten_event, "", JsonEntry::FlattenedFields);
        push_entry_if(&mut v, !self.flatten_event, k.fields.as_str(), JsonEntry::Fields);
        push_entry_if(&mut v, self.display_target, k.target.as_str(), JsonEntry::Target);
        push_entry_if(&mut v, self.display_filename && event.has_file, k.filename.as_str(), JsonEntry::Filename);
        push_entry_if(&mut v, self.display_line_number && event.has_line, k.line_number.as_str(), JsonEntry::LineNumber);
        push_entry_if(&mut v, self.display_current_span && event.has_span, k.span.as_str(), JsonEntry::Span);
        push_entry_if(&mut v, self.display_thread_name && event.thread_named, k.thread_name.as_str(), JsonEntry::ThreadName);
        push_entry_if(
            &mut v,
            self.display_thread_name && !event.thread_named && !self.display_thread_id,
            k.thread_name.as_str(),
            JsonEntry::ThreadIdAsName,
        );
        push_entry_if(&mut v, self.display_thread_id, k.thread_id.as_str(), JsonEntry::ThreadId);
        proof {
            reveal_strlit("");
            assert(""@ =~= Seq::<char>::empty());
        }
        let ghost fixed = plan_view(v@);
        let mut i: usize = 0;
        while i < self.static_keys.len()
            invariant
                i <= self.static_keys@.len(),
                plan_view(v@) == fixed + Seq::new(i as nat, |j: int| (self.static_keys@[j]@, JsonEntry::Static(j as usize))),
            decreases self.static_keys@.len() - i,
        {
            push_entry_if(&mut v, true, self.static_keys[i].as_str(), JsonEntry::Static(i));
            proof {
                reveal(push_if);
            }
            assert(plan_view(v@) =~= fixed + Seq::new((i + 1) as nat, |j: int| (self.static_keys@[j]@, JsonEntry::Static(j as usize))));
            i = i + 1;
        }
        v
    }
}

/// The environment variable a static field value refers to: the text after a
/// leading `$`.
pub open spec fn env_reference_spec(value: Seq<char>) -> Option<Seq<char>> {
    if value.len() > 0 && value[0] == '$' {
        Some(value.skip(1))
    } else {
        None
    }
}

/// The environment variable a static field value refers to, if it refers to one.
pub fn env_reference(value: &str) -> (r: Option<String>)
    ensures
        match r {
            Some(n) => env_reference_spec(value@) == Some(n@),
            None => env_reference_spec(value@) is None,
        },
{
    let v = chars_of(value);
    if v.len() > 0 && v[0] == '$' {
        let mut rest: Vec<char> = Vec::new();
        let mut i: usize = 1;
        while i < v.len()
            invariant
                1 <= i <= v@.len(),
                rest@ =~= v@.subrange(1, i as int),
            decreases v@.len() - i,
        {
            rest.push(v[i]);
            i = i + 1;
        }
        assert(rest@ =~= value@.skip(1));
        Some(string_of(rest.as_slice()))
    } else {
        None
    }
}

/// Some entry of a plan holds `entry`.
pub open spec fn has_entry(s: Seq<(Seq<char>, JsonEntry)>, entry: JsonEntry) -> bool {
    exists|i: int| 0 <= i < s.len() && (#[trigger] s[i]).1 == entry
}

/// Every entry of a plan that holds `entry` is written under `key`.
pub open spec fn entry_keyed(s: Seq<(Seq<char>, JsonEntry)>, entry: JsonEntry, key: Seq<char>) -> bool {
    forall|i: int| 0 <= i < s.len() && (#[trigger] s[i]).1 == entry ==> s[i].0 == key
}

/// What appending an entry when a condition holds does to the entries present
/// and their keys.
proof fn lemma_push_if_entries(
    s: Seq<(Seq<char>, JsonEntry)>,
    cond: bool,
    key: Seq<char>,
    entry: JsonEntry,
    x: JsonEntry,
    k: Seq<char>,
)
    ensures
        has_entry(push_if(s, cond, key, entry), x) <==> (has_entry(s, x) || (cond && entry == x)),
        (entry_keyed(s, x, k) && (cond && entry == x ==> key == k)) ==> entry_keyed(push_if(s, cond, key, entry), x, k),
{
    reveal(push_if);
    if cond {
        let t = s.push((key, entry));
        if has_entry(s, x) {
            let i = choose|i: int| 0 <= i < s.len() && (#[trigger] s[i]).1 == x;
            assert(t[i] == s[i]);
        }
        if has_entry(t, x) {
            let i = choose|i: int| 0 <= i < t.len() && (#[trigger] t[i]).1 == x;
            if i < s.len() {
                assert(t[i] == s[i]);
            }
        }
        if entry == x {
            assert(t[s.len() as int].1 == x);
        }
        if entry_keyed(s, x, k) && (entry == x ==> key == k) {
            assert forall|i: int| 0 <= i < t.len() && (#[trigger] t[i]).1 == x implies t[i].0 == k by {
                if i < s.len() {
                    assert(t[i] == s[i]);
                }
            }
        }
    }
}

/// The fixed entries hold an entry exactly as the conditions of each step say.
proof fn lemma_fixed_entries(f: ExtensibleJsonFormat, e: EventShape, x: JsonEntry, k: Seq<char>)
    ensures
        has_entry(fixed_entries_spec(f, e), x) <==> (
            (f.display_timestamp && x == JsonEntry::Timestamp)
            || (f.display_level && x == JsonEntry::Level)
            || (f.flatten_event && x == JsonEntry::FlattenedFields)
            || (!f.flatten_event && x == JsonEntry::Fields)
            || (f.display_target && x == JsonEntry::Target)
            || (f.display_filename && e.has_file && x == JsonEntry::Filename)
            || (f.display_line_number && e.has_line && x == JsonEntry::LineNumber)
            || (f.display_current_span && e.has_span && x == JsonEntry::Span)
            || (f.display_thread_name && e.thread_named && x == JsonEntry::ThreadName)
            || (f.display_thread_name && !e.thread_named && !f.display_thread_id && x == JsonEntry::ThreadIdAsName)
            || (f.display_thread_id && x == JsonEntry::ThreadId)),
        ({
            let n = f.key_names;
            &&& (x == JsonEntry::Timestamp ==> k == n.timestamp@)
            &&& (x == JsonEntry::Level ==> k == n.level@)
            &&& (x == JsonEntry::FlattenedFields ==> k == Seq::<char>::empty())
            &&& (x == JsonEntry::Fields ==> k == n.fields@)
            &&& (x == JsonEntry::Target ==> k == n.target@)
            &&& (x == JsonEntry::Filename ==> k == n.filename@)
            &&& (x == JsonEntry::LineNumber ==> k == n.line_number@)
            &&& (x == JsonEntry::Span ==> k == n.span@)
            &&& (x == JsonEntry::ThreadName ==> k == n.thread_name@)
            &&& (x == JsonEntry::ThreadIdAsName ==> k == n.thread_name@)
            &&& (x == JsonEntry::ThreadId ==> k == n.thread_id@)
        }) ==> entry_keyed(fixed_entries_spec(f, e), x, k),
{
    let n = f.key_names;
    let s0 = Seq::<(Seq<char>, JsonEntry)>::empty();
    let s1 = push_if(s0, f.display_timestamp, n.timestamp@, JsonEntry::Timestamp);
    let s2 = push_if(s1, f.display_level, n.level@, JsonEntry::Level);
    let s3a = push_if(s2, f.flatten_event, Seq::empty(), JsonEntry::FlattenedFields);
    let s3 = push_if(s3a, !f.flatten_event, n.fields@, JsonEntry::Fields);
    let s4 = push_if(s3, f.display_target, n.target@, JsonEntry::Target);
    let s5 = push_if(s4, f.display_filename && e.has_file, n.filename@, JsonEntry::Filename);
    let s6 = push_if(s5, f.display_line_number && e.has_line, n.line_number@, JsonEntry::LineNumber);
    let s7 = push_if(s6, f.display_current_span && e.has_span, n.span@, JsonEntry::Span);
    let s8a = push_if(s7, f.display_thread_name && e.thread_named, n.thread_name@, JsonEntry::ThreadName);
    let s8 = push_if(s8a, f.display_thread_name && !e.thread_named && !f.display_thread_id, n.thread_name@, JsonEntry::ThreadIdAsName);
    assert(!has_entry(s0, x));
    lemma_push_if_entries(s0, f.display_timestamp, n.timestamp@, JsonEntry::Timestamp, x, k);
    lemma_push_if_entries(s1, f.display_level, n.level@, JsonEntry::Level, x, k);
    lemma_push_if_entries(s2, f.flatten_event, Seq::empty(), JsonEntry::FlattenedFields, x, k);
    lemma_push_if_entries(s3a, !f.flatten_event, n.fields@, JsonEntry::Fields, x, k);
    lemma_push_if_entries(s3, f.display_target, n.target@, JsonEntry::Target, x, k);
    lemma_push_if_entries(s4, f.display_filename && e.has_file, n.filename@, JsonEntry::Filename, x, k);
    lemma_push_if_entries(s5, f.display_line_number && e.has_line, n.line_number@, JsonEntry::LineNumber, x, k);
    lemma_push_if_entries(s6, f.display_current_span && e.has_span, n.span@, JsonEntry::Span, x, k);
    lemma_push_if_entries(s7, f.display_thread_name && e.thread_named, n.thread_name@, JsonEntry::ThreadName, x, k);
    lemma_push_if_entries(s8a, f.display_thread_name && !e.thread_named && !f.display_thread_id, n.thread_name@, JsonEntry::ThreadIdAsName, x, k);
    lemma_push_if_entries(s8, f.display_thread_id, n.thread_id@, JsonEntry::ThreadId, x, k);
}

/// Entries that are not static fields are present in the whole plan exactly when
/// they are among the fixed entries, under the same keys.
proof fn lemma_plan_fixed_part(f: ExtensibleJsonFormat, e: EventShape, x: JsonEntry, k: Seq<char>)
    requires
        !(x is Static),
    ensures
        has_entry(entry_plan_spec(f, e), x) <==> has_entry(fixed_entries_spec(f, e), x),
        entry_keyed(fixed_entries_spec(f, e), x, k) ==> entry_keyed(entry_plan_spec(f, e), x, k),
{
    let a = fixed_entries_spec(f, e);
    let p = entry_plan_spec(f, e);
    assert forall|i: int| 0 <= i < p.len() && (#[trigger] p[i]).1 == x implies i < a.len() && p[i] == a[i] by {
        if i >= a.len() {
            assert(p[i].1 == JsonEntry::Static((i - a.len()) as usize));
        }
    }
    if has_entry(a, x) {
        let i = choose|i: int| 0 <= i < a.len() && (#[trigger] a[i]).1 == x;
        assert(p[i] == a[i]);
    }
}

/// A JSON log line carries each entry exactly when its display option is on and
/// the event has what it shows: the timestamp, the level, the fields (flattened or
/// under their key), the target, the file and line when known, the current span
/// when inside one, the thread name when it has one (or its id in the name's place
/// when ids are not shown separately), the thread id; each under its configured
/// key.
pub proof fn law_json_entries_present(f: ExtensibleJsonFormat, e: EventShape)
    ensures
        ({
            let plan = entry_plan_spec(f, e);
            let n = f.key_names;
            &&& has_entry(plan, JsonEntry::Timestamp) <==> f.display_timestamp
            &&& entry_keyed(plan, JsonEntry::Timestamp, n.timestamp@)
            &&& has_entry(plan, JsonEntry::Level) <==> f.display_level
            &&& entry_keyed(plan, JsonEntry::Level, n.level@)
            &&& has_entry(plan, JsonEntry::FlattenedFields) <==> f.flatten_event
            &&& has_entry(plan, JsonEntry::Fields) <==> !f.flatten_event
            &&& entry_keyed(plan, JsonEntry::Fields, n.fields@)
            &&& has_entry(plan, JsonEntry::Target) <==> f.display_target
            &&& entry_keyed(plan, JsonEntry::Target, n.target@)
            &&& has_entry(plan, JsonEntry::Filename) <==> (f.display_filename && e.has_file)
            &&& entry_keyed(plan, JsonEntry::Filename, n.filename@)
            &&& has_entry(plan, JsonEntry::LineNumber) <==> (f.display_line_number && e.has_line)
            &&& entry_keyed(plan, JsonEntry::LineNumber, n.line_number@)
            &&& has_entry(plan, JsonEntry::Span) <==> (f.display_current_span && e.has_span)
            &&& entry_keyed(plan, JsonEntry::Span, n.span@)
            &&& has_entry(plan, JsonEntry::ThreadName) <==> (f.display_thread_name && e.thread_named)
            &&& entry_keyed(plan, JsonEntry::ThreadName, n.thread_name@)
            &&& has_entry(plan, JsonEntry::ThreadIdAsName) <==> (f.display_thread_name && !e.thread_named && !f.display_thread_id)
            &&& entry_keyed(plan, JsonEntry::ThreadIdAsName, n.thread_name@)
            &&& has_entry(plan, JsonEntry::ThreadId) <==> f.display_thread_id
            &&& entry_keyed(plan, JsonEntry::ThreadId, n.thread_id@)
        }),
{
    let n = f.key_names;
    let kinds = seq![
        (JsonEntry::Timestamp, n.timestamp@), (JsonEntry::Level, n.level@),
        (JsonEntry::FlattenedFields, Seq::<char>::empty()), (JsonEntry::Fields, n.fields@),
        (JsonEntry::Target, n.target@), (JsonEntry::Filename, n.filename@),
        (JsonEntry::LineNumber, n.line_number@), (JsonEntry::Span, n.span@),
        (JsonEntry::ThreadName, n.thread_name@), (JsonEntry::ThreadIdAsName, n.thread_name@),
        (JsonEntry::ThreadId, n.thread_id@),
    ];
    assert forall|i: int| 0 <= i < kinds.len() implies
        (has_entry(entry_plan_spec(f, e), #[trigger] kinds[i].0) <==> has_entry(fixed_entries_spec(f, e), kinds[i].0))
        && entry_keyed(entry_plan_spec(f, e), kinds[i].0, kinds[i].1) by {
        lemma_fixed_entries(f, e, kinds[i].0, kinds[i].1);
        lemma_plan_fixed_part(f, e, kinds[i].0, kinds[i].1);
    }
    lemma_fixed_entries(f, e, JsonEntry::Timestamp, n.timestamp@);
    lemma_fixed_entries(f, e, JsonEntry::Level, n.level@);
    lemma_fixed_entries(f, e, JsonEntry::FlattenedFields, Seq::empty());
    lemma_fixed_entries(f, e, JsonEntry::Fields, n.fields@);
    lemma_fixed_entries(f, e, JsonEntry::Target, n.target@);
    lemma_fixed_entries(f, e, JsonEntry::Filename, n.filename@);
    lemma_fixed_entries(f, e, JsonEntry::LineNumber, n.line_number@);
    lemma_fixed_entries(f, e, JsonEntry::Span, n.span@);
    lemma_fixed_entries(f, e, JsonEntry::ThreadName, n.thread_name@);
    lemma_fixed_entries(f, e, JsonEntry::ThreadIdAsName, n.thread_name@);
    lemma_fixed_entries(f, e, JsonEntry::ThreadId, n.thread_id@);
    assert(kinds[0].0 == JsonEntry::Timestamp && kinds[1].0 == JsonEntry::Level);
    assert(kinds[2].0 == JsonEntry::FlattenedFields && kinds[3].0 == JsonEntry::Fields);
    assert(kinds[4].0 == JsonEntry::Target && kinds[5].0 == JsonEntry::Filename);
    assert(kinds[6].0 == JsonEntry::LineNumber && kinds[7].0 == JsonEntry::Span);
    assert(kinds[8].0 == JsonEntry::ThreadName && kinds[9].0 == JsonEntry::ThreadIdAsName);
    assert(kinds[10].0 == JsonEntry::ThreadId);
}

/// Position of an entry kind in a JSON log line.
pub open spec fn entry_rank(x: JsonEntry) -> int {
    match x {
        JsonEntry::Timestamp => 0,
        JsonEntry::Level => 1,
        JsonEntry::FlattenedFields => 2,
        JsonEntry::Fields => 3,
        JsonEntry::Target => 4,
        JsonEntry::Filename => 5,
        JsonEntry::LineNumber => 6,
        JsonEntry::Span => 7,
        JsonEntry::ThreadName => 8,
        JsonEntry::ThreadIdAsName => 9,
        JsonEntry::ThreadId => 10,
        JsonEntry::Static(i) => 11 + i,
    }
}

/// The entries of a plan come in strictly increasing rank, all below `bound`.
pub open spec fn ranked_below(s: Seq<(Seq<char>, JsonEntry)>, bound: int) -> bool {
    &&& forall|i: int, j: int| 0 <= i < j < s.len() ==> entry_rank((#[trigger] s[i]).1) < entry_rank((#[trigger] s[j]).1)
    &&& forall|i: int| 0 <= i < s.len() ==> entry_rank((#[trigger] s[i]).1) < bound
}

proof fn lemma_push_if_ranked(s: Seq<(Seq<char>, JsonEntry)>, cond: bool, key: Seq<char>, entry: JsonEntry, bound: int)
    requires
        ranked_below(s, entry_rank(entry)),
        entry_rank(entry) < bound,
    ensures
        ranked_below(push_if(s, cond, key, entry), bound),
{
    reveal(push_if);
    if cond {
        let t = s.push((key, entry));
        assert forall|i: int, j: int| 0 <= i < j < t.len() implies entry_rank((#[trigger] t[i]).1) < entry_rank((#[trigger] t[j]).1) by {
            assert(t[i] == s[i]);
            if j < s.len() {
                assert(t[j] == s[j]);
            }
        }
        assert forall|i: int| 0 <= i < t.len() implies entry_rank((#[trigger] t[i]).1) < bound by {
            if i < s.len() {
                assert(t[i] == s[i]);
            }
        }
    }
}

/// The entries of a JSON log line come in a fixed order: timestamp, level,
/// fields, target, file, line, span, thread name, thread id, then the static fields
/// in their configured order.
pub proof fn law_json_entries_in_order(f: ExtensibleJsonFormat, e: EventShape)
    requires
        f.static_keys@.len() <= usize::MAX,
    ensures
        forall|i: int, j: int| 0 <= i < j < entry_plan_spec(f, e).len()
            ==> entry_rank((#[trigger] entry_plan_spec(f, e)[i]).1) < entry_rank((#[trigger] entry_plan_spec(f, e)[j]).1),
{
    let n = f.key_names;
    let s0 = Seq::<(Seq<char>, JsonEntry)>::empty();
    let s1 = push_if(s0, f.display_timestamp, n.timestamp@, JsonEntry::Timestamp);
    let s2 = push_if(s1, f.display_level, n.level@, JsonEntry::Level);
    let s3a = push_if(s2, f.flatten_event, Seq::empty(), JsonEntry::FlattenedFields);
    let s3 = push_if(s3a, !f.flatten_event, n.fields@, JsonEntry::Fields);
    let s4 = push_if(s3, f.display_target, n.target@, JsonEntry::Target);
    let s5 = push_if(s4, f.display_filename && e.has_file, n.filename@, JsonEntry::Filename);
    let s6 = push_if(s5, f.display_line_number && e.has_line, n.line_number@, JsonEntry::LineNumber);
    let s7 = push_if(s6, f.display_current_span && e.has_span, n.span@, JsonEntry::Span);
    let s8a = push_if(s7, f.display_thread_name && e.thread_named, n.thread_name@, JsonEntry::ThreadName);
    let s8 = push_if(s8a, f.display_thread_name && !e.thread_named && !f.display_thread_id, n.thread_name@, JsonEntry::ThreadIdAsName);
    lemma_push_if_ranked(s0, f.display_timestamp, n.timestamp@, JsonEntry::Timestamp, 1);
    lemma_push_if_ranked(s1, f.display_level, n.level@, JsonEntry::Level, 2);
    lemma_push_if_ranked(s2, f.flatten_event, Seq::empty(), JsonEntry::FlattenedFields, 3);
    lemma_push_if_ranked(s3a, !f.flatten_event, n.fields@, JsonEntry::Fields, 4);
    lemma_push_if_ranked(s3, f.display_target, n.target@, JsonEntry::Target, 5);
    lemma_push_if_ranked(s4, f.display_filename && e.has_file, n.filename@, JsonEntry::Filename, 6);
    lemma_push_if_ranked(s5, f.display_line_number && e.has_line, n.line_number@, JsonEntry::LineNumber, 7);
    lemma_push_if_ranked(s6, f.display_current_span && e.has_span, n.span@, JsonEntry::Span, 8);
    lemma_push_if_ranked(s7, f.display_thread_name && e.thread_named, n.thread_name@, JsonEntry::ThreadName, 9);
    lemma_push_if_ranked(s8a, f.display_thread_name && !e.thread_named && !f.display_thread_id, n.thread_name@, JsonEntry::ThreadIdAsName, 10);
    lemma_push_if_ranked(s8, f.display_thread_id, n.thread_id@, JsonEntry::ThreadId, 11);
    let a = fixed_entries_spec(f, e);
    let p = entry_plan_spec(f, e);
    assert(ranked_below(a, 11));
    assert forall|i: int| a.len() <= i < p.len() implies entry_rank((#[trigger] p[i]).1) == 11 + (i - a.len()) by {
        let m = i - a.len();
        assert(p[i] == (f.static_keys@[m]@, JsonEntry::Static(m as usize)));
    }
    assert forall|i: int, j: int| 0 <= i < j < p.len() implies entry_rank((#[trigger] p[i]).1) < entry_rank((#[trigger] p[j]).1) by {
        if j < a.len() {
            assert(p[i] == a[i] && p[j] == a[j]);
        } else if i < a.len() {
            assert(p[i] == a[i]);
        }
    }
}

/// Every static field of a JSON log line is written under its own key.
pub proof fn law_json_static_fields_present(f: ExtensibleJsonFormat, e: EventShape, j: int)
    requires
        f.static_keys@.len() <= usize::MAX,
        0 <= j < f.static_keys@.len(),
    ensures
        has_entry(entry_plan_spec(f, e), JsonEntry::Static(j as usize)),
        entry_keyed(entry_plan_spec(f, e), JsonEntry::Static(j as usize), f.static_keys@[j]@),
{
    lemma_plan_static_part(f, e, j);
}

/// Every static field stands in the plan under its own key.
proof fn lemma_plan_static_part(f: ExtensibleJsonFormat, e: EventShape, j: int)
    requires
        f.static_keys@.len() <= usize::MAX,
        0 <= j < f.static_keys@.len(),
    ensures
        has_entry(entry_plan_spec(f, e), JsonEntry::Static(j as usize)),
        entry_keyed(entry_plan_spec(f, e), JsonEntry::Static(j as usize), f.static_keys@[j]@),
{
    let a = fixed_entries_spec(f, e);
    let p = entry_plan_spec(f, e);
    lemma_fixed_entries(f, e, JsonEntry::Static(j as usize), f.static_keys@[j]@);
    assert(p[a.len() + j] == (f.static_keys@[j]@, JsonEntry::Static(j as usize)));
    assert forall|i: int| 0 <= i < p.len() && (#[trigger] p[i]).1 == JsonEntry::Static(j as usize) implies p[i].0 == f.static_keys@[j]@ by {
        if i < a.len() {
            assert(p[i] == a[i]);
            assert(has_entry(a, JsonEntry::Static(j as usize)));
        } else {
            let m = i - a.len();
            assert(0 <= m < f.static_keys@.len());
            assert(p[i] == (f.static_keys@[m]@, JsonEntry::Static(m as usize)));
            assert(m as usize == j as usize);
            assert(m == j);
        }
    }
}

} // verus!
