//! What the correlator reports: spans with their attributes and status, and
//! measurements for the two histograms. All of it is plain data.

use vstd::prelude::*;

verus! {

/// The role of a span in a trace.
#[derive(Debug, Clone, Copy, PartialEq, Eq, Structural)]
pub enum SpanKind {
    Internal,
    Client,
}

/// The value of an attribute.
#[derive(Debug, PartialEq, Eq)]
pub enum AttributeValue {
    Text(String),
    Integer(i64),
}

/// The value of an attribute over characters.
pub ghost enum Datum {
    Text(Seq<char>),
    Integer(i64),
}

impl View for AttributeValue {
    type V = Datum;

    open spec fn view(&self) -> Datum {
        match *self {
            AttributeValue::Text(s) => Datum::Text(s@),
            AttributeValue::Integer(n) => Datum::Integer(n),
        }
    }
}

/// A named value on a span.
#[derive(Debug, PartialEq, Eq)]
pub struct Attribute {
    pub key: &'static str,
    pub value: AttributeValue,
}

/// A named value over characters.
pub ghost struct AttributeView {
    pub key: Seq<char>,
    pub value: Datum,
}

impl View for Attribute {
    type V = AttributeView;

    open spec fn view(&self) -> AttributeView {
        AttributeView { key: self.key@, value: self.value@ }
    }
}

/// The attribute `key` with the text `value`.
pub open spec fn text_attribute(key: Seq<char>, value: Seq<char>) -> AttributeView {
    AttributeView { key, value: Datum::Text(value) }
}

/// The attribute `key` with the integer `value`.
pub open spec fn integer_attribute(key: Seq<char>, value: i64) -> AttributeView {
    AttributeView { key, value: Datum::Integer(value) }
}

impl Attribute {
    /// An attribute whose value is a text.
    pub fn text(key: &'static str, value: String) -> (r: Attribute)
        ensures
            r@ == text_attribute(key@, value@),
    {
        Attribute { key, value: AttributeValue::Text(value) }
    }

    /// An attribute whose value is a fixed text.
    pub fn label(key: &'static str, value: &'static str) -> (r: Attribute)
        ensures
            r@ == text_attribute(key@, value@),
    {
        Attribute { key, value: AttributeValue::Text(value.to_owned()) }
    }

    /// An attribute whose value is an integer.
    pub fn integer(key: &'static str, value: i64) -> (r: Attribute)
        ensures
            r@ == integer_attribute(key@, value),
    {
        Attribute { key, value: AttributeValue::Integer(value) }
    }
}

/// The attributes of a list over characters.
pub open spec fn attribute_views(attributes: Seq<Attribute>) -> Seq<AttributeView> {
    attributes.map_values(|a: Attribute| a@)
}

/// A span as it was reported: what it was started with, what was set on it,
/// and whether it was marked as failed. Spans are numbered in the order in
/// which they were started.
#[derive(Debug, PartialEq, Eq)]
pub struct SpanRecord {
    pub id: u64,
    pub parent: Option<u64>,
    pub name: String,
    pub kind: SpanKind,
    pub attributes: Vec<Attribute>,
    pub error: Option<String>,
}

/// A span over characters.
pub ghost struct SpanView {
    pub id: u64,
    pub parent: Option<u64>,
    pub name: Seq<char>,
    pub kind: SpanKind,
    pub attributes: Seq<AttributeView>,
    pub error: Option<Seq<char>>,
}

impl SpanView {
    /// The span with one more attribute.
    pub open spec fn with_attribute(self, a: AttributeView) -> SpanView {
        SpanView { attributes: self.attributes.push(a), ..self }
    }

    /// The span with more attributes.
    pub open spec fn with_attributes(self, more: Seq<AttributeView>) -> SpanView {
        SpanView { attributes: self.attributes + more, ..self }
    }

    /// The span marked as failed.
    pub open spec fn with_error(self, message: Seq<char>) -> SpanView {
        SpanView { error: Some(message), ..self }
    }

    /// How many of the span's attributes are named `key`.
    pub open spec fn count(self, key: Seq<char>) -> nat {
        occurrences(self.attributes, key)
    }
}

/// How many of the attributes are named `key`.
pub open spec fn occurrences(attributes: Seq<AttributeView>, key: Seq<char>) -> nat
    decreases attributes.len(),
{
    if attributes.len() == 0 {
        0
    } else {
        occurrences(attributes.drop_last(), key) + if attributes.last().key == key {
            1nat
        } else {
            0nat
        }
    }
}

/// The occurrences of a key in two lists add up in their concatenation.
pub proof fn occurrences_add(a: Seq<AttributeView>, b: Seq<AttributeView>, key: Seq<char>)
    ensures
        occurrences(a + b, key) == occurrences(a, key) + occurrences(b, key),
    decreases b.len(),
{
    if b.len() == 0 {
        assert(a + b =~= a);
    } else {
        assert((a + b).drop_last() =~= a + b.drop_last());
        occurrences_add(a, b.drop_last(), key);
    }
}

/// A key that names none of the attributes occurs zero times.
pub proof fn occurrences_none(a: Seq<AttributeView>, key: Seq<char>)
    requires
        forall|i: int| 0 <= i < a.len() ==> a[i].key != key,
    ensures
        occurrences(a, key) == 0,
    decreases a.len(),
{
    if a.len() > 0 {
        occurrences_none(a.drop_last(), key);
    }
}

/// The characters of a text that may be absent.
pub open spec fn text_view(s: Option<String>) -> Option<Seq<char>> {
    match s {
        Some(s) => Some(s@),
        None => None,
    }
}

impl View for SpanRecord {
    type V = SpanView;

    open spec fn view(&self) -> SpanView {
        SpanView {
            id: self.id,
            parent: self.parent,
            name: self.name@,
            kind: self.kind,
            attributes: attribute_views(self.attributes@),
            error: text_view(self.error),
        }
    }
}

/// The histogram that a measurement belongs to.
#[derive(Debug, Clone, Copy, PartialEq, Eq, Structural)]
pub enum Instrument {
    OperationDuration,
    TimeToFirstToken,
}

/// One value for a histogram, in nanoseconds, tagged by an operation name.
#[derive(Debug, PartialEq, Eq)]
pub struct Measurement {
    pub instrument: Instrument,
    pub nanos: u64,
    pub operation: &'static str,
}

/// A measurement over characters.
pub ghost struct MeasurementView {
    pub instrument: Instrument,
    pub nanos: u64,
    pub operation: Seq<char>,
}

impl View for Measurement {
    type V = MeasurementView;

    open spec fn view(&self) -> MeasurementView {
        MeasurementView {
            instrument: self.instrument,
            nanos: self.nanos,
            operation: self.operation@,
        }
    }
}

/// What one step produced: the spans that it closed, in the order in which
/// they ended, and the measurements that it took.
#[derive(Debug, PartialEq, Eq)]
pub struct Telemetry {
    pub closed: Vec<SpanRecord>,
    pub measurements: Vec<Measurement>,
}

/// What one step produced, over characters.
pub ghost struct TelemetryView {
    pub closed: Seq<SpanView>,
    pub measurements: Seq<MeasurementView>,
}

impl TelemetryView {
    /// Nothing closed, nothing measured.
    pub open spec fn nothing() -> TelemetryView {
        TelemetryView { closed: seq![], measurements: seq![] }
    }

    /// What `self` holds, followed by one more closed span.
    pub open spec fn closing(self, span: SpanView) -> TelemetryView {
        TelemetryView { closed: self.closed.push(span), ..self }
    }

    /// What `self` holds, followed by a closed span where there is one.
    pub open spec fn closing_any(self, span: Option<SpanView>) -> TelemetryView {
        match span {
            Some(span) => self.closing(span),
            None => self,
        }
    }

    /// What `self` holds, followed by one more measurement.
    pub open spec fn measuring(self, m: MeasurementView) -> TelemetryView {
        TelemetryView { measurements: self.measurements.push(m), ..self }
    }

    /// What `self` holds, followed by what `next` holds.
    pub open spec fn then_all(self, next: TelemetryView) -> TelemetryView {
        TelemetryView {
            closed: self.closed + next.closed,
            measurements: self.measurements + next.measurements,
        }
    }
}

/// Adding what a step reported to nothing gives what the step reported, and
/// adding a span that may be absent is adding the list of it.
pub proof fn telemetry_adds(before: TelemetryView, span: Option<SpanView>)
    ensures
        before.then_all(TelemetryView::nothing().closing_any(span)) == before.closing_any(span),
        before.then_all(TelemetryView::nothing()) == before,
        TelemetryView::nothing().then_all(before) == before,
{
    let piece = TelemetryView::nothing().closing_any(span);
    assert(before.then_all(piece).closed =~= before.closing_any(span).closed);
    assert(before.then_all(piece).measurements =~= before.closing_any(span).measurements);
    assert(before.then_all(TelemetryView::nothing()).closed =~= before.closed);
    assert(before.then_all(TelemetryView::nothing()).measurements =~= before.measurements);
    assert(TelemetryView::nothing().then_all(before).closed =~= before.closed);
    assert(TelemetryView::nothing().then_all(before).measurements =~= before.measurements);
}

impl View for Telemetry {
    type V = TelemetryView;

    open spec fn view(&self) -> TelemetryView {
        TelemetryView {
            closed: self.closed@.map_values(|s: SpanRecord| s@),
            measurements: self.measurements@.map_values(|m: Measurement| m@),
        }
    }
}

impl Telemetry {
    /// Nothing closed, nothing measured.
    pub fn new() -> (r: Telemetry)
        ensures
            r@ == TelemetryView::nothing(),
    {
        let r = Telemetry { closed: Vec::new(), measurements: Vec::new() };
        assert(r@.closed =~= seq![]);
        assert(r@.measurements =~= seq![]);
        r
    }

    /// Adds a closed span.
    pub fn close(&mut self, span: SpanRecord)
        ensures
            final(self)@ == old(self)@.closing(span@),
    {
        self.closed.push(span);
        assert(self@.closed =~= old(self)@.closed.push(span@));
    }

    /// Adds a measurement.
    pub fn measure(&mut self, instrument: Instrument, nanos: u64, operation: &'static str)
        ensures
            final(self)@ == old(self)@.measuring(
                MeasurementView { instrument, nanos, operation: operation@ },
            ),
    {
        let m = Measurement { instrument, nanos, operation };
        self.measurements.push(m);
        assert(self@.measurements =~= old(self)@.measurements.push(m@));
    }
}

} // verus!
