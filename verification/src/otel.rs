//! Spans of the tracing back end. A live span is a record of what was asked
//! of the back end together with the back end's own handle; every change is
//! made to both. What the back end does with a span is not known here.

use crate::record::{
    attribute_views, integer_attribute, text_attribute, Attribute, AttributeValue, AttributeView,
    SpanKind, SpanRecord, SpanView,
};
use opentelemetry::global::BoxedSpan;
use opentelemetry::global::BoxedTracer;
use opentelemetry::trace::Span;
use opentelemetry::trace::SpanBuilder;
use opentelemetry::trace::SpanContext;
use opentelemetry::trace::Status;
use opentelemetry::trace::TraceContextExt;
use opentelemetry::trace::Tracer;
use opentelemetry::Context;
use opentelemetry::KeyValue;
use vstd::prelude::*;

verus! {

#[verifier::external_type_specification]
#[verifier::external_body]
pub struct ExBoxedTracer(opentelemetry::global::BoxedTracer);

#[verifier::external_type_specification]
#[verifier::external_body]
pub struct ExBoxedSpan(opentelemetry::global::BoxedSpan);

#[verifier::external_type_specification]
#[verifier::external_body]
pub struct ExSpanContext(opentelemetry::trace::SpanContext);

#[verifier::external_type_specification]
#[verifier::external_body]
pub struct ExSpanBuilder(opentelemetry::trace::SpanBuilder);

#[verifier::external_type_specification]
#[verifier::external_body]
pub struct ExKeyValue(opentelemetry::KeyValue);

/// The key and value that a `KeyValue` holds.
pub uninterp spec fn held(kv: KeyValue) -> AttributeView;

/// `KeyValue::new` with a fixed key and an owned string.
#[verifier::external_body]
fn text_pair(key: &'static str, value: String) -> (r: KeyValue)
    ensures
        held(r) == text_attribute(key@, value@),
{
    KeyValue::new(key, value)
}

/// `KeyValue::new` with a fixed key and an integer.
#[verifier::external_body]
fn integer_pair(key: &'static str, value: i64) -> (r: KeyValue)
    ensures
        held(r) == integer_attribute(key@, value),
{
    KeyValue::new(key, value)
}

/// `Tracer::span_builder`, `SpanBuilder::with_kind` with `SpanKind::Internal`,
/// and `SpanBuilder::with_attributes`: a description of an internal span.
#[verifier::external_body]
fn describe_internal(tracer: &BoxedTracer, name: String, attributes: Vec<KeyValue>) -> SpanBuilder {
    tracer.span_builder(name).with_kind(opentelemetry::trace::SpanKind::Internal).with_attributes(
        attributes,
    )
}

/// `Tracer::span_builder`, `SpanBuilder::with_kind` with `SpanKind::Client`,
/// and `SpanBuilder::with_attributes`: a description of a client span.
#[verifier::external_body]
fn describe_client(tracer: &BoxedTracer, name: String, attributes: Vec<KeyValue>) -> SpanBuilder {
    tracer.span_builder(name).with_kind(opentelemetry::trace::SpanKind::Client).with_attributes(
        attributes,
    )
}

/// `SpanBuilder::start`: starts the span under the thread's current context.
#[verifier::external_body]
fn start(tracer: &BoxedTracer, builder: SpanBuilder) -> BoxedSpan {
    builder.start(tracer)
}

/// `SpanBuilder::start_with_context`, in a fresh context that holds `parent`
/// as a remote span context: starts the span as a child of `parent`.
#[verifier::external_body]
fn start_under(tracer: &BoxedTracer, builder: SpanBuilder, parent: &SpanContext) -> BoxedSpan {
    builder.start_with_context(tracer, &Context::new().with_remote_span_context(parent.clone()))
}

/// `Span::span_context`, cloned.
#[verifier::external_body]
fn context_of(span: &BoxedSpan) -> SpanContext {
    span.span_context().clone()
}

/// `Span::set_attribute`.
#[verifier::external_body]
fn set_attribute(span: &mut BoxedSpan, attribute: KeyValue) {
    span.set_attribute(attribute)
}

/// `Span::set_status` with `Status::error`.
#[verifier::external_body]
fn set_error(span: &mut BoxedSpan, message: String) {
    span.set_status(Status::error(message))
}

/// `Span::end`.
#[verifier::external_body]
fn end(span: BoxedSpan) {
    let mut span = span;
    span.end()
}

/// The `KeyValue` that says what an attribute says.
fn key_value(a: &Attribute) -> (r: KeyValue)
    ensures
        held(r) == a@,
{
    match &a.value {
        AttributeValue::Text(s) => text_pair(a.key, s.clone()),
        AttributeValue::Integer(n) => integer_pair(a.key, *n),
    }
}

/// The `KeyValue`s that say what a list of attributes says.
fn key_values(attributes: &Vec<Attribute>) -> (r: Vec<KeyValue>)
    ensures
        r@.map_values(|kv: KeyValue| held(kv)) == attribute_views(attributes@),
{
    let mut out: Vec<KeyValue> = Vec::new();
    let mut i: usize = 0;
    while i < attributes.len()
        invariant
            i <= attributes.len(),
            out@.map_values(|kv: KeyValue| held(kv)) == attribute_views(attributes@.take(i as int)),
        decreases attributes.len() - i,
    {
        let ghost before = out@;
        out.push(key_value(&attributes[i]));
        assert(attributes@.take(i + 1) =~= attributes@.take(i as int).push(attributes@[i as int]));
        assert(out@.map_values(|kv: KeyValue| held(kv)) =~= before.map_values(
            |kv: KeyValue| held(kv),
        ).push(attributes@[i as int]@));
        assert(attribute_views(attributes@.take(i + 1)) =~= attribute_views(
            attributes@.take(i as int),
        ).push(attributes@[i as int]@));
        i += 1;
    }
    assert(attributes@.take(attributes.len() as int) =~= attributes@);
    out
}

/// A reference to a span for use as a parent: its number and the back end's
/// context for it, captured when it was started.
pub struct SpanLink {
    id: u64,
    context: SpanContext,
}

impl View for SpanLink {
    type V = u64;

    closed spec fn view(&self) -> u64 {
        self.id
    }
}

/// The number of the span behind a link that may be absent.
pub open spec fn link_view(link: Option<SpanLink>) -> Option<u64> {
    match link {
        Some(link) => Some(link@),
        None => None,
    }
}

/// A span that has been started and not yet ended.
pub struct LiveSpan {
    record: SpanRecord,
    handle: BoxedSpan,
}

impl View for LiveSpan {
    type V = SpanView;

    closed spec fn view(&self) -> SpanView {
        self.record@
    }
}

/// The span that may be absent, as a record.
pub open spec fn live_view(span: Option<LiveSpan>) -> Option<SpanView> {
    match span {
        Some(span) => Some(span@),
        None => None,
    }
}

impl LiveSpan {
    /// Starts span number `id`, under `parent` where one is given.
    pub fn start(
        tracer: &BoxedTracer,
        id: u64,
        parent: Option<&SpanLink>,
        name: String,
        kind: SpanKind,
        attributes: Vec<Attribute>,
    ) -> (r: LiveSpan)
        ensures
            r@ == (SpanView {
                id,
                parent: match parent {
                    Some(p) => Some(p@),
                    None => None,
                },
                name: name@,
                kind,
                attributes: attribute_views(attributes@),
                error: None,
            }),
    {
        let builder = match kind {
            SpanKind::Internal => describe_internal(tracer, name.clone(), key_values(&attributes)),
            SpanKind::Client => describe_client(tracer, name.clone(), key_values(&attributes)),
        };
        match parent {
            Some(p) => LiveSpan {
                record: SpanRecord { id, parent: Some(p.id), name, kind, attributes, error: None },
                handle: start_under(tracer, builder, &p.context),
            },
            None => LiveSpan {
                record: SpanRecord { id, parent: None, name, kind, attributes, error: None },
                handle: start(tracer, builder),
            },
        }
    }

    /// A link to this span for the spans that are started under it.
    pub fn link(&self) -> (r: SpanLink)
        ensures
            r@ == self@.id,
    {
        SpanLink { id: self.record.id, context: context_of(&self.handle) }
    }

    /// Sets one more attribute.
    pub fn attach(&mut self, attribute: Attribute)
        ensures
            final(self)@ == old(self)@.with_attribute(attribute@),
    {
        set_attribute(&mut self.handle, key_value(&attribute));
        self.record.attributes.push(attribute);
        assert(self@.attributes =~= old(self)@.attributes.push(attribute@));
    }

    /// Sets more attributes, in their order.
    pub fn attach_all(&mut self, attributes: Vec<Attribute>)
        ensures
            final(self)@ == old(self)@.with_attributes(attribute_views(attributes@)),
    {
        let mut attributes = attributes;
        let ghost added = attributes@;
        let mut i: usize = 0;
        while i < attributes.len()
            invariant
                i <= attributes.len(),
                attributes@ == added,
                self.record == old(self).record,
            decreases attributes.len() - i,
        {
            set_attribute(&mut self.handle, key_value(&attributes[i]));
            i += 1;
        }
        self.record.attributes.append(&mut attributes);
        assert(self@.attributes =~= old(self)@.attributes + attribute_views(added));
    }

    /// Marks the span as failed, with a message.
    pub fn fail(&mut self, message: String)
        ensures
            final(self)@ == old(self)@.with_error(message@),
    {
        set_error(&mut self.handle, message.clone());
        self.record.error = Some(message);
    }

    /// Ends the span and hands out its record.
    pub fn finish(self) -> (r: SpanRecord)
        ensures
            r@ == self@,
    {
        end(self.handle);
        self.record
    }
}

} // verus!
