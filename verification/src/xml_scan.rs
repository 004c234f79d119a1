//! The XML events that `quick_xml`'s reader yields, as the library reads them.
//!
//! `quick_xml` does the tokenising.  Its output is a deterministic function of
//! the text, named here `xml_events`: the sequence of events a reader made by
//! `Reader::from_str` returns, up to and including the first end-of-file or
//! error.  Each event carries its kind, the element name for start, end and
//! empty-element tags (empty otherwise) and the reader's byte position right
//! after the event.
use vstd::prelude::*;
use quick_xml::events::Event;
use quick_xml::Reader;

verus! {

#[verifier::external_type_specification]
#[verifier::external_body]
#[verifier::reject_recursive_types(R)]
pub struct ExXmlReader<R>(Reader<R>);

/// The kinds of event the library tells apart.
#[derive(Debug, Clone, Copy, PartialEq, Eq, Structural)]
pub enum XmlEventKind {
    Start,
    End,
    Empty,
    Eof,
    Error,
    Other,
}

/// One event: its kind and, for start, end and empty-element tags, the
/// element's name.
#[derive(Debug)]
pub struct XmlEvent {
    pub kind: XmlEventKind,
    pub name: String,
}

/// An event as the contracts see it: kind, name and the byte position of the
/// reader just after the event.
pub type EventModel = (XmlEventKind, Seq<char>, u64);

/// The events `quick_xml` yields for a text, through the first end-of-file or
/// error.
pub uninterp spec fn xml_events(text: Seq<char>) -> Seq<EventModel>;

/// The events a reader has still to yield.
pub uninterp spec fn pending_events(r: Reader<&[u8]>) -> Seq<EventModel>;

/// The reader's byte position (`Reader::buffer_position`).
pub uninterp spec fn reader_offset(r: Reader<&[u8]>) -> u64;

/// Whether an event ends the stream.
pub open spec fn is_final(k: XmlEventKind) -> bool {
    k == XmlEventKind::Eof || k == XmlEventKind::Error
}

/// The shape of every event stream: at least one event, the last one final
/// and no other, and no more events than the text has characters plus one
/// (every event before the last consumes input).
pub open spec fn stream_shape(evs: Seq<EventModel>, text_len: nat) -> bool {
    &&& 0 < evs.len() <= text_len + 1
    &&& is_final(evs.last().0)
    &&& forall|i: int| 0 <= i < evs.len() - 1 ==> !is_final(#[trigger] evs[i].0)
}

/// `Reader::from_str`: a reader at position 0 whose pending events are those
/// of the text.
#[verifier::external_body]
pub fn reader_from_str(s: &str) -> (r: Reader<&[u8]>)
    ensures
        pending_events(r) == xml_events(s@),
        reader_offset(r) == 0,
        stream_shape(pending_events(r), s@.len()),
{
    Reader::from_str(s)
}

/// `Reader::read_event`: yields the first pending event and moves the reader
/// past it.
#[verifier::external_body]
pub fn read_event(r: &mut Reader<&[u8]>) -> (ev: XmlEvent)
    requires
        pending_events(*old(r)).len() > 0,
    ensures
        ev.kind == pending_events(*old(r))[0].0,
        ev.name@ == pending_events(*old(r))[0].1,
        pending_events(*final(r)) == pending_events(*old(r)).drop_first(),
        reader_offset(*final(r)) == pending_events(*old(r))[0].2,
{
    match r.read_event() {
        Ok(Event::Start(e)) => XmlEvent { kind: XmlEventKind::Start, name: e.name().0.to_string() },
        Ok(Event::End(e)) => XmlEvent { kind: XmlEventKind::End, name: e.name().0.to_string() },
        Ok(Event::Empty(e)) => XmlEvent { kind: XmlEventKind::Empty, name: e.name().0.to_string() },
        Ok(Event::Eof) => XmlEvent { kind: XmlEventKind::Eof, name: String::new() },
        Ok(_) => XmlEvent { kind: XmlEventKind::Other, name: String::new() },
        Err(_) => XmlEvent { kind: XmlEventKind::Error, name: String::new() },
    }
}

/// `Reader::buffer_position`.
#[verifier::external_body]
pub fn buffer_position(r: &Reader<&[u8]>) -> (p: u64)
    ensures
        p == reader_offset(*r),
{
    r.buffer_position()
}

} // verus!
