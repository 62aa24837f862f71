//! Markup events, as plain values, and the reader that hands them out.
//!
//! The document is tokenised by `quick_xml`. What this module states of it is
//! believed, not proved: see `open_reader` and `next_event`.

use vstd::prelude::*;
use quick_xml::events::{BytesStart, Event};
use quick_xml::Reader;

verus! {

/// One attribute of an element: its key and its raw value, as the bytes
/// between the quotes.
#[derive(Debug, PartialEq, Eq)]
pub struct XmlAttribute {
    pub key: Vec<u8>,
    pub value: Vec<u8>,
}

/// An `XmlAttribute` in specifications.
pub struct XmlAttributeView {
    pub key: Seq<u8>,
    pub value: Seq<u8>,
}

impl View for XmlAttribute {
    type V = XmlAttributeView;

    open spec fn view(&self) -> XmlAttributeView {
        XmlAttributeView { key: self.key@, value: self.value@ }
    }
}

/// The name of an element and its attributes in the order of the document.
/// `None` stands where an attribute is not well-formed markup.
#[derive(Debug, PartialEq, Eq)]
pub struct XmlElement {
    pub name: Vec<u8>,
    pub attributes: Vec<Option<XmlAttribute>>,
}

/// An `XmlElement` in specifications.
pub struct XmlElementView {
    pub name: Seq<u8>,
    pub attributes: Seq<Option<XmlAttributeView>>,
}

/// An attribute that may be malformed, in specifications.
pub open spec fn attribute_view(attribute: Option<XmlAttribute>) -> Option<XmlAttributeView> {
    match attribute {
        Some(a) => Some(a@),
        None => None,
    }
}

/// The attributes of an element in specifications, in their order.
pub open spec fn attribute_views(attributes: Seq<Option<XmlAttribute>>) -> Seq<
    Option<XmlAttributeView>,
> {
    Seq::new(attributes.len(), |i: int| attribute_view(attributes[i]))
}

impl View for XmlElement {
    type V = XmlElementView;

    open spec fn view(&self) -> XmlElementView {
        XmlElementView { name: self.name@, attributes: attribute_views(self.attributes@) }
    }
}

/// What a reader hands out, one at a time.
#[derive(Debug, PartialEq, Eq)]
pub enum XmlEvent {
    /// The start tag of an element that has an end tag.
    Start(XmlElement),
    /// An element that closes itself.
    Empty(XmlElement),
    /// An end tag, with the name of the element.
    End(Vec<u8>),
    /// The end of the document.
    Eof,
    /// Text, a comment, a declaration, or anything else that is no element.
    Other,
}

/// An `XmlEvent` in specifications.
pub enum XmlEventView {
    Start(XmlElementView),
    Empty(XmlElementView),
    End(Seq<u8>),
    Eof,
    Other,
}

impl View for XmlEvent {
    type V = XmlEventView;

    open spec fn view(&self) -> XmlEventView {
        match self {
            XmlEvent::Start(element) => XmlEventView::Start(element@),
            XmlEvent::Empty(element) => XmlEventView::Empty(element@),
            XmlEvent::End(name) => XmlEventView::End(name@),
            XmlEvent::Eof => XmlEventView::Eof,
            XmlEvent::Other => XmlEventView::Other,
        }
    }
}

/// `quick_xml::Reader`, of which nothing is known but what `pending` names.
#[verifier::external_type_specification]
#[verifier::external_body]
#[verifier::reject_recursive_types(R)]
pub struct ExReader<R>(Reader<R>);

/// `quick_xml::Error`, of which nothing is read.
#[verifier::external_type_specification]
#[verifier::external_body]
pub struct ExMarkupError(quick_xml::Error);

/// The events that `quick_xml` reads from a document, with surrounding
/// whitespace of text trimmed, up to its end or to the first place where the
/// markup is broken. `None` stands for that place.
pub uninterp spec fn events_of(document: Seq<char>) -> Seq<Option<XmlEventView>>;

/// The events that a reader has yet to hand out before it reports the end of
/// its document.
pub uninterp spec fn pending(reader: Reader<&[u8]>) -> Seq<Option<XmlEventView>>;

/// `Reader::from_str`, then `trim_text(true)`: a reader at the start of the
/// document, which will hand out the document's events.
#[verifier::external_body]
pub(crate) fn open_reader<'a>(document: &'a str) -> (reader: Reader<&'a [u8]>)
    ensures
        pending(reader) == events_of(document@),
{
    let mut reader = Reader::from_str(document);
    reader.trim_text(true);
    reader
}

/// `Reader::read_event`, with the event copied into plain values
/// (`BytesStart::name`, `BytesStart::attributes`, `BytesEnd::name`): the
/// reader hands out the first of its pending events and keeps the rest. It
/// fails where the markup is broken. With nothing pending it reports the end
/// of the document, and does so again whenever it is asked.
#[verifier::external_body]
pub(crate) fn next_event<'a>(reader: &mut Reader<&'a [u8]>) -> (r: Result<XmlEvent, quick_xml::Error>)
    ensures
        pending(*old(reader)).len() == 0 ==> pending(*final(reader)).len() == 0 && (r matches Ok(
            event,
        ) && event@ == XmlEventView::Eof),
        pending(*old(reader)).len() > 0 ==> pending(*final(reader)) == pending(
            *old(reader),
        ).drop_first() && match pending(*old(reader))[0] {
            Some(expected) => r matches Ok(event) && event@ == expected,
            None => r is Err,
        },
{
    let element = |e: BytesStart| XmlElement {
        name: e.name().into_inner().to_vec(),
        attributes: e.attributes().map(|a| a.ok().map(|a| XmlAttribute {
            key: a.key.into_inner().to_vec(),
            value: a.value.into_owned(),
        })).collect(),
    };
    Ok(match reader.read_event()? {
        Event::Start(e) => XmlEvent::Start(element(e)),
        Event::Empty(e) => XmlEvent::Empty(element(e)),
        Event::End(e) => XmlEvent::End(e.name().into_inner().to_vec()),
        Event::Eof => XmlEvent::Eof,
        _ => XmlEvent::Other,
    })
}

} // verus!
