//! The token alphabet of the event source, and the errors with which a run
//! can end.
//!
//! The event source — whatever turns bytes into XML tokens — lives outside
//! this crate. It hands the extractor a finite, single-pass sequence of
//! [`Event`] values; a fault of the source itself arrives in-band as
//! [`Event::SourceError`].

use vstd::prelude::*;

verus! {

/// Model of a [`SourceFault`].
pub enum FaultModel {
    Io(Seq<char>),
    Framing(Seq<char>),
}

/// Model of an [`Event`].
pub enum EventModel {
    Start(Seq<char>),
    End(Seq<char>),
    Chars(Seq<char>),
    Fault(FaultModel),
}

/// Model of a [`ParseError`].
pub enum ErrorModel {
    Io(Seq<char>),
    Framing(Seq<char>),
    FieldDecode { record: Seq<char>, field: Seq<char>, raw: Seq<char> },
    Unterminated,
}

/// A fault reported by the event source: either the underlying byte stream
/// failed, or the document is not well-formed XML.
#[derive(Debug)]
pub enum SourceFault {
    Io(String),
    Framing(String),
}

/// One token of the event source. Element names are local names; other
/// token kinds of a concrete source (comments, processing instructions)
/// are not part of the alphabet and never reach the extractor.
#[derive(Debug)]
pub enum Event {
    /// An element opens, carrying its local name.
    StartElement(String),
    /// An element closes, carrying its local name.
    EndElement(String),
    /// Character data inside the current element.
    Characters(String),
    /// The source itself failed; the run aborts.
    SourceError(SourceFault),
}

/// Why a run ended before the source was exhausted, or — for
/// [`ParseError::UnterminatedRecord`] — why an exhausted source still does
/// not make a successful run.
#[derive(Debug)]
pub enum ParseError {
    /// The source failed reading the underlying byte stream.
    IoError(String),
    /// The source reported malformed XML.
    XmlFramingError(String),
    /// The text of a field cannot be decoded into the field's target type.
    FieldDecodeError { record: String, field: String, raw: String },
    /// The source ended while a record was still open.
    UnterminatedRecord,
}

impl View for SourceFault {
    type V = FaultModel;

    open spec fn view(&self) -> FaultModel {
        match self {
            SourceFault::Io(c) => FaultModel::Io(c@),
            SourceFault::Framing(c) => FaultModel::Framing(c@),
        }
    }
}

impl View for Event {
    type V = EventModel;

    open spec fn view(&self) -> EventModel {
        match self {
            Event::StartElement(n) => EventModel::Start(n@),
            Event::EndElement(n) => EventModel::End(n@),
            Event::Characters(t) => EventModel::Chars(t@),
            Event::SourceError(f) => EventModel::Fault(f@),
        }
    }
}

impl View for ParseError {
    type V = ErrorModel;

    open spec fn view(&self) -> ErrorModel {
        match self {
            ParseError::IoError(c) => ErrorModel::Io(c@),
            ParseError::XmlFramingError(c) => ErrorModel::Framing(c@),
            ParseError::FieldDecodeError { record, field, raw } => ErrorModel::FieldDecode {
                record: record@,
                field: field@,
                raw: raw@,
            },
            ParseError::UnterminatedRecord => ErrorModel::Unterminated,
        }
    }
}

} // verus!
