//! Extracting records straight from an in-memory XML document.
//!
//! Tokenising bytes into events is the `xml` crate's work; what the token
//! sequence of a given document is, this library does not restate. The
//! sequence is a function of the bytes alone, so it gets a name,
//! [`tokens_of`], and everything after the tokeniser — the whole
//! extraction — is verified against that name.

use vstd::prelude::*;

use xml::reader::{ErrorKind, EventReader, XmlEvent};

use crate::events::{Event, EventModel, ParseError, SourceFault};
use crate::machine::state_init;
use crate::records::Rec;
use crate::runner::{event_views, rec_views, run, run_model};

verus! {

/// The event sequence the `xml` crate's pull parser produces for these
/// document bytes, restricted to the extractor's alphabet: element
/// openings and closings by local name, character data (plain, CDATA or
/// whitespace), and at most one trailing source fault.
pub uninterp spec fn tokens_of(bytes: Seq<u8>) -> Seq<EventModel>;

/// Relies on `xml::reader::EventReader`: pulled over an in-memory slice
/// it yields a finite token sequence determined by the bytes alone, and
/// stops after reporting an error.
#[verifier::external_body]
fn tokenize(bytes: &Vec<u8>) -> (r: Vec<Event>)
    ensures
        event_views(r@) == tokens_of(bytes@),
{
    let mut out = Vec::new();
    for item in EventReader::new(bytes.as_slice()) {
        match item {
            Ok(XmlEvent::StartElement { name, .. }) => out.push(Event::StartElement(name.local_name)),
            Ok(XmlEvent::EndElement { name }) => out.push(Event::EndElement(name.local_name)),
            Ok(XmlEvent::Characters(t) | XmlEvent::CData(t) | XmlEvent::Whitespace(t)) => out.push(Event::Characters(t)),
            Ok(_) => {}
            Err(e) => out.push(Event::SourceError(match e.kind() {
                ErrorKind::Io(cause) => SourceFault::Io(cause.to_string()),
                _ => SourceFault::Framing(e.to_string()),
            })),
        }
    }
    out
}

/// Extract every record of an in-memory XML document: tokenise the bytes
/// with the `xml` crate, then run the extractor over the tokens. The
/// result is exactly what [`run_model`] yields on the document's token
/// sequence.
pub fn extract_from_bytes(bytes: &Vec<u8>) -> (r: Result<Vec<Rec>, ParseError>)
    ensures
        ({
            let m = run_model(state_init(), tokens_of(bytes@));
            match r {
                Ok(v) => m.1 is None && rec_views(v@) == m.0,
                Err(e) => m.1 matches Some(em) && e@ == em,
            }
        }),
{
    let events = tokenize(bytes);
    run(&events)
}

} // verus!
