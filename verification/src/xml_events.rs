//! The event stream of an XML document.

use crate::filtering::lemma_filter_push;
use serde_xml_rs::{EventReader, ParserConfig};
use vstd::prelude::*;
use xml::reader::XmlEvent;

verus! {

/// `xml::reader::XmlEvent`: an event as the reader hands it out. Nothing is
/// known of what it holds until [`token_of`] has taken it apart.
#[verifier::external_type_specification]
#[verifier::external_body]
pub struct ExXmlEvent(XmlEvent);

/// One event of a document, with what the binding reads of it.
#[derive(Clone, Debug, PartialEq, Eq)]
pub enum XmlToken {
    /// The start of the document, with or without an XML declaration.
    StartDocument,
    /// The end of the document.
    EndDocument,
    /// A processing instruction.
    ProcessingInstruction,
    /// A start tag, or the first half of an empty-element tag: its local
    /// name and its attributes, each a local name and a value, in document
    /// order.
    StartElement { name: String, attributes: Vec<(String, String)> },
    /// An end tag, or the second half of an empty-element tag.
    EndElement,
    /// A CDATA section that the reader did not turn into character data.
    CData,
    /// A comment.
    Comment,
    /// Character data between tags, with references resolved.
    Characters(String),
    /// White space between tags.
    Whitespace,
}

/// The events that `xml::reader::EventReader` reads from `bytes`, from the
/// first up to the end of the document, or `None` where it reports an error
/// before that. The reader trims character data, hands out white space and
/// CDATA sections as character data, joins neighbouring character data and
/// leaves comments out.
pub uninterp spec fn xml_events(bytes: Seq<u8>) -> Option<Seq<XmlEvent>>;

/// The token that stands for `event`: its kind and, for a start tag and for
/// character data, what it holds.
pub uninterp spec fn event_token(event: XmlEvent) -> XmlToken;

/// Runs `xml::reader::EventReader` over `bytes`, with the parser
/// configuration that `serde_xml_rs` reads documents with, and collects
/// what its iterator yields. The result is taken to depend on `bytes`
/// alone; nothing is claimed of the events themselves.
#[verifier::external_body]
fn read_events(bytes: &[u8]) -> (events: Option<Vec<XmlEvent>>)
    ensures
        match events {
            Some(v) => xml_events(bytes@) == Some(v@),
            None => xml_events(bytes@) is None,
        },
{
    let config = ParserConfig::new()
        .trim_whitespace(true)
        .whitespace_to_characters(true)
        .cdata_to_characters(true)
        .ignore_comments(true)
        .coalesce_characters(true);
    EventReader::new_with_config(bytes, config).into_iter().collect::<Result<Vec<_>, _>>().ok()
}

/// Takes an `xml::reader::XmlEvent` apart: one token for each of its
/// variants, with the local name and the attributes of a start tag and the
/// text of character data moved over. The result is taken to depend on the
/// event alone.
#[verifier::external_body]
fn token_of(event: XmlEvent) -> (token: XmlToken)
    ensures
        token == event_token(event),
{
    match event {
        XmlEvent::StartDocument { .. } => XmlToken::StartDocument,
        XmlEvent::EndDocument => XmlToken::EndDocument,
        XmlEvent::ProcessingInstruction { .. } => XmlToken::ProcessingInstruction,
        XmlEvent::StartElement { name, attributes, .. } => XmlToken::StartElement {
            name: name.local_name,
            attributes: attributes.into_iter().map(|a| (a.name.local_name, a.value)).collect(),
        },
        XmlEvent::EndElement { .. } => XmlToken::EndElement,
        XmlEvent::CData(_) => XmlToken::CData,
        XmlEvent::Comment(_) => XmlToken::Comment,
        XmlEvent::Characters(text) => XmlToken::Characters(text),
        XmlEvent::Whitespace(_) => XmlToken::Whitespace,
    }
}

/// Whether the binding looks at `token`: the document's start, processing
/// instructions, comments and white space between tags are passed over.
pub open spec fn is_significant(token: XmlToken) -> bool {
    !(token is StartDocument || token is ProcessingInstruction || token is Whitespace
        || token is Comment)
}

/// The significant tokens of the document in `bytes`, in document order.
pub open spec fn xml_tokens(bytes: Seq<u8>) -> Option<Seq<XmlToken>> {
    match xml_events(bytes) {
        Some(events) => Some(
            events.map_values(|e: XmlEvent| event_token(e)).filter(
                |t: XmlToken| is_significant(t),
            ),
        ),
        None => None,
    }
}

/// Reads the document in `bytes` into its significant tokens.
pub fn tokenize(bytes: &[u8]) -> (tokens: Option<Vec<XmlToken>>)
    ensures
        match tokens {
            Some(v) => xml_tokens(bytes@) == Some(v@),
            None => xml_tokens(bytes@) is None,
        },
{
    match read_events(bytes) {
        None => None,
        Some(events) => {
            let ghost all = events@.map_values(|e: XmlEvent| event_token(e));
            let ghost keep = |t: XmlToken| is_significant(t);
            let mut tokens: Vec<XmlToken> = Vec::new();
            for event in it: events
                invariant
                    it.seq().map_values(|e: XmlEvent| event_token(e)) == all,
                    keep == |t: XmlToken| is_significant(t),
                    tokens@ == all.take(it.index() as int).filter(keep),
            {
                let token = token_of(event);
                proof {
                    let i = it.index() as int;
                    assert(all.take(i + 1) =~= all.take(i).push(token));
                    lemma_filter_push(all.take(i), token, keep);
                }
                match token {
                    XmlToken::StartDocument
                    | XmlToken::ProcessingInstruction
                    | XmlToken::Whitespace
                    | XmlToken::Comment => {},
                    _ => {
                        tokens.push(token);
                    },
                }
            }
            assert(all.take(all.len() as int) =~= all);
            Some(tokens)
        },
    }
}

} // verus!
