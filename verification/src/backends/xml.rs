//! Writing XML: the markup that the SVG backend emits, and the writer of the
//! `quick_xml` crate that emits it.
//!
//! The writer is made with an indentation of two spaces. What it has written
//! is described by an [`XmlDocument`]: the bytes in its sink, the width of
//! its current indentation, and whether its next markup starts a new line.

use vstd::prelude::*;
use vstd::utf8::encode_utf8;
use quick_xml::events::BytesDecl;
use quick_xml::events::BytesEnd;
use quick_xml::events::BytesStart;
use quick_xml::events::BytesText;
use quick_xml::events::Event;
use quick_xml::Writer;

verus! {

#[verifier::external_type_specification]
#[verifier::external_body]
#[verifier::reject_recursive_types(W)]
pub struct ExWriter<W>(Writer<W>);

/// The bytes in the sink of a writer that [`xml_writer_new`] made.
///
/// Everything that this module says of a writer it says of one that
/// `xml_writer_new` made: one that indents with two spaces to a level and
/// puts no space before the slash of an empty element. No other writer
/// reaches the functions of this module: they are not public, and the
/// canvas that holds a writer makes it by `xml_writer_new` and lets nobody
/// at it.
pub uninterp spec fn xml_written(w: Writer<Vec<u8>>) -> Seq<u8>;

/// The width of the current indentation, in characters, of a writer that
/// [`xml_writer_new`] made.
pub uninterp spec fn xml_indent(w: Writer<Vec<u8>>) -> nat;

/// Whether a writer that [`xml_writer_new`] made starts its next markup on
/// a new line.
pub uninterp spec fn xml_breaks(w: Writer<Vec<u8>>) -> bool;

/// An attribute of an element: its name, and its value before escaping.
#[derive(Debug)]
pub struct XmlAttribute {
    pub name: String,
    pub value: String,
}

/// An [`XmlAttribute`] as a value of specifications.
pub struct XmlAttributeView {
    pub name: Seq<char>,
    pub value: Seq<char>,
}

impl View for XmlAttribute {
    type V = XmlAttributeView;

    open spec fn view(&self) -> XmlAttributeView {
        XmlAttributeView { name: self.name@, value: self.value@ }
    }
}

/// Attributes as values of specifications, in their order.
pub open spec fn attributes_view(attributes: Seq<XmlAttribute>) -> Seq<XmlAttributeView> {
    attributes.map_values(|attribute: XmlAttribute| attribute@)
}

/// What stands for `c` in the value of an attribute.
pub open spec fn escaped_attribute_char(c: char) -> Seq<char> {
    if c == '<' {
        seq!['&', 'l', 't', ';']
    } else if c == '>' {
        seq!['&', 'g', 't', ';']
    } else if c == '&' {
        seq!['&', 'a', 'm', 'p', ';']
    } else if c == '\'' {
        seq!['&', 'a', 'p', 'o', 's', ';']
    } else if c == '"' {
        seq!['&', 'q', 'u', 'o', 't', ';']
    } else if c == '\r' {
        seq!['&', '#', '1', '3', ';']
    } else if c == '\n' {
        seq!['&', '#', '1', '0', ';']
    } else if c == '\t' {
        seq!['&', '#', '9', ';']
    } else {
        seq![c]
    }
}

/// The value of an attribute as it is written: each character by what
/// stands for it.
pub open spec fn escaped_attribute(value: Seq<char>) -> Seq<char>
    decreases value.len(),
{
    if value.len() == 0 {
        Seq::empty()
    } else {
        escaped_attribute(value.drop_last()) + escaped_attribute_char(value.last())
    }
}

/// What stands for `c` in the text between tags.
pub open spec fn escaped_text_char(c: char) -> Seq<char> {
    if c == '\n' || c == '\t' {
        seq![c]
    } else {
        escaped_attribute_char(c)
    }
}

/// Text between tags as it is written: each character by what stands for it.
pub open spec fn escaped_text(text: Seq<char>) -> Seq<char>
    decreases text.len(),
{
    if text.len() == 0 {
        Seq::empty()
    } else {
        escaped_text(text.drop_last()) + escaped_text_char(text.last())
    }
}

/// The inside of a tag: the name of the element and, for each attribute, a
/// space, its name, an equals sign and its escaped value in double quotes.
pub open spec fn tag_text(name: Seq<char>, attributes: Seq<XmlAttributeView>) -> Seq<char>
    decreases attributes.len(),
{
    if attributes.len() == 0 {
        name
    } else {
        tag_text(name, attributes.drop_last()) + seq![' '] + attributes.last().name + seq![
            '=',
            '"',
        ] + escaped_attribute(attributes.last().value) + seq!['"']
    }
}

/// What an XML writer has written, and how it will go on.
pub struct XmlDocument {
    /// The bytes written.
    pub bytes: Seq<u8>,
    /// The width of the current indentation.
    pub indent: nat,
    /// Whether the next markup starts a new line.
    pub breaks: bool,
}

/// What the writer has written, and how it will go on.
pub open spec fn document(w: Writer<Vec<u8>>) -> XmlDocument {
    XmlDocument { bytes: xml_written(w), indent: xml_indent(w), breaks: xml_breaks(w) }
}

impl XmlDocument {
    /// What comes before markup: nothing, or a line break and the indentation.
    pub open spec fn lead(self) -> Seq<char> {
        if self.breaks {
            seq!['\n'] + Seq::new(self.indent, |i: int| ' ')
        } else {
            Seq::empty()
        }
    }

    /// The document after the markup `before`, `inside`, `after`.
    pub open spec fn marked(self, before: Seq<char>, inside: Seq<char>, after: Seq<char>) -> XmlDocument {
        XmlDocument {
            bytes: self.bytes + encode_utf8(self.lead() + before + inside + after),
            indent: self.indent,
            breaks: true,
        }
    }

    /// The document after the declaration of XML 1.0 in UTF-8.
    pub open spec fn declared(self) -> XmlDocument {
        self.marked(seq!['<', '?'], "xml version=\"1.0\" encoding=\"UTF-8\""@, seq!['?', '>'])
    }

    /// The document after the start tag of an element; what follows is
    /// indented by two more spaces.
    pub open spec fn opened(self, name: Seq<char>, attributes: Seq<XmlAttributeView>) -> XmlDocument {
        XmlDocument {
            indent: self.indent + 2,
            ..self.marked(seq!['<'], tag_text(name, attributes), seq!['>'])
        }
    }

    /// The document after the tag of an element without content.
    pub open spec fn empty(self, name: Seq<char>, attributes: Seq<XmlAttributeView>) -> XmlDocument {
        self.marked(seq!['<'], tag_text(name, attributes), seq!['/', '>'])
    }

    /// The document after the end tag of an element, which stands two spaces
    /// further out than what came before it.
    pub open spec fn closed(self, name: Seq<char>) -> XmlDocument {
        (XmlDocument {
            indent: if self.indent >= 2 {
                (self.indent - 2) as nat
            } else {
                0
            },
            ..self
        }).marked(seq!['<', '/'], name, seq!['>'])
    }

    /// The document after text, which is escaped; what follows the text
    /// follows it on its line.
    pub open spec fn text(self, content: Seq<char>) -> XmlDocument {
        XmlDocument {
            bytes: self.bytes + encode_utf8(escaped_text(content)),
            indent: self.indent,
            breaks: false,
        }
    }
}

/// `Writer::new_with_indent`, with the space as the indentation character
/// and two of them to a level. The writer has written nothing: its sink
/// holds what `inner` held.
#[verifier::external_body]
pub(crate) fn xml_writer_new(inner: Vec<u8>) -> (w: Writer<Vec<u8>>)
    ensures
        xml_written(w) == inner@,
        xml_indent(w) == 0,
        !xml_breaks(w),
{
    Writer::new_with_indent(inner, b' ', 2)
}

/// `Writer::write_event` with the declaration that `BytesDecl::new` makes of
/// version 1.0 and the encoding UTF-8. A sink that is a `Vec<u8>` takes every
/// write, so the event is written whole.
#[verifier::external_body]
pub(crate) fn xml_write_declaration(w: &mut Writer<Vec<u8>>)
    ensures
        document(*final(w)) == document(*old(w)).declared(),
{
    let _ = w.write_event(Event::Decl(BytesDecl::new("1.0", Some("UTF-8"), None)));
}

/// `Writer::write_event` with the start tag that `BytesStart::new` and
/// `BytesStart::extend_attributes` make of the name and the attributes; the
/// writer escapes each value and then indents by one level more.
#[verifier::external_body]
pub(crate) fn xml_write_start(w: &mut Writer<Vec<u8>>, name: &str, attributes: &Vec<XmlAttribute>)
    ensures
        document(*final(w)) == document(*old(w)).opened(name@, attributes_view(attributes@)),
{
    let mut start = BytesStart::new(name);
    start.extend_attributes(attributes.iter().map(|a| (a.name.as_str(), a.value.as_str())));
    let _ = w.write_event(Event::Start(start));
}

/// `Writer::write_event` with the tag of an element without content, made
/// as a start tag is.
#[verifier::external_body]
pub(crate) fn xml_write_empty(w: &mut Writer<Vec<u8>>, name: &str, attributes: &Vec<XmlAttribute>)
    ensures
        document(*final(w)) == document(*old(w)).empty(name@, attributes_view(attributes@)),
{
    let mut start = BytesStart::new(name);
    start.extend_attributes(attributes.iter().map(|a| (a.name.as_str(), a.value.as_str())));
    let _ = w.write_event(Event::Empty(start));
}

/// `Writer::write_event` with the end tag that `BytesEnd::new` makes of the
/// name; the writer first takes one level off its indentation.
#[verifier::external_body]
pub(crate) fn xml_write_end(w: &mut Writer<Vec<u8>>, name: &str)
    ensures
        document(*final(w)) == document(*old(w)).closed(name@),
{
    let _ = w.write_event(Event::End(BytesEnd::new(name)));
}

/// `Writer::write_event` with the text that `BytesText::new` makes of
/// `content` by escaping it; text is written where the writer stands,
/// without a line break.
#[verifier::external_body]
pub(crate) fn xml_write_text(w: &mut Writer<Vec<u8>>, content: &str)
    ensures
        document(*final(w)) == document(*old(w)).text(content@),
{
    let _ = w.write_event(Event::Text(BytesText::new(content)));
}

/// `Writer::into_inner`: the sink, with all that was written to it.
#[verifier::external_body]
pub(crate) fn xml_into_inner(w: Writer<Vec<u8>>) -> (bytes: Vec<u8>)
    ensures
        bytes@ == xml_written(w),
{
    w.into_inner()
}

} // verus!
