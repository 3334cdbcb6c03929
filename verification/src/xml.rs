//! Reading a document as text: the tokenizer of the crate `quick_xml` cuts
//! the text into pieces, tags and texts, and the walk takes the events
//! that they stand for one by one.
//!
//! Three functions of `quick_xml` are called here, each on plain values:
//! the reader that cuts a text into pieces, the iterator over the
//! attributes of a tag, and the function that resolves character
//! references. What each of them returns depends on its arguments alone
//! and has a name below; how an event is put together from those results,
//! and what the walk makes of the events, is stated and proved here.

use crate::context::{attr_value, distinct_keys, TagInfo, TagInfoView, XmlAttrView};
use crate::engine::{
    begin_walk, end_walk, opt_options_view, walk_start, XmlEvent, XmlEventView,
};
use crate::error::SclError;
use crate::model::{SclInfo, SclInfoView, SclOptions, SclOptionsView};
use crate::text::{byte_len, opt_string_view, utf8_text};
use crate::validate::{chk_mms_ident_legal, mms_ident_legal};
use quick_xml::events::attributes::Attributes;
use quick_xml::events::Event;
use quick_xml::Reader;
use vstd::prelude::*;
use vstd::slice::slice_subrange;
use vstd::utf8::{decode_utf8, valid_utf8};

verus! {

/// A piece of a document as the tokenizer cuts it out, its text still in
/// bytes.
#[derive(Clone, Debug, PartialEq, Eq)]
pub enum XmlPiece {
    /// An opening tag: what stands between its angle brackets, and the
    /// number of bytes that its name takes of that.
    Start(Vec<u8>, usize),
    /// A tag that opens and closes an element at once, as an opening tag.
    Empty(Vec<u8>, usize),
    /// A closing tag: its name.
    End(Vec<u8>),
    /// A text, without the white space around it, its character
    /// references not yet resolved.
    Text(Vec<u8>),
    /// A comment, a declaration and the like.
    Other,
}

/// The view of [`XmlPiece`].
#[verifier::ext_equal]
pub enum XmlPieceView {
    Start(Seq<u8>, usize),
    Empty(Seq<u8>, usize),
    End(Seq<u8>),
    Text(Seq<u8>),
    Other,
}

impl View for XmlPiece {
    type V = XmlPieceView;

    open spec fn view(&self) -> XmlPieceView {
        match self {
            XmlPiece::Start(content, name_len) => XmlPieceView::Start(content@, *name_len),
            XmlPiece::Empty(content, name_len) => XmlPieceView::Empty(content@, *name_len),
            XmlPiece::End(name) => XmlPieceView::End(name@),
            XmlPiece::Text(raw) => XmlPieceView::Text(raw@),
            XmlPiece::Other => XmlPieceView::Other,
        }
    }
}

/// The views of a run of pieces.
pub open spec fn piece_views(pieces: Seq<XmlPiece>) -> Seq<XmlPieceView> {
    pieces.map_values(|p: XmlPiece| p@)
}

/// An attribute as it stands in a tag: the bytes of its name, and the
/// bytes of its value between the quotes.
#[derive(Clone, Debug, PartialEq, Eq)]
pub struct RawAttr {
    pub key: Vec<u8>,
    pub value: Vec<u8>,
}

/// The view of [`RawAttr`].
#[verifier::ext_equal]
pub struct RawAttrView {
    pub key: Seq<u8>,
    pub value: Seq<u8>,
}

impl View for RawAttr {
    type V = RawAttrView;

    open spec fn view(&self) -> RawAttrView {
        RawAttrView { key: self.key@, value: self.value@ }
    }
}

/// The views of a run of attributes.
pub open spec fn raw_attr_views(atts: Seq<RawAttr>) -> Seq<RawAttrView> {
    atts.map_values(|a: RawAttr| a@)
}

/// The pieces that the reader of `quick_xml` cuts a text into, one after
/// the other, up to the end of the text or to the first place where it
/// finds no well-formed markup; and whether it came to the end.
pub uninterp spec fn xml_pieces(xml: Seq<char>) -> (Seq<XmlPieceView>, bool);

/// The attributes that `quick_xml` finds in the content of a tag behind a
/// name of `name_len` bytes, or nothing where they are not well-formed or
/// one occurs twice.
pub uninterp spec fn xml_attributes(content: Seq<char>, name_len: usize) -> Option<
    Seq<RawAttrView>,
>;

/// A text with its character references resolved by `quick_xml`, or
/// nothing where one of them cannot be resolved.
pub uninterp spec fn xml_unescaped(text: Seq<char>) -> Option<Seq<char>>;

/// `Reader::from_str`, `Reader::trim_text(true)`, then `Reader::read_event`
/// until it hands out `Event::Eof` or an error: the pieces of the text in
/// their order, and whether the end of the text was reached. Of a tag the
/// bytes that the event dereferences to are kept, and the length of
/// `BytesStart::name`; of a closing tag and of a text the bytes that the
/// event dereferences to. It is taken on trust that these are the pieces
/// named [`xml_pieces`], that is, that they depend on the text alone.
#[verifier::external_body]
fn cut_pieces(xml: &str) -> (r: (Vec<XmlPiece>, bool))
    ensures
        piece_views(r.0@) == xml_pieces(xml@).0,
        r.1 == xml_pieces(xml@).1,
{
    let mut reader = Reader::from_str(xml);
    reader.trim_text(true);
    let mut out = Vec::new();
    loop {
        out.push(match reader.read_event() {
            Ok(Event::Start(e)) => XmlPiece::Start(e.to_vec(), e.name().as_ref().len()),
            Ok(Event::Empty(e)) => XmlPiece::Empty(e.to_vec(), e.name().as_ref().len()),
            Ok(Event::End(e)) => XmlPiece::End(e.to_vec()),
            Ok(Event::Text(e)) => XmlPiece::Text(e.to_vec()),
            Ok(Event::Eof) => return (out, true),
            Ok(_) => XmlPiece::Other,
            Err(_) => return (out, false),
        });
    }
}

/// `Attributes::new`, which is what `BytesStart::attributes` makes of a
/// tag, read to its end: the attributes of a tag, or nothing where the
/// iterator hands out an error. It is taken on trust that these are the
/// attributes named [`xml_attributes`].
#[verifier::external_body]
fn attributes_of(content: &str, name_len: usize) -> (r: Option<Vec<RawAttr>>)
    requires
        name_len <= byte_len(content@),
    ensures
        match r {
            Some(atts) => xml_attributes(content@, name_len) == Some(raw_attr_views(atts@)),
            None => xml_attributes(content@, name_len) is None,
        },
{
    let mut out = Vec::new();
    for a in Attributes::new(content, name_len) {
        match a {
            Ok(a) => out.push(RawAttr { key: a.key.as_ref().to_vec(), value: a.value.to_vec() }),
            Err(_) => return None,
        }
    }
    Some(out)
}

/// `quick_xml::escape::unescape`, which `BytesText::unescape` and
/// `Attribute::decode_and_unescape_value` call on a text in UTF-8: the
/// text with its character references resolved. It is taken on trust that
/// this is the text named [`xml_unescaped`].
#[verifier::external_body]
fn unescaped(text: &str) -> (r: Option<String>)
    ensures
        opt_string_view(r) == xml_unescaped(text@),
{
    match quick_xml::escape::unescape(text) {
        Ok(t) => Some(t.into_owned()),
        Err(_) => None,
    }
}

/// The text that bytes spell in UTF-8, if they spell one.
pub open spec fn text_of_bytes(bytes: Seq<u8>) -> Option<Seq<char>> {
    if valid_utf8(bytes) {
        Some(decode_utf8(bytes))
    } else {
        None
    }
}

/// Reads bytes as a text in UTF-8, which then takes as many bytes as were
/// read.
pub fn bytes_text(bytes: &[u8]) -> (r: Option<String>)
    ensures
        opt_string_view(r) == text_of_bytes(bytes@),
        r matches Some(s) ==> byte_len(s@) == bytes@.len(),
{
    let r = utf8_text(bytes);
    proof {
        if r is Some {
            vstd::utf8::decode_utf8_encode_utf8(bytes@);
        }
    }
    r
}

/// The attribute that stands for a raw one: its name read as UTF-8, its
/// value read as UTF-8 and its character references resolved. Nothing
/// where one of the three cannot be done.
pub open spec fn attr_model(a: RawAttrView) -> Option<XmlAttrView> {
    match text_of_bytes(a.key) {
        Some(key) => match text_of_bytes(a.value) {
            Some(v) => match xml_unescaped(v) {
                Some(value) => Some(XmlAttrView { key, value }),
                None => None,
            },
            None => None,
        },
        None => None,
    }
}

/// The attributes of a tag gathered from the raw ones in their order, as
/// a map is filled: nothing where one of them cannot be read, or bears a
/// name that an earlier one bears.
pub open spec fn gathered(raw: Seq<RawAttrView>) -> Option<Seq<XmlAttrView>>
    decreases raw.len(),
{
    if raw.len() == 0 {
        Some(Seq::empty())
    } else {
        match gathered(raw.drop_last()) {
            Some(atts) => match attr_model(raw.last()) {
                Some(a) => if attr_value(atts, a.key) is None {
                    Some(atts.push(a))
                } else {
                    None
                },
                None => None,
            },
            None => None,
        }
    }
}

/// Once the first attributes of a tag cannot be gathered, none can.
pub proof fn lemma_gathered_none(raw: Seq<RawAttrView>, k: int)
    requires
        0 <= k <= raw.len(),
        gathered(raw.take(k)) is None,
    ensures
        gathered(raw) is None,
    decreases raw.len() - k,
{
    if k == raw.len() {
        assert(raw.take(k) =~= raw);
    } else {
        assert(raw.drop_last().take(k) =~= raw.take(k));
        lemma_gathered_none(raw.drop_last(), k);
    }
}

/// The tag that the content of an opening tag stands for: its name is
/// what the first `name_len` bytes spell, its attributes are those that
/// the tokenizer finds behind the name. Nothing where the name is longer
/// than the content, where name or content are no UTF-8, or where the
/// attributes cannot be found or gathered.
pub open spec fn tag_model(content: Seq<u8>, name_len: usize) -> Option<TagInfoView> {
    if name_len > content.len() {
        None
    } else {
        match text_of_bytes(content.subrange(0, name_len as int)) {
            Some(tag) => match text_of_bytes(content) {
                Some(txt) => match xml_attributes(txt, name_len) {
                    Some(raw) => match gathered(raw) {
                        Some(atts) => Some(TagInfoView { tag, atts }),
                        None => None,
                    },
                    None => None,
                },
                None => None,
            },
            None => None,
        }
    }
}

/// The name and the attributes of an opening tag, from what stands
/// between its angle brackets and the number of bytes that its name takes.
/// In the tag that is handed out each attribute name occurs once.
pub fn tag_info_of(content: &[u8], name_len: usize) -> (r: Option<TagInfo>)
    ensures
        match r {
            Some(t) => tag_model(content@, name_len) == Some(t@),
            None => tag_model(content@, name_len) is None,
        },
        r matches Some(t) ==> distinct_keys(t@.atts),
{
    if name_len > content.len() {
        return None;
    }
    let tag = match bytes_text(slice_subrange(content, 0, name_len)) {
        Some(tag) => tag,
        None => {
            return None;
        },
    };
    let txt = match bytes_text(content) {
        Some(txt) => txt,
        None => {
            return None;
        },
    };
    let raw = match attributes_of(txt.as_str(), name_len) {
        Some(raw) => raw,
        None => {
            return None;
        },
    };
    let ghost rv = raw_attr_views(raw@);
    let ghost name = tag@;
    let mut info = TagInfo { tag, atts: Vec::new() };
    let n = raw.len();
    let mut i: usize = 0;
    assert(info@.atts =~= Seq::<XmlAttrView>::empty());
    assert(rv.take(0) =~= Seq::<RawAttrView>::empty());
    while i < n
        invariant
            n == raw@.len(),
            i <= n,
            rv == raw_attr_views(raw@),
            tag_model(content@, name_len) == match gathered(rv) {
                Some(atts) => Some(TagInfoView { tag: name, atts }),
                None => None,
            },
            gathered(rv.take(i as int)) == Some(info@.atts),
            info@.tag == name,
            distinct_keys(info@.atts),
        decreases n - i,
    {
        let key = bytes_text(raw[i].key.as_slice());
        let value = match key {
            Some(_) => match bytes_text(raw[i].value.as_slice()) {
                Some(v) => unescaped(v.as_str()),
                None => None,
            },
            None => None,
        };
        proof {
            let a = raw@[i as int]@;
            assert(rv.take(i + 1).drop_last() =~= rv.take(i as int));
            assert(rv.take(i + 1).last() == a);
            assert(attr_model(a) is Some <==> key is Some && value is Some);
            assert(attr_model(a) matches Some(x) ==> x.key == key->0@ && x.value == value->0@);
        }
        if !info.take_attr(key, value) {
            proof {
                assert(gathered(rv.take(i + 1)) is None);
                lemma_gathered_none(rv, i + 1);
            }
            return None;
        }
        i = i + 1;
    }
    assert(rv.take(n as int) =~= rv);
    assert(info@ =~~= (TagInfoView { tag: name, atts: info@.atts }));
    Some(info)
}

/// The event that a piece of the document stands for: a tag gives its
/// name and attributes, a closing tag its name and no attributes, a text
/// the text with its character references resolved, any other piece the
/// event that the walk passes over. Nothing where the parts of a tag or a
/// text cannot be read.
pub open spec fn event_model(piece: XmlPieceView) -> Option<XmlEventView> {
    match piece {
        XmlPieceView::Start(content, name_len) => match tag_model(content, name_len) {
            Some(t) => Some(XmlEventView::Start(t)),
            None => None,
        },
        XmlPieceView::Empty(content, name_len) => match tag_model(content, name_len) {
            Some(t) => Some(XmlEventView::Empty(t)),
            None => None,
        },
        XmlPieceView::End(name) => match text_of_bytes(name) {
            Some(tag) => Some(XmlEventView::End(TagInfoView { tag, atts: Seq::empty() })),
            None => None,
        },
        XmlPieceView::Text(raw) => match text_of_bytes(raw) {
            Some(text) => match xml_unescaped(text) {
                Some(t) => Some(XmlEventView::Text(t)),
                None => None,
            },
            None => None,
        },
        XmlPieceView::Other => Some(XmlEventView::Other),
    }
}

/// Whether an event is of the kind of a piece of the document: a tag
/// gives the event of its kind, in which each attribute name occurs once
/// and a closing tag has no attributes at all; a text gives a text; a
/// piece that the walk passes over gives the event of that kind.
pub open spec fn event_fits(piece: XmlPieceView, ev: XmlEventView) -> bool {
    match piece {
        XmlPieceView::Start(_, _) => ev matches XmlEventView::Start(t) && distinct_keys(t.atts),
        XmlPieceView::Empty(_, _) => ev matches XmlEventView::Empty(t) && distinct_keys(t.atts),
        XmlPieceView::End(_) => ev matches XmlEventView::End(t) && t.atts.len() == 0,
        XmlPieceView::Text(_) => ev is Text,
        XmlPieceView::Other => ev is Other,
    }
}

/// The event that a piece of the document stands for, or nothing where
/// its parts cannot be read.
pub fn event_of(piece: &XmlPiece) -> (r: Option<XmlEvent>)
    ensures
        match r {
            Some(ev) => event_model(piece@) == Some(ev@),
            None => event_model(piece@) is None,
        },
        r matches Some(ev) ==> event_fits(piece@, ev@),
{
    match piece {
        XmlPiece::Start(content, name_len) => match tag_info_of(content.as_slice(), *name_len) {
            Some(t) => Some(XmlEvent::Start(t)),
            None => None,
        },
        XmlPiece::Empty(content, name_len) => match tag_info_of(content.as_slice(), *name_len) {
            Some(t) => Some(XmlEvent::Empty(t)),
            None => None,
        },
        XmlPiece::End(name) => match bytes_text(name.as_slice()) {
            Some(tag) => {
                let t = TagInfo { tag, atts: Vec::new() };
                assert(t@ =~~= (TagInfoView { tag: tag@, atts: Seq::empty() }));
                Some(XmlEvent::End(t))
            },
            None => None,
        },
        XmlPiece::Text(raw) => match bytes_text(raw.as_slice()) {
            Some(s) => match unescaped(s.as_str()) {
                Some(text) => Some(XmlEvent::Text(text)),
                None => None,
            },
            None => None,
        },
        XmlPiece::Other => Some(XmlEvent::Other),
    }
}

/// The events that a run of pieces stands for, up to the first piece that
/// stands for none; and whether each piece stands for one.
pub open spec fn events_of(pieces: Seq<XmlPieceView>) -> (Seq<XmlEventView>, bool)
    decreases pieces.len(),
{
    if pieces.len() == 0 {
        (Seq::empty(), true)
    } else {
        let before = events_of(pieces.drop_last());
        if !before.1 {
            before
        } else {
            match event_model(pieces.last()) {
                Some(ev) => (before.0.push(ev), true),
                None => (before.0, false),
            }
        }
    }
}

/// What reading a run of pieces gives, of which `whole` says whether it
/// is a document to its end. A device name that is no legal identifier is
/// refused before the pieces are looked at. Else the walk takes the
/// events of the pieces up to the first piece that stands for none. If
/// the walk has stopped with an error by then, that error is the result.
/// Else the document is refused as bad markup unless each piece stands
/// for an event and the document was cut to its end; and if it was, the
/// result is what the walk has gathered.
pub open spec fn pieces_model(
    pieces: Seq<XmlPieceView>,
    whole: bool,
    iedname: Seq<char>,
    accesspointname: Seq<char>,
    options: Option<SclOptionsView>,
) -> Result<SclInfoView, SclError> {
    if !mms_ident_legal(iedname) {
        Err(SclError::IllegalIedName)
    } else {
        let evs = events_of(pieces);
        let st = walk_start(iedname, accesspointname, options).run(evs.0);
        if st.latched() || (evs.1 && whole) {
            st.outcome()
        } else {
            Err(SclError::BadMarkup)
        }
    }
}

/// What reading the text of a document gives: what reading the pieces
/// gives that the tokenizer cuts it into.
pub open spec fn text_model(
    xml: Seq<char>,
    iedname: Seq<char>,
    accesspointname: Seq<char>,
    options: Option<SclOptionsView>,
) -> Result<SclInfoView, SclError> {
    pieces_model(xml_pieces(xml).0, xml_pieces(xml).1, iedname, accesspointname, options)
}

/// The view of what a reading gives.
pub open spec fn result_view(r: Result<SclInfo, SclError>) -> Result<SclInfoView, SclError> {
    match r {
        Ok(info) => Ok(info@),
        Err(e) => Err(e),
    }
}

/// Reads the configuration of the access point `accesspointname` of the
/// device `iedname` from the pieces of a document, of which `whole` says
/// whether they are the document to its end.
pub fn scl_parse_pieces(
    pieces: &Vec<XmlPiece>,
    whole: bool,
    iedname: &str,
    accesspointname: &str,
    options: Option<SclOptions>,
) -> (r: Result<SclInfo, SclError>)
    ensures
        result_view(r) == pieces_model(
            piece_views(pieces@),
            whole,
            iedname@,
            accesspointname@,
            opt_options_view(options),
        ),
{
    if !chk_mms_ident_legal(iedname) {
        return Err(SclError::IllegalIedName);
    }
    let mut ctx = begin_walk(iedname, accesspointname, options);
    let ghost start = ctx@;
    let ghost pv = piece_views(pieces@);
    let n = pieces.len();
    let mut k: usize = 0;
    let mut ok = true;
    assert(pv.take(0) =~= Seq::<XmlPieceView>::empty());
    while k < n
        invariant
            n == pieces@.len(),
            k <= n,
            pv == piece_views(pieces@),
            start == walk_start(iedname@, accesspointname@, opt_options_view(options)),
            ctx@ == start.run(events_of(pv.take(k as int)).0),
            ctx@.latched() || ok == events_of(pv.take(k as int)).1,
        decreases n - k,
    {
        let ghost before = events_of(pv.take(k as int));
        proof {
            assert(pv.take(k + 1).drop_last() =~= pv.take(k as int));
            assert(pv.take(k + 1).last() == pieces@[k as int]@);
            if before.1 {
                match event_model(pv[k as int]) {
                    Some(ev) => {
                        assert(before.0.push(ev).drop_last() =~= before.0);
                        assert(before.0.push(ev).last() == ev);
                    },
                    None => {},
                }
            }
        }
        if ok && !ctx.is_latched() {
            match event_of(&pieces[k]) {
                Some(ev) => {
                    ctx.handle_event(ev);
                },
                None => {
                    ok = false;
                },
            }
        }
        k = k + 1;
    }
    assert(pv.take(n as int) =~= pv);
    if ctx.is_latched() || (ok && whole) {
        end_walk(ctx)
    } else {
        Err(SclError::BadMarkup)
    }
}

/// Reads the configuration of the access point `accesspointname` of the
/// device `iedname` from the text of a document.
///
/// A device name that is no legal identifier is refused before the text
/// is looked at. Else the tokenizer cuts the text into pieces, and the
/// result is what [`pieces_model`] says of them.
pub fn scl_parse_cid(
    xml: &str,
    iedname: &str,
    accesspointname: &str,
    options: Option<SclOptions>,
) -> (r: Result<SclInfo, SclError>)
    ensures
        result_view(r) == text_model(
            xml@,
            iedname@,
            accesspointname@,
            opt_options_view(options),
        ),
{
    if !chk_mms_ident_legal(iedname) {
        return Err(SclError::IllegalIedName);
    }
    let cut = cut_pieces(xml);
    scl_parse_pieces(&cut.0, cut.1, iedname, accesspointname, options)
}

/// Reads the configuration of the access point `accesspointname` of the
/// device `iedname` from the text of a document, with no options.
pub fn scl_parse(xml: &str, iedname: &str, accesspointname: &str) -> (r: Result<SclInfo, SclError>)
    ensures
        result_view(r) == text_model(xml@, iedname@, accesspointname@, None),
{
    scl_parse_cid(xml, iedname, accesspointname, None)
}

} // verus!
