//! The walk over a document: each opening and closing tag is looked up in
//! the innermost open table, counted, and handed to its handler.

use crate::consts::{
    SD_SUCCESS, SX_ELEMENT_END, SX_ELEMENT_START, SX_ELF_CEND, SX_ELF_CSTART, SX_ERR_CONVERT,
    SX_MAX_XML_NEST, SX_XML_MALFORMED, SX_XML_NEST_TOO_DEEP,
};
use crate::context::{
    initial_context, IcdParseContext2, IcdParseContext2View, TagInfo, TagInfoView,
};
use crate::text::{same_name, same_text};
use crate::dispatch::{dispatch, handler_model};
use crate::error::SclError;
use crate::model::{SclInfo, SclInfoView, SclOptions, SclOptionsView};
use crate::validate::{chk_mms_ident_legal, mms_ident_legal};
use vstd::prelude::*;

verus! {

/// What a tokenizer hands to the walk.
#[derive(Debug)]
pub enum XmlEvent {
    /// An opening tag with its attributes.
    Start(TagInfo),
    /// A closing tag.
    End(TagInfo),
    /// The tag of an element without content, with its attributes.
    Empty(TagInfo),
    /// The text between two tags.
    Text(String),
    /// Anything else: a comment, a declaration, a processing instruction.
    Other,
}

/// The view of [`XmlEvent`].
#[verifier::ext_equal]
pub enum XmlEventView {
    Start(TagInfoView),
    End(TagInfoView),
    Empty(TagInfoView),
    Text(Seq<char>),
    Other,
}

impl View for XmlEvent {
    type V = XmlEventView;

    open spec fn view(&self) -> XmlEventView {
        match self {
            XmlEvent::Start(t) => XmlEventView::Start(t@),
            XmlEvent::End(t) => XmlEventView::End(t@),
            XmlEvent::Empty(t) => XmlEventView::Empty(t@),
            XmlEvent::Text(s) => XmlEventView::Text(s@),
            XmlEvent::Other => XmlEventView::Other,
        }
    }
}

/// The views of a list of events.
pub open spec fn event_views(events: Seq<XmlEvent>) -> Seq<XmlEventView> {
    events.map_values(|e: XmlEvent| e@)
}

impl IcdParseContext2View {
    /// Whether the innermost open element is one that the reader does not
    /// know.
    pub open spec fn in_unknown(self) -> bool {
        self.eltbl.len() > 0 && self.eltbl.last() is None
    }

    /// The state after an opening tag. Nesting beyond the limit is an
    /// error whatever the state; else a state that has stopped stays as it
    /// is. Below an element that the reader does not know, nothing is
    /// looked up. Else the tag of an element that stands in the innermost
    /// table becomes the last opening tag, its handler runs if the table
    /// says so, and the text read so far is forgotten. Any other element
    /// is only noted as open.
    pub open spec fn start_element(self, tag: TagInfoView) -> Self {
        if self.eltbl.len() >= SX_MAX_XML_NEST {
            IcdParseContext2View { errcode: SX_XML_NEST_TOO_DEEP, ..self }
        } else if self.latched() {
            self
        } else if self.in_unknown() {
            IcdParseContext2View { eltbl: self.eltbl.push(None), ..self }
        } else {
            match self.found(tag.tag) {
                Some(index) => {
                    let ready = IcdParseContext2View {
                        op_start_tag: Some(tag),
                        reason: SX_ELEMENT_START,
                        ..self.after_find(tag.tag)
                    };
                    let handled = if self.opr_tb[index as int].elementflags & SX_ELF_CSTART != 0 {
                        handler_model(self.opr_tb[index as int].handler, ready)
                    } else {
                        ready
                    };
                    IcdParseContext2View {
                        eltbl: handled.eltbl.push(Some(index)),
                        op_entry_text: None,
                        ..handled
                    }
                },
                None => IcdParseContext2View { eltbl: self.eltbl.push(None), ..self },
            }
        }
    }

    /// The state after a closing tag. A closing tag with no element open
    /// is an error whatever the state; else a state that has stopped stays
    /// as it is. The innermost element is closed; if the reader knows it,
    /// the tag must bear its name, and its handler runs if the table says
    /// so.
    pub open spec fn end_element(self, tag: Seq<char>) -> Self {
        if self.eltbl.len() == 0 {
            IcdParseContext2View { errcode: SX_XML_MALFORMED, ..self }
        } else if self.latched() {
            self
        } else {
            let closed = IcdParseContext2View { eltbl: self.eltbl.drop_last(), ..self };
            match self.eltbl.last() {
                Some(index) => if index < self.opr_tb.len() {
                    if !same_name(tag, self.opr_tb[index as int].tag) {
                        IcdParseContext2View { errcode: SX_XML_MALFORMED, ..closed }
                    } else if self.opr_tb[index as int].elementflags & SX_ELF_CEND != 0 {
                        handler_model(
                            self.opr_tb[index as int].handler,
                            IcdParseContext2View { reason: SX_ELEMENT_END, ..closed },
                        )
                    } else {
                        closed
                    }
                } else {
                    closed
                },
                None => closed,
            }
        }
    }

    /// The state after one event: an element without content opens and
    /// closes at once, and a text is kept for the element that closes next.
    pub open spec fn after_event(self, ev: XmlEventView) -> Self {
        match ev {
            XmlEventView::Start(t) => self.start_element(t),
            XmlEventView::End(t) => self.end_element(t.tag),
            XmlEventView::Empty(t) => self.start_element(t).end_element(t.tag),
            XmlEventView::Text(s) => IcdParseContext2View { op_entry_text: Some(s), ..self },
            XmlEventView::Other => self,
        }
    }

    /// The state after a run of events: once the walk has stopped, no
    /// further event is looked at.
    pub open spec fn run(self, events: Seq<XmlEventView>) -> Self
        decreases events.len(),
    {
        if events.len() == 0 {
            self
        } else {
            let before = self.run(events.drop_last());
            if before.latched() {
                before
            } else {
                before.after_event(events.last())
            }
        }
    }

    /// What a walk that ends in this state has found: the tree, if the
    /// status code is that of success.
    pub open spec fn outcome(self) -> Result<SclInfoView, SclError> {
        if self.errcode == SD_SUCCESS {
            Ok(self.info())
        } else {
            Err(SclError::Parse(self.errcode))
        }
    }
}

impl IcdParseContext2 {
    /// Whether the status code stops the walk.
    pub fn is_latched(&self) -> (r: bool)
        ensures
            r == self@.latched(),
    {
        self.errcode != SD_SUCCESS && self.errcode != SX_ERR_CONVERT
    }

    /// Takes an opening tag.
    pub fn sx_startel_ement(&mut self, start_tag: TagInfo)
        ensures
            final(self)@ == old(self)@.start_element(start_tag@),
    {
        if self.eltbl.len() >= SX_MAX_XML_NEST {
            self.errcode = SX_XML_NEST_TOO_DEEP;
            return ;
        }
        if self.is_latched() {
            return ;
        }
        let depth = self.eltbl.len();
        if depth > 0 && self.eltbl[depth - 1].is_none() {
            self.eltbl.push(None);
            return ;
        }
        let op_index = self.uibed_find_element(start_tag.tag.as_str());
        match op_index {
            Some(index) => {
                self.op_start_tag = Some(start_tag);
                let elementflags = self.opr_tb[index].elementflags;
                let handler = self.opr_tb[index].handler;
                self.reason = SX_ELEMENT_START;
                if (elementflags & SX_ELF_CSTART) != 0 {
                    dispatch(self, handler);
                }
                self.eltbl.push(Some(index));
                self.op_entry_text = None;
            },
            None => {
                self.eltbl.push(None);
            },
        }
    }

    /// Takes a closing tag.
    pub fn sx_end_element(&mut self, end_tag: TagInfo)
        ensures
            final(self)@ == old(self)@.end_element(end_tag@.tag),
    {
        if self.eltbl.len() == 0 {
            self.errcode = SX_XML_MALFORMED;
            return ;
        }
        if self.is_latched() {
            return ;
        }
        let item = self.eltbl.pop().unwrap();
        match item {
            Some(item_index) => {
                if item_index < self.opr_tb.len() {
                    let named = same_text(
                        end_tag.tag.as_str(),
                        self.opr_tb[item_index].tag.as_str(),
                    );
                    if !named {
                        self.errcode = SX_XML_MALFORMED;
                    } else if (self.opr_tb[item_index].elementflags & SX_ELF_CEND) != 0 {
                        let handler = self.opr_tb[item_index].handler;
                        self.reason = SX_ELEMENT_END;
                        dispatch(self, handler);
                    }
                }
            },
            None => {},
        }
    }

    /// Takes one event.
    pub fn handle_event(&mut self, ev: XmlEvent)
        ensures
            final(self)@ == old(self)@.after_event(ev@),
    {
        match ev {
            XmlEvent::Start(t) => {
                self.sx_startel_ement(t);
            },
            XmlEvent::End(t) => {
                self.sx_end_element(t);
            },
            XmlEvent::Empty(t) => {
                let end_tag = TagInfo::new(t.tag.as_str());
                self.sx_startel_ement(t);
                self.sx_end_element(end_tag);
            },
            XmlEvent::Text(s) => {
                self.op_entry_text = Some(s);
            },
            XmlEvent::Other => {},
        }
    }
}

/// The options of a caller who gives none.
pub open spec fn options_or_default(options: Option<SclOptionsView>) -> SclOptionsView {
    match options {
        Some(o) => o,
        None => SclOptionsView { forceedition: 0, includeowner: false },
    }
}

/// The view of optional options.
pub open spec fn opt_options_view(options: Option<SclOptions>) -> Option<SclOptionsView> {
    match options {
        Some(o) => Some(o@),
        None => None,
    }
}

/// The state in which a walk begins: nothing read, and the table of the
/// root element open.
pub open spec fn walk_start(
    iedname: Seq<char>,
    accesspointname: Seq<char>,
    options: Option<SclOptionsView>,
) -> IcdParseContext2View {
    initial_context(iedname, accesspointname, options_or_default(options)).pushed(seq![0usize])
}

/// What the events of a document give for the access point
/// `accesspointname` of the device `iedname`: the tree, or the reason for
/// which there is none. A device name that is no legal identifier is
/// refused before any event is looked at.
pub open spec fn scl_parse_model(
    events: Seq<XmlEventView>,
    iedname: Seq<char>,
    accesspointname: Seq<char>,
    options: Option<SclOptionsView>,
) -> Result<SclInfoView, SclError> {
    if !mms_ident_legal(iedname) {
        Err(SclError::IllegalIedName)
    } else {
        walk_start(iedname, accesspointname, options).run(events).outcome()
    }
}

/// Begins a walk for the access point `accesspointname` of the device
/// `iedname`.
pub fn begin_walk(iedname: &str, accesspointname: &str, options: Option<SclOptions>) -> (ctx:
    IcdParseContext2)
    ensures
        ctx@ == walk_start(iedname@, accesspointname@, opt_options_view(options)),
{
    let mut ctx = IcdParseContext2::init_data();
    ctx.scl_dec_ctrl.iedname = iedname.to_string();
    ctx.scl_dec_ctrl.accesspointname = accesspointname.to_string();
    ctx.scl_dec_ctrl.accesspointfound = false;
    match options {
        Some(o) => {
            ctx.scl_dec_ctrl.sclinfo.options = o;
        },
        None => {},
    }
    assert(ctx@ =~~= initial_context(
        iedname@,
        accesspointname@,
        options_or_default(opt_options_view(options)),
    ));
    ctx.sx_push(vec![0]);
    assert(ctx@ =~~= walk_start(iedname@, accesspointname@, opt_options_view(options)));
    ctx
}

/// Ends a walk: hands out the tree if the status code is that of success.
pub fn end_walk(ctx: IcdParseContext2) -> (r: Result<SclInfo, SclError>)
    ensures
        match r {
            Ok(info) => ctx@.outcome() == Ok::<SclInfoView, SclError>(info@),
            Err(e) => ctx@.outcome() == Err::<SclInfoView, SclError>(e),
        },
{
    if ctx.errcode == SD_SUCCESS {
        Ok(ctx.scl_dec_ctrl.sclinfo)
    } else {
        Err(SclError::Parse(ctx.errcode))
    }
}

/// Reads the configuration of the access point `accesspointname` of the
/// device `iedname` from the events of a document.
pub fn scl_parse_events(
    events: Vec<XmlEvent>,
    iedname: &str,
    accesspointname: &str,
    options: Option<SclOptions>,
) -> (r: Result<SclInfo, SclError>)
    ensures
        match r {
            Ok(info) => scl_parse_model(
                event_views(events@),
                iedname@,
                accesspointname@,
                opt_options_view(options),
            ) == Ok::<SclInfoView, SclError>(info@),
            Err(e) => scl_parse_model(
                event_views(events@),
                iedname@,
                accesspointname@,
                opt_options_view(options),
            ) == Err::<SclInfoView, SclError>(e),
        },
{
    if !chk_mms_ident_legal(iedname) {
        return Err(SclError::IllegalIedName);
    }
    let mut ctx = begin_walk(iedname, accesspointname, options);
    let ghost start = ctx@;
    let ghost all = event_views(events@);
    let mut k: usize = 0;
    let n = events.len();
    assert(all.take(0) =~= Seq::<XmlEventView>::empty());
    for ev in it: events
        invariant
            it.seq() == events@,
            n == events@.len(),
            all == event_views(events@),
            k == it.index(),
            ctx@ == start.run(all.take(k as int)),
    {
        proof {
            assert(all.take(k + 1).drop_last() =~= all.take(k as int));
            assert(all.take(k + 1).last() == ev@);
        }
        if !ctx.is_latched() {
            ctx.handle_event(ev);
        }
        k = k + 1;
    }
    assert(all.take(k as int) =~= all);
    end_walk(ctx)
}

} // verus!
