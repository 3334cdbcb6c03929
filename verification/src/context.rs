//! The state of one walk over a document: the open element tables, the
//! nesting of the elements, the status code, and the tree as far as it has
//! been built.

use crate::consts::{
    SD_SUCCESS, SX_DUPLICATE_NOT_ALLOWED, SX_ELEMENT_TBL_TOO_BIG, SX_ELF_RPT,
    SX_ERR_CONVERT, SX_ERR_REQUIRED_ATTR_NOT_FOUND, SX_MAX_ITEMS_PER_TABLE, SX_MAX_STACK_LEVEL,
    SX_USER_ERROR, SX_XML_NEST_TOO_DEEP,
};
use crate::model::{
    RcbSubData, RcbSubDataView, SclHeader, SclHeaderView, SclInfo, SclInfoView, SclOptions,
    SclOptionsView, SclReportsettings, SclReportsettingsView, SclServiceWithMax,
    SclServiceWithMaxView, SclServices, SclServicesView,
};
use crate::table::{element_table, element_views, gen_element_table, SxElement, SxElementView};
use crate::text::{opt_string_view, same_name, same_text, str_eq};
use vstd::prelude::*;

verus! {

/// One attribute of an element.
#[derive(Clone, Debug)]
pub struct XmlAttr {
    pub key: String,
    pub value: String,
}

/// The view of [`XmlAttr`].
#[verifier::ext_equal]
pub struct XmlAttrView {
    pub key: Seq<char>,
    pub value: Seq<char>,
}

impl View for XmlAttr {
    type V = XmlAttrView;

    open spec fn view(&self) -> XmlAttrView {
        XmlAttrView { key: self.key@, value: self.value@ }
    }
}

/// The name of an element and the attributes of its opening tag, in the
/// order in which they stand there.
#[derive(Clone, Debug)]
pub struct TagInfo {
    pub tag: String,
    pub atts: Vec<XmlAttr>,
}

/// The view of [`TagInfo`].
#[verifier::ext_equal]
pub struct TagInfoView {
    pub tag: Seq<char>,
    pub atts: Seq<XmlAttrView>,
}

impl View for TagInfo {
    type V = TagInfoView;

    open spec fn view(&self) -> TagInfoView {
        TagInfoView { tag: self.tag@, atts: self.atts@.map_values(|a: XmlAttr| a@) }
    }
}

/// The view of an optional tag.
pub open spec fn opt_tag_view(t: Option<TagInfo>) -> Option<TagInfoView> {
    match t {
        Some(t) => Some(t@),
        None => None,
    }
}

/// The value of the attribute `name`: that of its last occurrence, if it
/// occurs at all.
pub open spec fn attr_value(atts: Seq<XmlAttrView>, name: Seq<char>) -> Option<Seq<char>>
    decreases atts.len(),
{
    if atts.len() == 0 {
        None
    } else if atts.last().key == name {
        Some(atts.last().value)
    } else {
        attr_value(atts.drop_last(), name)
    }
}

/// Whether each attribute name occurs once only, as in a map.
pub open spec fn distinct_keys(atts: Seq<XmlAttrView>) -> bool {
    forall|i: int, j: int| 0 <= i < j < atts.len() ==> atts[i].key != atts[j].key
}

/// An attribute has no value exactly if no attribute bears its name.
pub proof fn lemma_attr_absent(atts: Seq<XmlAttrView>, name: Seq<char>)
    ensures
        attr_value(atts, name) is None <==> forall|i: int|
            0 <= i < atts.len() ==> (#[trigger] atts[i]).key != name,
    decreases atts.len(),
{
    if atts.len() > 0 {
        lemma_attr_absent(atts.drop_last(), name);
        if atts.last().key != name {
            assert forall|i: int| 0 <= i < atts.len() - 1 implies (#[trigger] atts[i]).key
                == atts.drop_last()[i].key by {}
            if attr_value(atts, name) is None {
                assert forall|i: int| 0 <= i < atts.len() implies (#[trigger] atts[i]).key
                    != name by {
                    if i < atts.len() - 1 {
                        assert(atts.drop_last()[i].key != name);
                    }
                }
            } else {
                let i = choose|i: int|
                    0 <= i < atts.len() - 1 && (#[trigger] atts.drop_last()[i]).key == name;
                assert(atts[i].key == name);
            }
        }
    }
}

impl TagInfo {
    /// A tag without attributes.
    pub fn new(tag: &str) -> (r: TagInfo)
        ensures
            r@ == (TagInfoView { tag: tag@, atts: seq![] }),
    {
        let r = TagInfo { tag: tag.to_string(), atts: Vec::new() };
        assert(r@.atts =~= seq![]);
        r
    }

    /// The tag with one more attribute at its end.
    pub fn with_attr(self, key: &str, value: &str) -> (r: TagInfo)
        ensures
            r@ == (TagInfoView {
                tag: self@.tag,
                atts: self@.atts.push(XmlAttrView { key: key@, value: value@ }),
            }),
    {
        let mut r = self;
        r.atts.push(XmlAttr { key: key.to_string(), value: value.to_string() });
        assert(r@.atts =~= self@.atts.push(XmlAttrView { key: key@, value: value@ }));
        r
    }

    /// Takes one more attribute as a tokenizer hands it out: its name and
    /// its value, each of which may have failed to be read. The attribute
    /// is put at the end if both are there and the tag has no attribute of
    /// that name yet; else the tag stays as it is. A tag in which each
    /// name occurs once stays such a tag.
    pub fn take_attr(&mut self, key: Option<String>, value: Option<String>) -> (ok: bool)
        ensures
            ok == (key is Some && value is Some && attr_value(old(self)@.atts, key->0@) is None),
            ok ==> final(self)@ == (TagInfoView {
                tag: old(self)@.tag,
                atts: old(self)@.atts.push(XmlAttrView { key: key->0@, value: value->0@ }),
            }),
            !ok ==> final(self)@ == old(self)@,
            distinct_keys(old(self)@.atts) ==> distinct_keys(final(self)@.atts),
    {
        match key {
            Some(key) => match value {
                Some(value) => {
                    if self.attr(key.as_str()).is_some() {
                        return false;
                    }
                    proof {
                        lemma_attr_absent(self@.atts, key@);
                    }
                    self.atts.push(XmlAttr { key, value });
                    assert(self@.atts =~= old(self)@.atts.push(
                        XmlAttrView { key: key@, value: value@ },
                    ));
                    true
                },
                None => false,
            },
            None => false,
        }
    }

    /// The value of the attribute `name`, if the tag has it.
    pub fn attr(&self, name: &str) -> (r: Option<String>)
        ensures
            opt_string_view(r) == attr_value(self@.atts, name@),
    {
        let mut i: usize = self.atts.len();
        let ghost all = self@.atts;
        assert(all.take(i as int) =~= all);
        while i > 0
            invariant
                i <= self.atts@.len(),
                all == self@.atts,
                attr_value(all, name@) == attr_value(all.take(i as int), name@),
            decreases i,
        {
            i = i - 1;
            proof {
                assert(all.take(i + 1).drop_last() =~= all.take(i as int));
                assert(all.take(i + 1).last() == self.atts@[i as int]@);
            }
            if str_eq(self.atts[i].key.as_str(), name) {
                return Some(self.atts[i].value.clone());
            }
        }
        None
    }
}

/// One open element table: the positions of its elements in the list of
/// all tables, and how often each of them has occurred so far.
#[derive(Clone, Debug)]
pub struct SxElementTblCtrl2 {
    pub itemtbl: Vec<usize>,
    pub num_occ_tbl: [u32; 50],
}

/// The view of [`SxElementTblCtrl2`].
#[verifier::ext_equal]
pub struct SxElementTblCtrl2View {
    pub itemtbl: Seq<usize>,
    pub num_occ_tbl: Seq<u32>,
}

impl View for SxElementTblCtrl2 {
    type V = SxElementTblCtrl2View;

    open spec fn view(&self) -> SxElementTblCtrl2View {
        SxElementTblCtrl2View { itemtbl: self.itemtbl@, num_occ_tbl: self.num_occ_tbl@ }
    }
}

/// A table that has just been opened: nothing has occurred yet.
pub open spec fn fresh_table(itemtbl: Seq<usize>) -> SxElementTblCtrl2View {
    SxElementTblCtrl2View {
        itemtbl,
        num_occ_tbl: Seq::new(SX_MAX_ITEMS_PER_TABLE as nat, |i: int| 0u32),
    }
}

/// What the handlers keep between elements.
#[derive(Debug)]
pub struct SclDecCtrl {
    /// The device that the caller asks for.
    pub iedname: String,
    /// The access point that the caller asks for.
    pub accesspointname: String,
    /// Whether the device and its access point have been found.
    pub accesspointfound: bool,
    /// Whether the walk is inside the device that was asked for.
    pub iednamematched: bool,
    /// Whether the walk is inside the access point that was asked for.
    pub accesspointmatched: bool,
    /// The tree as far as it has been built.
    pub sclinfo: SclInfo,
    /// The trigger options of the control block that is open.
    pub trgops: [u8; 1],
    /// The option fields and the client limit of the report control block that is open.
    pub rcb_sub_data: RcbSubData,
    /// The path of the attribute that is open, below its logical node.
    pub flattened: String,
    /// The setting group of the `Val` element that is open; 0 for none.
    pub sgrouptmp: u32,
    /// Always [`SCL_PARSE_MODE_CID`](crate::consts::SCL_PARSE_MODE_CID).
    pub parsemode: u32,
    /// Whether the type template that is open is to be kept; always true.
    pub iedtypematched: bool,
    /// The name of the device that is open.
    pub iednameproc: String,
    /// The services of the device that was asked for.
    pub scl_services: SclServices,
}

/// The view of [`SclDecCtrl`].
#[verifier::ext_equal]
pub struct SclDecCtrlView {
    pub iedname: Seq<char>,
    pub accesspointname: Seq<char>,
    pub accesspointfound: bool,
    pub iednamematched: bool,
    pub accesspointmatched: bool,
    pub sclinfo: SclInfoView,
    pub trgops: Seq<u8>,
    pub rcb_sub_data: RcbSubDataView,
    pub flattened: Seq<char>,
    pub sgrouptmp: u32,
    pub parsemode: u32,
    pub iedtypematched: bool,
    pub iednameproc: Seq<char>,
    pub scl_services: SclServicesView,
}

impl View for SclDecCtrl {
    type V = SclDecCtrlView;

    open spec fn view(&self) -> SclDecCtrlView {
        SclDecCtrlView {
            iedname: self.iedname@,
            accesspointname: self.accesspointname@,
            accesspointfound: self.accesspointfound,
            iednamematched: self.iednamematched,
            accesspointmatched: self.accesspointmatched,
            sclinfo: self.sclinfo@,
            trgops: self.trgops@,
            rcb_sub_data: self.rcb_sub_data@,
            flattened: self.flattened@,
            sgrouptmp: self.sgrouptmp,
            parsemode: self.parsemode,
            iedtypematched: self.iedtypematched,
            iednameproc: self.iednameproc@,
            scl_services: self.scl_services@,
        }
    }
}

/// The state of a walk.
#[derive(Debug)]
pub struct IcdParseContext2 {
    /// The list of all element tables.
    pub opr_tb: Vec<SxElement>,
    /// Why the handler runs: for an opening or for a closing tag.
    pub reason: u32,
    /// The status code; 0 while all is well.
    pub errcode: u32,
    /// The element tables that are open, the innermost last.
    pub items: Vec<SxElementTblCtrl2>,
    /// Set when the walk is to stop.
    pub termflag: bool,
    /// For each element that is open, its position in the list of tables, or
    /// nothing for an element that the reader does not know.
    pub eltbl: Vec<Option<usize>>,
    /// What the handlers keep between elements.
    pub scl_dec_ctrl: SclDecCtrl,
    /// The last opening tag of an element that the reader knows.
    pub op_start_tag: Option<TagInfo>,
    /// The last text that was read since then.
    pub op_entry_text: Option<String>,
}

/// The view of [`IcdParseContext2`].
#[verifier::ext_equal]
pub struct IcdParseContext2View {
    pub opr_tb: Seq<SxElementView>,
    pub reason: u32,
    pub errcode: u32,
    pub items: Seq<SxElementTblCtrl2View>,
    pub termflag: bool,
    pub eltbl: Seq<Option<usize>>,
    pub scl_dec_ctrl: SclDecCtrlView,
    pub op_start_tag: Option<TagInfoView>,
    pub op_entry_text: Option<Seq<char>>,
}

impl View for IcdParseContext2 {
    type V = IcdParseContext2View;

    open spec fn view(&self) -> IcdParseContext2View {
        IcdParseContext2View {
            opr_tb: element_views(self.opr_tb@),
            reason: self.reason,
            errcode: self.errcode,
            items: self.items@.map_values(|t: SxElementTblCtrl2| t@),
            termflag: self.termflag,
            eltbl: self.eltbl@,
            scl_dec_ctrl: self.scl_dec_ctrl@,
            op_start_tag: opt_tag_view(self.op_start_tag),
            op_entry_text: opt_string_view(self.op_entry_text),
        }
    }
}

/// The place in `itemtbl` of the last element named `tag`, if one is.
pub open spec fn find_slot(tb: Seq<SxElementView>, itemtbl: Seq<usize>, tag: Seq<char>) -> Option<
    int,
>
    decreases itemtbl.len(),
{
    if itemtbl.len() == 0 {
        None
    } else if itemtbl.last() < tb.len() && same_name(tb[itemtbl.last() as int].tag, tag) {
        Some(itemtbl.len() - 1)
    } else {
        find_slot(tb, itemtbl.drop_last(), tag)
    }
}

/// `n` and one more, as far as a `u32` counts.
pub open spec fn count_up(n: u32) -> u32 {
    if n < u32::MAX {
        (n + 1) as u32
    } else {
        n
    }
}

/// The services of a device of which nothing is known yet: none is
/// offered, and every report setting is `Fix`.
pub open spec fn initial_services() -> SclServicesView {
    let off = SclServiceWithMaxView { enabled: false, max: 0 };
    SclServicesView {
        getdirectory: false,
        getdataobjectdefinition: false,
        dataobjectdirectory: false,
        getdatasetvalue: false,
        setdatasetvalue: false,
        datasetdirectory: false,
        readwrite: false,
        timeractivatedcontrol: false,
        getcbvalues: false,
        gsedir: false,
        filehandling: false,
        confldname: false,
        conflogcontrol: off,
        goose: off,
        gsse: off,
        smvsc: off,
        supsubscription: off,
        confsigref: off,
        reportsettings: SclReportsettingsView {
            cbname: "Fix"@,
            datset: "Fix"@,
            rptid: "Fix"@,
            optfields: "Fix"@,
            buftime: "Fix"@,
            trgops: "Fix"@,
            intgpd: "Fix"@,
            resvtms: false,
            owner: false,
        },
    }
}

/// The services as a device holds them before its `Services` element is read.
pub open spec fn blank_services() -> SclServicesView {
    SclServicesView {
        reportsettings: SclReportsettingsView {
            cbname: seq![],
            datset: seq![],
            rptid: seq![],
            optfields: seq![],
            buftime: seq![],
            trgops: seq![],
            intgpd: seq![],
            resvtms: false,
            owner: false,
        },
        ..initial_services()
    }
}

/// A tree into which nothing has been read.
pub open spec fn empty_info(options: SclOptionsView) -> SclInfoView {
    SclInfoView {
        edition: 0,
        options,
        header: SclHeaderView { id: seq![], namestructure: 0 },
        subnet_vec: seq![],
        lntype_vec: seq![],
        dotype_vec: seq![],
        datype_vec: seq![],
        enumtype_vec: seq![],
        server_vec: seq![],
        datatype_create_done: false,
        ld_create_done: false,
    }
}

/// The state before the first element, with no table open.
pub open spec fn initial_context(
    iedname: Seq<char>,
    accesspointname: Seq<char>,
    options: SclOptionsView,
) -> IcdParseContext2View {
    IcdParseContext2View {
        opr_tb: element_table(),
        reason: 0,
        errcode: 0,
        items: seq![],
        termflag: false,
        eltbl: seq![],
        scl_dec_ctrl: SclDecCtrlView {
            iedname,
            accesspointname,
            accesspointfound: false,
            iednamematched: false,
            accesspointmatched: false,
            sclinfo: empty_info(options),
            trgops: seq![0u8],
            rcb_sub_data: RcbSubDataView { rcb_optflds: seq![0u8, 0u8], max: 0 },
            flattened: seq![],
            sgrouptmp: 0,
            parsemode: 0,
            iedtypematched: false,
            iednameproc: seq![],
            scl_services: blank_services(),
        },
        op_start_tag: None,
        op_entry_text: None,
    }
}

impl IcdParseContext2View {
    /// Whether the status code stops the walk: every code does but those of
    /// success and of a failed conversion.
    pub open spec fn latched(self) -> bool {
        self.errcode != SD_SUCCESS && self.errcode != SX_ERR_CONVERT
    }

    /// The value of the attribute `name` of the last opening tag.
    pub open spec fn attr(self, name: Seq<char>) -> Option<Seq<char>> {
        match self.op_start_tag {
            Some(t) => attr_value(t.atts, name),
            None => None,
        }
    }

    /// The state after a required attribute was found missing.
    pub open spec fn attr_missing(self) -> Self {
        IcdParseContext2View { errcode: SX_ERR_REQUIRED_ATTR_NOT_FOUND, termflag: true, ..self }
    }

    /// The state after the attribute `name` was asked for.
    pub open spec fn after_attr(self, name: Seq<char>, required: bool) -> Self {
        if required && self.attr(name) is None {
            self.attr_missing()
        } else {
            self
        }
    }

    /// The state after a handler refused what it read.
    pub open spec fn user_error(self) -> Self {
        IcdParseContext2View { errcode: SX_USER_ERROR, ..self }
    }

    /// The state after a handler refused what it read and asked the walk to stop.
    pub open spec fn user_error_stop(self) -> Self {
        IcdParseContext2View { errcode: SX_USER_ERROR, termflag: true, ..self }
    }

    /// The state after the table `itemtbl` was opened, or refused.
    pub open spec fn pushed(self, itemtbl: Seq<usize>) -> Self {
        if self.items.len() >= SX_MAX_STACK_LEVEL {
            IcdParseContext2View { errcode: SX_XML_NEST_TOO_DEEP, ..self }
        } else if itemtbl.len() > SX_MAX_ITEMS_PER_TABLE {
            IcdParseContext2View { errcode: SX_ELEMENT_TBL_TOO_BIG, ..self }
        } else {
            IcdParseContext2View { items: self.items.push(fresh_table(itemtbl)), ..self }
        }
    }

    /// The state after the innermost table was closed.
    pub open spec fn popped(self) -> Self {
        if self.items.len() > 0 {
            IcdParseContext2View { items: self.items.drop_last(), ..self }
        } else {
            self
        }
    }

    /// The state with another tree.
    pub open spec fn with_info(self, sclinfo: SclInfoView) -> Self {
        IcdParseContext2View {
            scl_dec_ctrl: SclDecCtrlView { sclinfo, ..self.scl_dec_ctrl },
            ..self
        }
    }

    /// The tree as far as it has been built.
    pub open spec fn info(self) -> SclInfoView {
        self.scl_dec_ctrl.sclinfo
    }

    /// The position, in the list of all tables, of the element named `tag`
    /// in the innermost open table.
    pub open spec fn found(self, tag: Seq<char>) -> Option<usize> {
        if self.items.len() > 0 {
            match find_slot(self.opr_tb, self.items.last().itemtbl, tag) {
                Some(slot) => Some(self.items.last().itemtbl[slot]),
                None => None,
            }
        } else {
            None
        }
    }

    /// Whether the element named `tag` has occurred before among its
    /// siblings although it may not repeat.
    pub open spec fn is_duplicate(self, tag: Seq<char>) -> bool {
        self.items.len() > 0 && match find_slot(self.opr_tb, self.items.last().itemtbl, tag) {
            Some(slot) => slot < SX_MAX_ITEMS_PER_TABLE && self.items.last().num_occ_tbl[slot] != 0
                && self.opr_tb[self.items.last().itemtbl[slot] as int].elementflags & SX_ELF_RPT
                == 0,
            None => false,
        }
    }

    /// The state after the element named `tag` was looked up: its
    /// occurrence is counted, and a duplicate is refused.
    pub open spec fn after_find(self, tag: Seq<char>) -> Self {
        if self.items.len() > 0 {
            match find_slot(self.opr_tb, self.items.last().itemtbl, tag) {
                Some(slot) => {
                    let frame = self.items.last();
                    let counted = if slot < SX_MAX_ITEMS_PER_TABLE {
                        SxElementTblCtrl2View {
                            num_occ_tbl: frame.num_occ_tbl.update(
                                slot,
                                count_up(frame.num_occ_tbl[slot]),
                            ),
                            ..frame
                        }
                    } else {
                        frame
                    };
                    IcdParseContext2View {
                        errcode: if self.is_duplicate(tag) {
                            SX_DUPLICATE_NOT_ALLOWED
                        } else {
                            self.errcode
                        },
                        items: self.items.update(self.items.len() - 1, counted),
                        ..self
                    }
                },
                None => self,
            }
        } else {
            self
        }
    }
}

impl IcdParseContext2 {
    /// The state before the first element: all tables listed, none open.
    pub fn init_data() -> (r: IcdParseContext2)
        ensures
            r@ == initial_context(seq![], seq![], (SclOptionsView {
                forceedition: 0,
                includeowner: false,
            })),
    {
        let off = SclServiceWithMax { enabled: false, max: 0 };
        let r = IcdParseContext2 {
            opr_tb: gen_element_table(),
            reason: 0,
            errcode: 0,
            items: Vec::new(),
            termflag: false,
            eltbl: Vec::new(),
            scl_dec_ctrl: SclDecCtrl {
                iedname: String::new(),
                accesspointname: String::new(),
                accesspointfound: false,
                iednamematched: false,
                accesspointmatched: false,
                sclinfo: SclInfo {
                    edition: 0,
                    options: SclOptions { forceedition: 0, includeowner: false },
                    header: SclHeader { id: String::new(), namestructure: 0 },
                    subnet_vec: Vec::new(),
                    lntype_vec: Vec::new(),
                    dotype_vec: Vec::new(),
                    datype_vec: Vec::new(),
                    enumtype_vec: Vec::new(),
                    server_vec: Vec::new(),
                    datatype_create_done: false,
                    ld_create_done: false,
                },
                trgops: [0u8; 1],
                rcb_sub_data: RcbSubData { rcb_optflds: [0u8; 2], max: 0 },
                flattened: String::new(),
                sgrouptmp: 0,
                parsemode: 0,
                iedtypematched: false,
                iednameproc: String::new(),
                scl_services: SclServices {
                    getdirectory: false,
                    getdataobjectdefinition: false,
                    dataobjectdirectory: false,
                    getdatasetvalue: false,
                    setdatasetvalue: false,
                    datasetdirectory: false,
                    readwrite: false,
                    timeractivatedcontrol: false,
                    getcbvalues: false,
                    gsedir: false,
                    filehandling: false,
                    confldname: false,
                    conflogcontrol: off.clone(),
                    goose: off.clone(),
                    gsse: off.clone(),
                    smvsc: off.clone(),
                    supsubscription: off.clone(),
                    confsigref: off,
                    reportsettings: SclReportsettings {
                        cbname: String::new(),
                        datset: String::new(),
                        rptid: String::new(),
                        optfields: String::new(),
                        buftime: String::new(),
                        trgops: String::new(),
                        intgpd: String::new(),
                        resvtms: false,
                        owner: false,
                    },
                },
            },
            op_start_tag: None,
            op_entry_text: None,
        };
        assert(r@ =~~= initial_context(seq![], seq![], (SclOptionsView {
            forceedition: 0,
            includeowner: false,
        })));
        r
    }

    /// Opens the table `itemtbl`; refuses it if too many tables are open or
    /// if it lists too many elements.
    pub fn sx_push(&mut self, itemtbl: Vec<usize>)
        ensures
            final(self)@ == old(self)@.pushed(itemtbl@),
    {
        if self.items.len() >= SX_MAX_STACK_LEVEL {
            self.errcode = SX_XML_NEST_TOO_DEEP;
            return ;
        }
        if itemtbl.len() > SX_MAX_ITEMS_PER_TABLE {
            self.errcode = SX_ELEMENT_TBL_TOO_BIG;
            return ;
        }
        let frame = SxElementTblCtrl2 { itemtbl, num_occ_tbl: [0u32; 50] };
        assert(frame@ =~~= fresh_table(itemtbl@));
        self.items.push(frame);
        assert(self@ =~~= old(self)@.pushed(itemtbl@));
    }

    /// Closes the innermost table, if one is open.
    pub fn sx_pop(&mut self)
        ensures
            final(self)@ == old(self)@.popped(),
    {
        if self.items.len() > 0 {
            self.items.pop();
            assert(self@ =~~= old(self)@.popped());
        }
    }

    /// The value of the attribute `name` of the last opening tag. Where a
    /// required attribute is missing, the status code says so and the walk
    /// is asked to stop.
    pub fn scl_get_attr_ptr(&mut self, name: &str, required: bool) -> (r: Option<String>)
        ensures
            opt_string_view(r) == old(self)@.attr(name@),
            final(self)@ == old(self)@.after_attr(name@, required),
    {
        let found = match &self.op_start_tag {
            Some(item) => item.attr(name),
            None => None,
        };
        if found.is_none() && required {
            self.errcode = SX_ERR_REQUIRED_ATTR_NOT_FOUND;
            self.termflag = true;
        }
        found
    }

    /// Looks up the element named `tag` in the innermost open table.
    /// Where it stands there, its occurrence is counted, a duplicate of an
    /// element that may not repeat is refused, and the position of the
    /// element in the list of all tables is returned.
    pub fn uibed_find_element(&mut self, tag: &str) -> (r: Option<usize>)
        ensures
            r == old(self)@.found(tag@),
            final(self)@ == old(self)@.after_find(tag@),
            r matches Some(index) ==> index < old(self).opr_tb@.len(),
    {
        if self.items.len() == 0 {
            return None;
        }
        let last_index = self.items.len() - 1;
        let n = self.items[last_index].itemtbl.len();
        let ghost tb = self@.opr_tb;
        let ghost itemtbl = self.items@[last_index as int].itemtbl@;
        let mut found: Option<usize> = None;
        let mut i: usize = 0;
        assert(itemtbl.take(0) =~= Seq::<usize>::empty());
        while i < n
            invariant
                i <= n,
                n == itemtbl.len(),
                last_index < self.items@.len(),
                itemtbl == self.items@[last_index as int].itemtbl@,
                tb == element_views(self.opr_tb@),
                match found {
                    Some(k) => find_slot(tb, itemtbl.take(i as int), tag@) == Some(k as int)
                        && k < i,
                    None => find_slot(tb, itemtbl.take(i as int), tag@) is None,
                },
            decreases n - i,
        {
            let e = self.items[last_index].itemtbl[i];
            proof {
                assert(itemtbl.take(i + 1).drop_last() =~= itemtbl.take(i as int));
                assert(itemtbl.take(i + 1).last() == e);
            }
            if e < self.opr_tb.len() {
                if same_text(self.opr_tb[e].tag.as_str(), tag) {
                    found = Some(i);
                }
            }
            i = i + 1;
        }
        assert(itemtbl.take(n as int) =~= itemtbl);
        match found {
            Some(find_index) => {
                let res_index = self.items[last_index].itemtbl[find_index];
                proof {
                    lemma_find_slot_in_table(tb, itemtbl, tag@);
                }
                if find_index < SX_MAX_ITEMS_PER_TABLE {
                    let elementflags = self.opr_tb[res_index].elementflags;
                    let occ = self.items[last_index].num_occ_tbl[find_index];
                    if occ != 0 && (elementflags & SX_ELF_RPT) == 0 {
                        self.errcode = SX_DUPLICATE_NOT_ALLOWED;
                    }
                    self.items[last_index].num_occ_tbl[find_index] = if occ < u32::MAX {
                        occ + 1
                    } else {
                        occ
                    };
                }
                assert(self@ =~~= old(self)@.after_find(tag@));
                Some(res_index)
            },
            None => None,
        }
    }
}

/// The place that [`find_slot`] returns lies in the table, and the element
/// there is listed among all tables.
pub proof fn lemma_find_slot_in_table(tb: Seq<SxElementView>, itemtbl: Seq<usize>, tag: Seq<char>)
    ensures
        find_slot(tb, itemtbl, tag) matches Some(slot) ==> 0 <= slot < itemtbl.len()
            && itemtbl[slot] < tb.len() && same_name(tb[itemtbl[slot] as int].tag, tag),
    decreases itemtbl.len(),
{
    if itemtbl.len() > 0 {
        lemma_find_slot_in_table(tb, itemtbl.drop_last(), tag);
    }
}

impl IcdParseContext2 {
    /// The value of the attribute `name` of the last opening tag, if it
    /// has one; nothing is changed where it has none.
    pub fn opt_attr(&self, name: &str) -> (r: Option<String>)
        ensures
            opt_string_view(r) == self@.attr(name@),
    {
        match &self.op_start_tag {
            Some(item) => item.attr(name),
            None => None,
        }
    }

    /// The value of the attribute `name`, which the element must have.
    pub fn req_attr(&mut self, name: &str) -> (r: Option<String>)
        ensures
            opt_string_view(r) == old(self)@.attr(name@),
            r is Some ==> final(self)@ == old(self)@,
            r is None ==> final(self)@ == old(self)@.attr_missing(),
    {
        self.scl_get_attr_ptr(name, true)
    }

    /// Refuses what the handler has read.
    pub fn set_user_error(&mut self)
        ensures
            final(self)@ == old(self)@.user_error(),
    {
        self.errcode = SX_USER_ERROR;
    }
}

/// Why a handler does not take what it has read.
#[derive(Clone, Copy, Debug, PartialEq, Eq, Structural)]
pub enum Refusal {
    /// A required attribute is missing: the walk is asked to stop.
    Missing,
    /// A value is not what it must be.
    Refused,
    /// A value is not what it must be, and the walk is asked to stop.
    Stop,
}

impl IcdParseContext2View {
    /// The state after a handler has refused what it read.
    pub open spec fn refused(self, why: Refusal) -> Self {
        match why {
            Refusal::Missing => self.attr_missing(),
            Refusal::Refused => self.user_error(),
            Refusal::Stop => self.user_error_stop(),
        }
    }
}

impl IcdParseContext2 {
    /// Records that a handler has refused what it read.
    pub fn refuse(&mut self, why: Refusal)
        ensures
            final(self)@ == old(self)@.refused(why),
    {
        match why {
            Refusal::Missing => {
                self.errcode = SX_ERR_REQUIRED_ATTR_NOT_FOUND;
                self.termflag = true;
            },
            Refusal::Refused => {
                self.errcode = SX_USER_ERROR;
            },
            Refusal::Stop => {
                self.errcode = SX_USER_ERROR;
                self.termflag = true;
            },
        }
    }
}

} // verus!
