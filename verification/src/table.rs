//! The element tables: for each place in a document, the elements that the
//! reader knows there, when their handler runs and whether they may repeat.
//!
//! All tables stand one after the other in one list, and a place in a
//! document is described by the positions of its elements in that list.

use crate::consts::{
    SX_ELF_CSTART, SX_ELF_CSTARTEND, SX_ELF_OPT, SX_ELF_OPTRPT, SX_ELF_RPT,
};
use vstd::prelude::*;

verus! {

/// Names the handler of an element.
#[derive(Clone, Copy, Debug, PartialEq, Eq, Structural)]
pub enum HandlerId {
    Scl,
    Header,
    Communication,
    Ied,
    DataTypeTemplates,
    SubNetwork,
    Services,
    AccessPoint,
    LNodeType,
    DoType,
    DaType,
    EnumType,
    ConnectedAp,
    Address,
    Gse,
    Smv,
    AddressP,
    GseAddress,
    GseMinTime,
    GseMaxTime,
    GseAddressP,
    SmvAddress,
    SmvAddressP,
    Server,
    LDevice,
    Ln,
    DataSet,
    ReportControl,
    Doi,
    SampledValueControl,
    LogControl,
    SettingControl,
    GseControl,
    Inputs,
    Fcda,
    TrgOps,
    OptFlds,
    RptEnabled,
    SmvOpts,
    ExtRef,
    Sdi,
    Dai,
    DaiVal,
    Do,
    Da,
    Sdo,
    DaVal,
    Bda,
    BdaVal,
    EnumVal,
    GetDirectory,
    GetDataObjectDefinition,
    DataObjectDirectory,
    GetDataSetValue,
    SetDataSetValue,
    DataSetDirectory,
    ReadWrite,
    TimerActivatedControl,
    GetCbValues,
    GseDir,
    FileHandling,
    ConfLdName,
    ConfLogControl,
    Goose,
    Gsse,
    SmvSc,
    SupSubscription,
    ConfSigRef,
    ReportSettings,
}

/// One entry of an element table.
#[derive(Clone, Debug)]
pub struct SxElement {
    /// The name of the element.
    pub tag: String,
    /// When the handler runs, and whether the element may be absent or repeat.
    pub elementflags: u32,
    /// The handler of the element.
    pub handler: HandlerId,
}

/// The view of [`SxElement`].
#[verifier::ext_equal]
pub struct SxElementView {
    pub tag: Seq<char>,
    pub elementflags: u32,
    pub handler: HandlerId,
}

impl View for SxElement {
    type V = SxElementView;

    open spec fn view(&self) -> SxElementView {
        SxElementView { tag: self.tag@, elementflags: self.elementflags, handler: self.handler }
    }
}

/// The views of a list of entries.
pub open spec fn element_views(tb: Seq<SxElement>) -> Seq<SxElementView> {
    tb.map_values(|e: SxElement| e@)
}

/// An entry with the given name, flags and handler.
pub open spec fn entry(tag: Seq<char>, elementflags: u32, handler: HandlerId) -> SxElementView {
    SxElementView { tag, elementflags, handler }
}

/// Makes an entry.
pub fn new_entry(tag: &str, elementflags: u32, handler: HandlerId) -> (r: SxElement)
    ensures
        r@ == entry(tag@, elementflags, handler),
{
    SxElement { tag: tag.to_string(), elementflags, handler }
}

/// The root of a document.
pub open spec fn scl_tb() -> Seq<SxElementView> {
    seq![
        entry("SCL"@, SX_ELF_CSTARTEND, HandlerId::Scl),
    ]
}

/// Builds the table of [`scl_tb`].
pub fn gen_scl_tb() -> (tb: Vec<SxElement>)
    ensures
        element_views(tb@) == scl_tb(),
{
    let mut tb: Vec<SxElement> = Vec::with_capacity(1);
    tb.push(new_entry("SCL", SX_ELF_CSTARTEND, HandlerId::Scl));
    assert(element_views(tb@) =~= scl_tb());
    tb
}

/// The children of `SCL`.
pub open spec fn sub_scl_tb() -> Seq<SxElementView> {
    seq![
        entry("Header"@, SX_ELF_CSTART | SX_ELF_OPT, HandlerId::Header),
        entry("Communication"@, SX_ELF_CSTARTEND | SX_ELF_OPT, HandlerId::Communication),
        entry("IED"@, SX_ELF_CSTARTEND | SX_ELF_OPTRPT, HandlerId::Ied),
        entry("DataTypeTemplates"@, SX_ELF_CSTARTEND | SX_ELF_OPT, HandlerId::DataTypeTemplates),
    ]
}

/// Builds the table of [`sub_scl_tb`].
pub fn gen_sub_scl_tb() -> (tb: Vec<SxElement>)
    ensures
        element_views(tb@) == sub_scl_tb(),
{
    let mut tb: Vec<SxElement> = Vec::with_capacity(4);
    tb.push(new_entry("Header", SX_ELF_CSTART | SX_ELF_OPT, HandlerId::Header));
    tb.push(new_entry("Communication", SX_ELF_CSTARTEND | SX_ELF_OPT, HandlerId::Communication));
    tb.push(new_entry("IED", SX_ELF_CSTARTEND | SX_ELF_OPTRPT, HandlerId::Ied));
    tb.push(
        new_entry("DataTypeTemplates", SX_ELF_CSTARTEND | SX_ELF_OPT, HandlerId::DataTypeTemplates),
    );
    assert(element_views(tb@) =~= sub_scl_tb());
    tb
}

/// The children of `Communication`.
pub open spec fn sub_commu_tb() -> Seq<SxElementView> {
    seq![
        entry("SubNetwork"@, SX_ELF_CSTARTEND | SX_ELF_OPTRPT, HandlerId::SubNetwork),
    ]
}

/// Builds the table of [`sub_commu_tb`].
pub fn gen_sub_commu_tb() -> (tb: Vec<SxElement>)
    ensures
        element_views(tb@) == sub_commu_tb(),
{
    let mut tb: Vec<SxElement> = Vec::with_capacity(1);
    tb.push(new_entry("SubNetwork", SX_ELF_CSTARTEND | SX_ELF_OPTRPT, HandlerId::SubNetwork));
    assert(element_views(tb@) =~= sub_commu_tb());
    tb
}

/// The children of the `IED` that was asked for.
pub open spec fn sub_ied_tb() -> Seq<SxElementView> {
    seq![
        entry("Services"@, SX_ELF_CSTARTEND, HandlerId::Services),
        entry("AccessPoint"@, SX_ELF_CSTARTEND | SX_ELF_RPT, HandlerId::AccessPoint),
    ]
}

/// Builds the table of [`sub_ied_tb`].
pub fn gen_sub_ied_tb() -> (tb: Vec<SxElement>)
    ensures
        element_views(tb@) == sub_ied_tb(),
{
    let mut tb: Vec<SxElement> = Vec::with_capacity(2);
    tb.push(new_entry("Services", SX_ELF_CSTARTEND, HandlerId::Services));
    tb.push(new_entry("AccessPoint", SX_ELF_CSTARTEND | SX_ELF_RPT, HandlerId::AccessPoint));
    assert(element_views(tb@) =~= sub_ied_tb());
    tb
}

/// The children of `DataTypeTemplates`.
pub open spec fn sub_datatypetemplate_tb() -> Seq<SxElementView> {
    seq![
        entry("LNodeType"@, SX_ELF_CSTARTEND | SX_ELF_RPT, HandlerId::LNodeType),
        entry("DOType"@, SX_ELF_CSTARTEND | SX_ELF_RPT, HandlerId::DoType),
        entry("DAType"@, SX_ELF_CSTARTEND | SX_ELF_OPTRPT, HandlerId::DaType),
        entry("EnumType"@, SX_ELF_CSTARTEND | SX_ELF_OPTRPT, HandlerId::EnumType),
    ]
}

/// Builds the table of [`sub_datatypetemplate_tb`].
pub fn gen_sub_datatypetemplate_tb() -> (tb: Vec<SxElement>)
    ensures
        element_views(tb@) == sub_datatypetemplate_tb(),
{
    let mut tb: Vec<SxElement> = Vec::with_capacity(4);
    tb.push(new_entry("LNodeType", SX_ELF_CSTARTEND | SX_ELF_RPT, HandlerId::LNodeType));
    tb.push(new_entry("DOType", SX_ELF_CSTARTEND | SX_ELF_RPT, HandlerId::DoType));
    tb.push(new_entry("DAType", SX_ELF_CSTARTEND | SX_ELF_OPTRPT, HandlerId::DaType));
    tb.push(new_entry("EnumType", SX_ELF_CSTARTEND | SX_ELF_OPTRPT, HandlerId::EnumType));
    assert(element_views(tb@) =~= sub_datatypetemplate_tb());
    tb
}

/// The children of `SubNetwork`.
pub open spec fn subnetworkelements_tb() -> Seq<SxElementView> {
    seq![
        entry("ConnectedAP"@, SX_ELF_CSTARTEND | SX_ELF_OPTRPT, HandlerId::ConnectedAp),
    ]
}

/// Builds the table of [`subnetworkelements_tb`].
pub fn gen_subnetworkelements_tb() -> (tb: Vec<SxElement>)
    ensures
        element_views(tb@) == subnetworkelements_tb(),
{
    let mut tb: Vec<SxElement> = Vec::with_capacity(1);
    tb.push(new_entry("ConnectedAP", SX_ELF_CSTARTEND | SX_ELF_OPTRPT, HandlerId::ConnectedAp));
    assert(element_views(tb@) =~= subnetworkelements_tb());
    tb
}

/// The children of `ConnectedAP`.
pub open spec fn connectedapelements_tb() -> Seq<SxElementView> {
    seq![
        entry("Address"@, SX_ELF_CSTARTEND | SX_ELF_OPTRPT, HandlerId::Address),
        entry("GSE"@, SX_ELF_CSTARTEND | SX_ELF_OPTRPT, HandlerId::Gse),
        entry("SMV"@, SX_ELF_CSTARTEND | SX_ELF_OPTRPT, HandlerId::Smv),
    ]
}

/// Builds the table of [`connectedapelements_tb`].
pub fn gen_connectedapelements_tb() -> (tb: Vec<SxElement>)
    ensures
        element_views(tb@) == connectedapelements_tb(),
{
    let mut tb: Vec<SxElement> = Vec::with_capacity(3);
    tb.push(new_entry("Address", SX_ELF_CSTARTEND | SX_ELF_OPTRPT, HandlerId::Address));
    tb.push(new_entry("GSE", SX_ELF_CSTARTEND | SX_ELF_OPTRPT, HandlerId::Gse));
    tb.push(new_entry("SMV", SX_ELF_CSTARTEND | SX_ELF_OPTRPT, HandlerId::Smv));
    assert(element_views(tb@) =~= connectedapelements_tb());
    tb
}

/// The children of the `Address` of an access point.
pub open spec fn addresselements_tb() -> Seq<SxElementView> {
    seq![
        entry("P"@, SX_ELF_CSTARTEND | SX_ELF_OPTRPT, HandlerId::AddressP),
    ]
}

/// Builds the table of [`addresselements_tb`].
pub fn gen_addresselements_tb() -> (tb: Vec<SxElement>)
    ensures
        element_views(tb@) == addresselements_tb(),
{
    let mut tb: Vec<SxElement> = Vec::with_capacity(1);
    tb.push(new_entry("P", SX_ELF_CSTARTEND | SX_ELF_OPTRPT, HandlerId::AddressP));
    assert(element_views(tb@) =~= addresselements_tb());
    tb
}

/// The children of `GSE`.
pub open spec fn gseelements_tb() -> Seq<SxElementView> {
    seq![
        entry("Address"@, SX_ELF_CSTARTEND | SX_ELF_OPT, HandlerId::GseAddress),
        entry("MinTime"@, SX_ELF_CSTARTEND | SX_ELF_OPT, HandlerId::GseMinTime),
        entry("MaxTime"@, SX_ELF_CSTARTEND | SX_ELF_OPT, HandlerId::GseMaxTime),
    ]
}

/// Builds the table of [`gseelements_tb`].
pub fn gen_gseelements_tb() -> (tb: Vec<SxElement>)
    ensures
        element_views(tb@) == gseelements_tb(),
{
    let mut tb: Vec<SxElement> = Vec::with_capacity(3);
    tb.push(new_entry("Address", SX_ELF_CSTARTEND | SX_ELF_OPT, HandlerId::GseAddress));
    tb.push(new_entry("MinTime", SX_ELF_CSTARTEND | SX_ELF_OPT, HandlerId::GseMinTime));
    tb.push(new_entry("MaxTime", SX_ELF_CSTARTEND | SX_ELF_OPT, HandlerId::GseMaxTime));
    assert(element_views(tb@) =~= gseelements_tb());
    tb
}

/// The children of the `Address` of a `GSE`.
pub open spec fn gseaddresselements_tb() -> Seq<SxElementView> {
    seq![
        entry("P"@, SX_ELF_CSTARTEND | SX_ELF_OPTRPT, HandlerId::GseAddressP),
    ]
}

/// Builds the table of [`gseaddresselements_tb`].
pub fn gen_gseaddresselements_tb() -> (tb: Vec<SxElement>)
    ensures
        element_views(tb@) == gseaddresselements_tb(),
{
    let mut tb: Vec<SxElement> = Vec::with_capacity(1);
    tb.push(new_entry("P", SX_ELF_CSTARTEND | SX_ELF_OPTRPT, HandlerId::GseAddressP));
    assert(element_views(tb@) =~= gseaddresselements_tb());
    tb
}

/// The children of `SMV`.
pub open spec fn smvelements_tb() -> Seq<SxElementView> {
    seq![
        entry("Address"@, SX_ELF_CSTARTEND | SX_ELF_OPT, HandlerId::SmvAddress),
    ]
}

/// Builds the table of [`smvelements_tb`].
pub fn gen_smvelements_tb() -> (tb: Vec<SxElement>)
    ensures
        element_views(tb@) == smvelements_tb(),
{
    let mut tb: Vec<SxElement> = Vec::with_capacity(1);
    tb.push(new_entry("Address", SX_ELF_CSTARTEND | SX_ELF_OPT, HandlerId::SmvAddress));
    assert(element_views(tb@) =~= smvelements_tb());
    tb
}

/// The children of the `Address` of an `SMV`.
pub open spec fn smvaddresselements_tb() -> Seq<SxElementView> {
    seq![
        entry("P"@, SX_ELF_CSTARTEND | SX_ELF_OPTRPT, HandlerId::SmvAddressP),
    ]
}

/// Builds the table of [`smvaddresselements_tb`].
pub fn gen_smvaddresselements_tb() -> (tb: Vec<SxElement>)
    ensures
        element_views(tb@) == smvaddresselements_tb(),
{
    let mut tb: Vec<SxElement> = Vec::with_capacity(1);
    tb.push(new_entry("P", SX_ELF_CSTARTEND | SX_ELF_OPTRPT, HandlerId::SmvAddressP));
    assert(element_views(tb@) =~= smvaddresselements_tb());
    tb
}

/// The children of the `AccessPoint` that was asked for.
pub open spec fn accesspointelements_tb() -> Seq<SxElementView> {
    seq![
        entry("Server"@, SX_ELF_CSTARTEND, HandlerId::Server),
    ]
}

/// Builds the table of [`accesspointelements_tb`].
pub fn gen_accesspointelements_tb() -> (tb: Vec<SxElement>)
    ensures
        element_views(tb@) == accesspointelements_tb(),
{
    let mut tb: Vec<SxElement> = Vec::with_capacity(1);
    tb.push(new_entry("Server", SX_ELF_CSTARTEND, HandlerId::Server));
    assert(element_views(tb@) =~= accesspointelements_tb());
    tb
}

/// The children of `Server`.
pub open spec fn serverelements_tb() -> Seq<SxElementView> {
    seq![
        entry("LDevice"@, SX_ELF_CSTARTEND | SX_ELF_RPT, HandlerId::LDevice),
    ]
}

/// Builds the table of [`serverelements_tb`].
pub fn gen_serverelements_tb() -> (tb: Vec<SxElement>)
    ensures
        element_views(tb@) == serverelements_tb(),
{
    let mut tb: Vec<SxElement> = Vec::with_capacity(1);
    tb.push(new_entry("LDevice", SX_ELF_CSTARTEND | SX_ELF_RPT, HandlerId::LDevice));
    assert(element_views(tb@) =~= serverelements_tb());
    tb
}

/// The children of `LDevice`.
pub open spec fn ldeviceelements_tb() -> Seq<SxElementView> {
    seq![
        entry("LN0"@, SX_ELF_CSTARTEND, HandlerId::Ln),
        entry("LN"@, SX_ELF_CSTARTEND | SX_ELF_OPTRPT, HandlerId::Ln),
    ]
}

/// Builds the table of [`ldeviceelements_tb`].
pub fn gen_ldeviceelements_tb() -> (tb: Vec<SxElement>)
    ensures
        element_views(tb@) == ldeviceelements_tb(),
{
    let mut tb: Vec<SxElement> = Vec::with_capacity(2);
    tb.push(new_entry("LN0", SX_ELF_CSTARTEND, HandlerId::Ln));
    tb.push(new_entry("LN", SX_ELF_CSTARTEND | SX_ELF_OPTRPT, HandlerId::Ln));
    assert(element_views(tb@) =~= ldeviceelements_tb());
    tb
}

/// The children of `LN0`.
pub open spec fn ln0elements_tb() -> Seq<SxElementView> {
    seq![
        entry("DataSet"@, SX_ELF_CSTARTEND | SX_ELF_OPTRPT, HandlerId::DataSet),
        entry("ReportControl"@, SX_ELF_CSTARTEND | SX_ELF_OPTRPT, HandlerId::ReportControl),
        entry("DOI"@, SX_ELF_CSTARTEND | SX_ELF_OPTRPT, HandlerId::Doi),
        entry(
            "SampledValueControl"@,
            SX_ELF_CSTARTEND | SX_ELF_OPTRPT,
            HandlerId::SampledValueControl,
        ),
        entry("LogControl"@, SX_ELF_CSTARTEND | SX_ELF_OPTRPT, HandlerId::LogControl),
        entry("SettingControl"@, SX_ELF_CSTART | SX_ELF_OPTRPT, HandlerId::SettingControl),
        entry("GSEControl"@, SX_ELF_CSTART | SX_ELF_OPTRPT, HandlerId::GseControl),
        entry("Inputs"@, SX_ELF_CSTARTEND | SX_ELF_OPTRPT, HandlerId::Inputs),
    ]
}

/// Builds the table of [`ln0elements_tb`].
pub fn gen_ln0elements_tb() -> (tb: Vec<SxElement>)
    ensures
        element_views(tb@) == ln0elements_tb(),
{
    let mut tb: Vec<SxElement> = Vec::with_capacity(8);
    tb.push(new_entry("DataSet", SX_ELF_CSTARTEND | SX_ELF_OPTRPT, HandlerId::DataSet));
    tb.push(new_entry("ReportControl", SX_ELF_CSTARTEND | SX_ELF_OPTRPT, HandlerId::ReportControl));
    tb.push(new_entry("DOI", SX_ELF_CSTARTEND | SX_ELF_OPTRPT, HandlerId::Doi));
    tb.push(
        new_entry(
            "SampledValueControl",
            SX_ELF_CSTARTEND | SX_ELF_OPTRPT,
            HandlerId::SampledValueControl,
        ),
    );
    tb.push(new_entry("LogControl", SX_ELF_CSTARTEND | SX_ELF_OPTRPT, HandlerId::LogControl));
    tb.push(new_entry("SettingControl", SX_ELF_CSTART | SX_ELF_OPTRPT, HandlerId::SettingControl));
    tb.push(new_entry("GSEControl", SX_ELF_CSTART | SX_ELF_OPTRPT, HandlerId::GseControl));
    tb.push(new_entry("Inputs", SX_ELF_CSTARTEND | SX_ELF_OPTRPT, HandlerId::Inputs));
    assert(element_views(tb@) =~= ln0elements_tb());
    tb
}

/// The children of `LN`.
pub open spec fn lnelements_tb() -> Seq<SxElementView> {
    seq![
        entry("DataSet"@, SX_ELF_CSTARTEND | SX_ELF_OPTRPT, HandlerId::DataSet),
        entry("ReportControl"@, SX_ELF_CSTARTEND | SX_ELF_OPTRPT, HandlerId::ReportControl),
        entry("DOI"@, SX_ELF_CSTARTEND | SX_ELF_OPTRPT, HandlerId::Doi),
        entry(
            "SampledValueControl"@,
            SX_ELF_CSTARTEND | SX_ELF_OPTRPT,
            HandlerId::SampledValueControl,
        ),
        entry("LogControl"@, SX_ELF_CSTARTEND | SX_ELF_OPTRPT, HandlerId::LogControl),
        entry("Inputs"@, SX_ELF_CSTARTEND | SX_ELF_OPTRPT, HandlerId::Inputs),
    ]
}

/// Builds the table of [`lnelements_tb`].
pub fn gen_lnelements_tb() -> (tb: Vec<SxElement>)
    ensures
        element_views(tb@) == lnelements_tb(),
{
    let mut tb: Vec<SxElement> = Vec::with_capacity(6);
    tb.push(new_entry("DataSet", SX_ELF_CSTARTEND | SX_ELF_OPTRPT, HandlerId::DataSet));
    tb.push(new_entry("ReportControl", SX_ELF_CSTARTEND | SX_ELF_OPTRPT, HandlerId::ReportControl));
    tb.push(new_entry("DOI", SX_ELF_CSTARTEND | SX_ELF_OPTRPT, HandlerId::Doi));
    tb.push(
        new_entry(
            "SampledValueControl",
            SX_ELF_CSTARTEND | SX_ELF_OPTRPT,
            HandlerId::SampledValueControl,
        ),
    );
    tb.push(new_entry("LogControl", SX_ELF_CSTARTEND | SX_ELF_OPTRPT, HandlerId::LogControl));
    tb.push(new_entry("Inputs", SX_ELF_CSTARTEND | SX_ELF_OPTRPT, HandlerId::Inputs));
    assert(element_views(tb@) =~= lnelements_tb());
    tb
}

/// The children of `DataSet`.
pub open spec fn datasetelements_tb() -> Seq<SxElementView> {
    seq![
        entry("FCDA"@, SX_ELF_CSTART | SX_ELF_RPT, HandlerId::Fcda),
    ]
}

/// Builds the table of [`datasetelements_tb`].
pub fn gen_datasetelements_tb() -> (tb: Vec<SxElement>)
    ensures
        element_views(tb@) == datasetelements_tb(),
{
    let mut tb: Vec<SxElement> = Vec::with_capacity(1);
    tb.push(new_entry("FCDA", SX_ELF_CSTART | SX_ELF_RPT, HandlerId::Fcda));
    assert(element_views(tb@) =~= datasetelements_tb());
    tb
}

/// The children of `ReportControl`.
pub open spec fn reportcontrolelements_tb() -> Seq<SxElementView> {
    seq![
        entry("TrgOps"@, SX_ELF_CSTART | SX_ELF_OPT, HandlerId::TrgOps),
        entry("OptFields"@, SX_ELF_CSTART, HandlerId::OptFlds),
        entry("RptEnabled"@, SX_ELF_CSTART | SX_ELF_OPT, HandlerId::RptEnabled),
    ]
}

/// Builds the table of [`reportcontrolelements_tb`].
pub fn gen_reportcontrolelements_tb() -> (tb: Vec<SxElement>)
    ensures
        element_views(tb@) == reportcontrolelements_tb(),
{
    let mut tb: Vec<SxElement> = Vec::with_capacity(3);
    tb.push(new_entry("TrgOps", SX_ELF_CSTART | SX_ELF_OPT, HandlerId::TrgOps));
    tb.push(new_entry("OptFields", SX_ELF_CSTART, HandlerId::OptFlds));
    tb.push(new_entry("RptEnabled", SX_ELF_CSTART | SX_ELF_OPT, HandlerId::RptEnabled));
    assert(element_views(tb@) =~= reportcontrolelements_tb());
    tb
}

/// The children of `LogControl`.
pub open spec fn logcontrolelements_tb() -> Seq<SxElementView> {
    seq![
        entry("TrgOps"@, SX_ELF_CSTART | SX_ELF_OPT, HandlerId::TrgOps),
    ]
}

/// Builds the table of [`logcontrolelements_tb`].
pub fn gen_logcontrolelements_tb() -> (tb: Vec<SxElement>)
    ensures
        element_views(tb@) == logcontrolelements_tb(),
{
    let mut tb: Vec<SxElement> = Vec::with_capacity(1);
    tb.push(new_entry("TrgOps", SX_ELF_CSTART | SX_ELF_OPT, HandlerId::TrgOps));
    assert(element_views(tb@) =~= logcontrolelements_tb());
    tb
}

/// The children of `SampledValueControl`.
pub open spec fn sampledvaluecontrolelements_tb() -> Seq<SxElementView> {
    seq![
        entry("SmvOpts"@, SX_ELF_CSTART, HandlerId::SmvOpts),
    ]
}

/// Builds the table of [`sampledvaluecontrolelements_tb`].
pub fn gen_sampledvaluecontrolelements_tb() -> (tb: Vec<SxElement>)
    ensures
        element_views(tb@) == sampledvaluecontrolelements_tb(),
{
    let mut tb: Vec<SxElement> = Vec::with_capacity(1);
    tb.push(new_entry("SmvOpts", SX_ELF_CSTART, HandlerId::SmvOpts));
    assert(element_views(tb@) =~= sampledvaluecontrolelements_tb());
    tb
}

/// The children of `Inputs`.
pub open spec fn inputselements_tb() -> Seq<SxElementView> {
    seq![
        entry("ExtRef"@, SX_ELF_CSTART | SX_ELF_OPTRPT, HandlerId::ExtRef),
    ]
}

/// Builds the table of [`inputselements_tb`].
pub fn gen_inputselements_tb() -> (tb: Vec<SxElement>)
    ensures
        element_views(tb@) == inputselements_tb(),
{
    let mut tb: Vec<SxElement> = Vec::with_capacity(1);
    tb.push(new_entry("ExtRef", SX_ELF_CSTART | SX_ELF_OPTRPT, HandlerId::ExtRef));
    assert(element_views(tb@) =~= inputselements_tb());
    tb
}

/// The children of `DOI`.
pub open spec fn doielements_tb() -> Seq<SxElementView> {
    seq![
        entry("SDI"@, SX_ELF_CSTARTEND | SX_ELF_OPTRPT, HandlerId::Sdi),
        entry("DAI"@, SX_ELF_CSTARTEND | SX_ELF_OPTRPT, HandlerId::Dai),
    ]
}

/// Builds the table of [`doielements_tb`].
pub fn gen_doielements_tb() -> (tb: Vec<SxElement>)
    ensures
        element_views(tb@) == doielements_tb(),
{
    let mut tb: Vec<SxElement> = Vec::with_capacity(2);
    tb.push(new_entry("SDI", SX_ELF_CSTARTEND | SX_ELF_OPTRPT, HandlerId::Sdi));
    tb.push(new_entry("DAI", SX_ELF_CSTARTEND | SX_ELF_OPTRPT, HandlerId::Dai));
    assert(element_views(tb@) =~= doielements_tb());
    tb
}

/// The children of `SDI`, which may nest to any depth.
pub open spec fn sdielements_tb() -> Seq<SxElementView> {
    seq![
        entry("SDI"@, SX_ELF_CSTARTEND | SX_ELF_OPTRPT, HandlerId::Sdi),
        entry("DAI"@, SX_ELF_CSTARTEND | SX_ELF_OPTRPT, HandlerId::Dai),
    ]
}

/// Builds the table of [`sdielements_tb`].
pub fn gen_sdielements_tb() -> (tb: Vec<SxElement>)
    ensures
        element_views(tb@) == sdielements_tb(),
{
    let mut tb: Vec<SxElement> = Vec::with_capacity(2);
    tb.push(new_entry("SDI", SX_ELF_CSTARTEND | SX_ELF_OPTRPT, HandlerId::Sdi));
    tb.push(new_entry("DAI", SX_ELF_CSTARTEND | SX_ELF_OPTRPT, HandlerId::Dai));
    assert(element_views(tb@) =~= sdielements_tb());
    tb
}

/// The children of `DAI`.
pub open spec fn daielements_tb() -> Seq<SxElementView> {
    seq![
        entry("Val"@, SX_ELF_CSTARTEND | SX_ELF_OPTRPT, HandlerId::DaiVal),
    ]
}

/// Builds the table of [`daielements_tb`].
pub fn gen_daielements_tb() -> (tb: Vec<SxElement>)
    ensures
        element_views(tb@) == daielements_tb(),
{
    let mut tb: Vec<SxElement> = Vec::with_capacity(1);
    tb.push(new_entry("Val", SX_ELF_CSTARTEND | SX_ELF_OPTRPT, HandlerId::DaiVal));
    assert(element_views(tb@) =~= daielements_tb());
    tb
}

/// The children of `LNodeType`.
pub open spec fn lnodetypeelements_tb() -> Seq<SxElementView> {
    seq![
        entry("DO"@, SX_ELF_CSTART | SX_ELF_RPT, HandlerId::Do),
    ]
}

/// Builds the table of [`lnodetypeelements_tb`].
pub fn gen_lnodetypeelements_tb() -> (tb: Vec<SxElement>)
    ensures
        element_views(tb@) == lnodetypeelements_tb(),
{
    let mut tb: Vec<SxElement> = Vec::with_capacity(1);
    tb.push(new_entry("DO", SX_ELF_CSTART | SX_ELF_RPT, HandlerId::Do));
    assert(element_views(tb@) =~= lnodetypeelements_tb());
    tb
}

/// The children of `DOType`.
pub open spec fn dotypeelements_tb() -> Seq<SxElementView> {
    seq![
        entry("DA"@, SX_ELF_CSTARTEND | SX_ELF_OPTRPT, HandlerId::Da),
        entry("SDO"@, SX_ELF_CSTART | SX_ELF_OPTRPT, HandlerId::Sdo),
    ]
}

/// Builds the table of [`dotypeelements_tb`].
pub fn gen_dotypeelements_tb() -> (tb: Vec<SxElement>)
    ensures
        element_views(tb@) == dotypeelements_tb(),
{
    let mut tb: Vec<SxElement> = Vec::with_capacity(2);
    tb.push(new_entry("DA", SX_ELF_CSTARTEND | SX_ELF_OPTRPT, HandlerId::Da));
    tb.push(new_entry("SDO", SX_ELF_CSTART | SX_ELF_OPTRPT, HandlerId::Sdo));
    assert(element_views(tb@) =~= dotypeelements_tb());
    tb
}

/// The children of `DA`.
pub open spec fn daelements_tb() -> Seq<SxElementView> {
    seq![
        entry("Val"@, SX_ELF_CSTARTEND | SX_ELF_OPTRPT, HandlerId::DaVal),
    ]
}

/// Builds the table of [`daelements_tb`].
pub fn gen_daelements_tb() -> (tb: Vec<SxElement>)
    ensures
        element_views(tb@) == daelements_tb(),
{
    let mut tb: Vec<SxElement> = Vec::with_capacity(1);
    tb.push(new_entry("Val", SX_ELF_CSTARTEND | SX_ELF_OPTRPT, HandlerId::DaVal));
    assert(element_views(tb@) =~= daelements_tb());
    tb
}

/// The children of `DAType`.
pub open spec fn datypeelements_tb() -> Seq<SxElementView> {
    seq![
        entry("BDA"@, SX_ELF_CSTARTEND | SX_ELF_RPT, HandlerId::Bda),
    ]
}

/// Builds the table of [`datypeelements_tb`].
pub fn gen_datypeelements_tb() -> (tb: Vec<SxElement>)
    ensures
        element_views(tb@) == datypeelements_tb(),
{
    let mut tb: Vec<SxElement> = Vec::with_capacity(1);
    tb.push(new_entry("BDA", SX_ELF_CSTARTEND | SX_ELF_RPT, HandlerId::Bda));
    assert(element_views(tb@) =~= datypeelements_tb());
    tb
}

/// The children of `BDA`.
pub open spec fn bdaelements_tb() -> Seq<SxElementView> {
    seq![
        entry("Val"@, SX_ELF_CSTARTEND | SX_ELF_OPTRPT, HandlerId::BdaVal),
    ]
}

/// Builds the table of [`bdaelements_tb`].
pub fn gen_bdaelements_tb() -> (tb: Vec<SxElement>)
    ensures
        element_views(tb@) == bdaelements_tb(),
{
    let mut tb: Vec<SxElement> = Vec::with_capacity(1);
    tb.push(new_entry("Val", SX_ELF_CSTARTEND | SX_ELF_OPTRPT, HandlerId::BdaVal));
    assert(element_views(tb@) =~= bdaelements_tb());
    tb
}

/// The children of `EnumType`.
pub open spec fn enumtypeelements_tb() -> Seq<SxElementView> {
    seq![
        entry("EnumVal"@, SX_ELF_CSTARTEND | SX_ELF_RPT, HandlerId::EnumVal),
    ]
}

/// Builds the table of [`enumtypeelements_tb`].
pub fn gen_enumtypeelements_tb() -> (tb: Vec<SxElement>)
    ensures
        element_views(tb@) == enumtypeelements_tb(),
{
    let mut tb: Vec<SxElement> = Vec::with_capacity(1);
    tb.push(new_entry("EnumVal", SX_ELF_CSTARTEND | SX_ELF_RPT, HandlerId::EnumVal));
    assert(element_views(tb@) =~= enumtypeelements_tb());
    tb
}

/// The children of `Services`.
pub open spec fn serviceselements_tb() -> Seq<SxElementView> {
    seq![
        entry("GetDirectory"@, SX_ELF_CSTART | SX_ELF_OPT, HandlerId::GetDirectory),
        entry(
            "GetDataObjectDefinition"@,
            SX_ELF_CSTART | SX_ELF_OPT,
            HandlerId::GetDataObjectDefinition,
        ),
        entry("DataObjectDirectory"@, SX_ELF_CSTART | SX_ELF_OPT, HandlerId::DataObjectDirectory),
        entry("GetDataSetValue"@, SX_ELF_CSTART | SX_ELF_OPT, HandlerId::GetDataSetValue),
        entry("SetDataSetValue"@, SX_ELF_CSTART | SX_ELF_OPT, HandlerId::SetDataSetValue),
        entry("DataSetDirectory"@, SX_ELF_CSTART | SX_ELF_OPT, HandlerId::DataSetDirectory),
        entry("ReadWrite"@, SX_ELF_CSTART | SX_ELF_OPT, HandlerId::ReadWrite),
        entry(
            "TimerActivatedControl"@,
            SX_ELF_CSTART | SX_ELF_OPT,
            HandlerId::TimerActivatedControl,
        ),
        entry("GetCBValues"@, SX_ELF_CSTART | SX_ELF_OPT, HandlerId::GetCbValues),
        entry("GSEDir"@, SX_ELF_CSTART | SX_ELF_OPT, HandlerId::GseDir),
        entry("FileHandling"@, SX_ELF_CSTART | SX_ELF_OPT, HandlerId::FileHandling),
        entry("ConfLdName"@, SX_ELF_CSTART | SX_ELF_OPT, HandlerId::ConfLdName),
        entry("ConfLogControl"@, SX_ELF_CSTART | SX_ELF_OPT, HandlerId::ConfLogControl),
        entry("GOOSE"@, SX_ELF_CSTART | SX_ELF_OPT, HandlerId::Goose),
        entry("GSSE"@, SX_ELF_CSTART | SX_ELF_OPT, HandlerId::Gsse),
        entry("SMVsc"@, SX_ELF_CSTART | SX_ELF_OPT, HandlerId::SmvSc),
        entry("SupSubscription"@, SX_ELF_CSTART | SX_ELF_OPT, HandlerId::SupSubscription),
        entry("ConfSigRef"@, SX_ELF_CSTART | SX_ELF_OPT, HandlerId::ConfSigRef),
        entry("ReportSettings"@, SX_ELF_CSTART | SX_ELF_OPT, HandlerId::ReportSettings),
    ]
}

/// Builds the table of [`serviceselements_tb`].
pub fn gen_serviceselements_tb() -> (tb: Vec<SxElement>)
    ensures
        element_views(tb@) == serviceselements_tb(),
{
    let mut tb: Vec<SxElement> = Vec::with_capacity(19);
    tb.push(new_entry("GetDirectory", SX_ELF_CSTART | SX_ELF_OPT, HandlerId::GetDirectory));
    tb.push(
        new_entry(
            "GetDataObjectDefinition",
            SX_ELF_CSTART | SX_ELF_OPT,
            HandlerId::GetDataObjectDefinition,
        ),
    );
    tb.push(
        new_entry(
            "DataObjectDirectory",
            SX_ELF_CSTART | SX_ELF_OPT,
            HandlerId::DataObjectDirectory,
        ),
    );
    tb.push(new_entry("GetDataSetValue", SX_ELF_CSTART | SX_ELF_OPT, HandlerId::GetDataSetValue));
    tb.push(new_entry("SetDataSetValue", SX_ELF_CSTART | SX_ELF_OPT, HandlerId::SetDataSetValue));
    tb.push(new_entry("DataSetDirectory", SX_ELF_CSTART | SX_ELF_OPT, HandlerId::DataSetDirectory));
    tb.push(new_entry("ReadWrite", SX_ELF_CSTART | SX_ELF_OPT, HandlerId::ReadWrite));
    tb.push(
        new_entry(
            "TimerActivatedControl",
            SX_ELF_CSTART | SX_ELF_OPT,
            HandlerId::TimerActivatedControl,
        ),
    );
    tb.push(new_entry("GetCBValues", SX_ELF_CSTART | SX_ELF_OPT, HandlerId::GetCbValues));
    tb.push(new_entry("GSEDir", SX_ELF_CSTART | SX_ELF_OPT, HandlerId::GseDir));
    tb.push(new_entry("FileHandling", SX_ELF_CSTART | SX_ELF_OPT, HandlerId::FileHandling));
    tb.push(new_entry("ConfLdName", SX_ELF_CSTART | SX_ELF_OPT, HandlerId::ConfLdName));
    tb.push(new_entry("ConfLogControl", SX_ELF_CSTART | SX_ELF_OPT, HandlerId::ConfLogControl));
    tb.push(new_entry("GOOSE", SX_ELF_CSTART | SX_ELF_OPT, HandlerId::Goose));
    tb.push(new_entry("GSSE", SX_ELF_CSTART | SX_ELF_OPT, HandlerId::Gsse));
    tb.push(new_entry("SMVsc", SX_ELF_CSTART | SX_ELF_OPT, HandlerId::SmvSc));
    tb.push(new_entry("SupSubscription", SX_ELF_CSTART | SX_ELF_OPT, HandlerId::SupSubscription));
    tb.push(new_entry("ConfSigRef", SX_ELF_CSTART | SX_ELF_OPT, HandlerId::ConfSigRef));
    tb.push(new_entry("ReportSettings", SX_ELF_CSTART | SX_ELF_OPT, HandlerId::ReportSettings));
    assert(element_views(tb@) =~= serviceselements_tb());
    tb
}

/// All tables, one after the other.
pub open spec fn element_table() -> Seq<SxElementView> {
    scl_tb()
        + sub_scl_tb()
        + sub_commu_tb()
        + sub_ied_tb()
        + sub_datatypetemplate_tb()
        + subnetworkelements_tb()
        + connectedapelements_tb()
        + addresselements_tb()
        + gseelements_tb()
        + gseaddresselements_tb()
        + smvelements_tb()
        + smvaddresselements_tb()
        + accesspointelements_tb()
        + serverelements_tb()
        + ldeviceelements_tb()
        + ln0elements_tb()
        + lnelements_tb()
        + datasetelements_tb()
        + reportcontrolelements_tb()
        + logcontrolelements_tb()
        + sampledvaluecontrolelements_tb()
        + inputselements_tb()
        + doielements_tb()
        + sdielements_tb()
        + daielements_tb()
        + lnodetypeelements_tb()
        + dotypeelements_tb()
        + daelements_tb()
        + datypeelements_tb()
        + bdaelements_tb()
        + enumtypeelements_tb()
        + serviceselements_tb()
}

/// Builds the list of all tables.
pub fn gen_element_table() -> (tb: Vec<SxElement>)
    ensures
        element_views(tb@) == element_table(),
{
    let mut tb: Vec<SxElement> = Vec::new();
    let ghost mut acc: Seq<SxElementView> = seq![];
    assert(element_views(tb@) =~= acc);
    let mut part = gen_scl_tb();
    tb.append(&mut part);
    proof {
        acc = acc + scl_tb();
        assert(element_views(tb@) =~= acc);
    }
    let mut part = gen_sub_scl_tb();
    tb.append(&mut part);
    proof {
        acc = acc + sub_scl_tb();
        assert(element_views(tb@) =~= acc);
    }
    let mut part = gen_sub_commu_tb();
    tb.append(&mut part);
    proof {
        acc = acc + sub_commu_tb();
        assert(element_views(tb@) =~= acc);
    }
    let mut part = gen_sub_ied_tb();
    tb.append(&mut part);
    proof {
        acc = acc + sub_ied_tb();
        assert(element_views(tb@) =~= acc);
    }
    let mut part = gen_sub_datatypetemplate_tb();
    tb.append(&mut part);
    proof {
        acc = acc + sub_datatypetemplate_tb();
        assert(element_views(tb@) =~= acc);
    }
    let mut part = gen_subnetworkelements_tb();
    tb.append(&mut part);
    proof {
        acc = acc + subnetworkelements_tb();
        assert(element_views(tb@) =~= acc);
    }
    let mut part = gen_connectedapelements_tb();
    tb.append(&mut part);
    proof {
        acc = acc + connectedapelements_tb();
        assert(element_views(tb@) =~= acc);
    }
    let mut part = gen_addresselements_tb();
    tb.append(&mut part);
    proof {
        acc = acc + addresselements_tb();
        assert(element_views(tb@) =~= acc);
    }
    let mut part = gen_gseelements_tb();
    tb.append(&mut part);
    proof {
        acc = acc + gseelements_tb();
        assert(element_views(tb@) =~= acc);
    }
    let mut part = gen_gseaddresselements_tb();
    tb.append(&mut part);
    proof {
        acc = acc + gseaddresselements_tb();
        assert(element_views(tb@) =~= acc);
    }
    let mut part = gen_smvelements_tb();
    tb.append(&mut part);
    proof {
        acc = acc + smvelements_tb();
        assert(element_views(tb@) =~= acc);
    }
    let mut part = gen_smvaddresselements_tb();
    tb.append(&mut part);
    proof {
        acc = acc + smvaddresselements_tb();
        assert(element_views(tb@) =~= acc);
    }
    let mut part = gen_accesspointelements_tb();
    tb.append(&mut part);
    proof {
        acc = acc + accesspointelements_tb();
        assert(element_views(tb@) =~= acc);
    }
    let mut part = gen_serverelements_tb();
    tb.append(&mut part);
    proof {
        acc = acc + serverelements_tb();
        assert(element_views(tb@) =~= acc);
    }
    let mut part = gen_ldeviceelements_tb();
    tb.append(&mut part);
    proof {
        acc = acc + ldeviceelements_tb();
        assert(element_views(tb@) =~= acc);
    }
    let mut part = gen_ln0elements_tb();
    tb.append(&mut part);
    proof {
        acc = acc + ln0elements_tb();
        assert(element_views(tb@) =~= acc);
    }
    let mut part = gen_lnelements_tb();
    tb.append(&mut part);
    proof {
        acc = acc + lnelements_tb();
        assert(element_views(tb@) =~= acc);
    }
    let mut part = gen_datasetelements_tb();
    tb.append(&mut part);
    proof {
        acc = acc + datasetelements_tb();
        assert(element_views(tb@) =~= acc);
    }
    let mut part = gen_reportcontrolelements_tb();
    tb.append(&mut part);
    proof {
        acc = acc + reportcontrolelements_tb();
        assert(element_views(tb@) =~= acc);
    }
    let mut part = gen_logcontrolelements_tb();
    tb.append(&mut part);
    proof {
        acc = acc + logcontrolelements_tb();
        assert(element_views(tb@) =~= acc);
    }
    let mut part = gen_sampledvaluecontrolelements_tb();
    tb.append(&mut part);
    proof {
        acc = acc + sampledvaluecontrolelements_tb();
        assert(element_views(tb@) =~= acc);
    }
    let mut part = gen_inputselements_tb();
    tb.append(&mut part);
    proof {
        acc = acc + inputselements_tb();
        assert(element_views(tb@) =~= acc);
    }
    let mut part = gen_doielements_tb();
    tb.append(&mut part);
    proof {
        acc = acc + doielements_tb();
        assert(element_views(tb@) =~= acc);
    }
    let mut part = gen_sdielements_tb();
    tb.append(&mut part);
    proof {
        acc = acc + sdielements_tb();
        assert(element_views(tb@) =~= acc);
    }
    let mut part = gen_daielements_tb();
    tb.append(&mut part);
    proof {
        acc = acc + daielements_tb();
        assert(element_views(tb@) =~= acc);
    }
    let mut part = gen_lnodetypeelements_tb();
    tb.append(&mut part);
    proof {
        acc = acc + lnodetypeelements_tb();
        assert(element_views(tb@) =~= acc);
    }
    let mut part = gen_dotypeelements_tb();
    tb.append(&mut part);
    proof {
        acc = acc + dotypeelements_tb();
        assert(element_views(tb@) =~= acc);
    }
    let mut part = gen_daelements_tb();
    tb.append(&mut part);
    proof {
        acc = acc + daelements_tb();
        assert(element_views(tb@) =~= acc);
    }
    let mut part = gen_datypeelements_tb();
    tb.append(&mut part);
    proof {
        acc = acc + datypeelements_tb();
        assert(element_views(tb@) =~= acc);
    }
    let mut part = gen_bdaelements_tb();
    tb.append(&mut part);
    proof {
        acc = acc + bdaelements_tb();
        assert(element_views(tb@) =~= acc);
    }
    let mut part = gen_enumtypeelements_tb();
    tb.append(&mut part);
    proof {
        acc = acc + enumtypeelements_tb();
        assert(element_views(tb@) =~= acc);
    }
    let mut part = gen_serviceselements_tb();
    tb.append(&mut part);
    proof {
        acc = acc + serviceselements_tb();
        assert(element_views(tb@) =~= acc);
    }
    assert(acc =~= element_table());
    tb
}

} // verus!
