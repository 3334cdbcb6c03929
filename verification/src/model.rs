//! The configuration tree and, for each of its types, the mathematical view
//! that the contracts of the reader speak of.
//!
//! A view holds texts as sequences of characters, arrays and vectors as
//! sequences, and every nested value by its own view.

use vstd::prelude::*;

verus! {

/// What the caller asks of the reader.
#[derive(Debug, Default)]
pub struct SclOptions {
    /// 0: take the edition that the document shows; 1 or 2: take this edition.
    pub forceedition: u32,
    /// Whether report control blocks carry an owner.
    pub includeowner: bool,
}

/// The view of [`SclOptions`].
#[verifier::ext_equal]
pub struct SclOptionsView {
    pub forceedition: u32,
    pub includeowner: bool,
}

impl View for SclOptions {
    type V = SclOptionsView;

    open spec fn view(&self) -> SclOptionsView {
        SclOptionsView {
            forceedition: self.forceedition,
            includeowner: self.includeowner,
        }
    }
}

impl Clone for SclOptions {
    fn clone(&self) -> (r: Self)
        ensures
            r@ == self@,
    {
        SclOptions {
            forceedition: self.forceedition,
            includeowner: self.includeowner,
        }
    }
}

/// The `Header` element.
#[derive(Debug, Default)]
pub struct SclHeader {
    /// The document identifier.
    pub id: String,
    /// Always [`SCL_NAMESTRUCTURE_IEDNAME`](crate::consts::SCL_NAMESTRUCTURE_IEDNAME).
    pub namestructure: u32,
}

/// The view of [`SclHeader`].
#[verifier::ext_equal]
pub struct SclHeaderView {
    pub id: Seq<char>,
    pub namestructure: u32,
}

impl View for SclHeader {
    type V = SclHeaderView;

    open spec fn view(&self) -> SclHeaderView {
        SclHeaderView {
            id: self.id@,
            namestructure: self.namestructure,
        }
    }
}

impl Clone for SclHeader {
    fn clone(&self) -> (r: Self)
        ensures
            r@ == self@,
    {
        SclHeader {
            id: self.id.clone(),
            namestructure: self.namestructure,
        }
    }
}

/// An object identifier.
#[derive(Debug, Default)]
pub struct MmsObjId {
    /// How many of `comps` are in use.
    pub num_comps: i32,
    /// The components; those not in use are 0.
    pub comps: [i16; 16],
}

/// The view of [`MmsObjId`].
#[verifier::ext_equal]
pub struct MmsObjIdView {
    pub num_comps: i32,
    pub comps: Seq<i16>,
}

impl View for MmsObjId {
    type V = MmsObjIdView;

    open spec fn view(&self) -> MmsObjIdView {
        MmsObjIdView {
            num_comps: self.num_comps,
            comps: self.comps@,
        }
    }
}

impl Clone for MmsObjId {
    fn clone(&self) -> (r: Self)
        ensures
            r@ == self@,
    {
        MmsObjId {
            num_comps: self.num_comps,
            comps: self.comps,
        }
    }
}

/// An application entity title; each part is optional.
#[derive(Debug, Default)]
pub struct AeTitle {
    pub ap_title_pres: bool,
    /// The application process title.
    pub ap_title: MmsObjId,
    pub ae_qual_pres: bool,
    /// The application entity qualifier.
    pub ae_qual: i32,
    pub ap_inv_id_pres: bool,
    /// The application process invocation identifier.
    pub ap_inv_id: i32,
    pub ae_inv_id_pres: bool,
    /// The application entity invocation identifier.
    pub ae_inv_id: i32,
}

/// The view of [`AeTitle`].
#[verifier::ext_equal]
pub struct AeTitleView {
    pub ap_title_pres: bool,
    pub ap_title: MmsObjIdView,
    pub ae_qual_pres: bool,
    pub ae_qual: i32,
    pub ap_inv_id_pres: bool,
    pub ap_inv_id: i32,
    pub ae_inv_id_pres: bool,
    pub ae_inv_id: i32,
}

impl View for AeTitle {
    type V = AeTitleView;

    open spec fn view(&self) -> AeTitleView {
        AeTitleView {
            ap_title_pres: self.ap_title_pres,
            ap_title: self.ap_title@,
            ae_qual_pres: self.ae_qual_pres,
            ae_qual: self.ae_qual,
            ap_inv_id_pres: self.ap_inv_id_pres,
            ap_inv_id: self.ap_inv_id,
            ae_inv_id_pres: self.ae_inv_id_pres,
            ae_inv_id: self.ae_inv_id,
        }
    }
}

impl Clone for AeTitle {
    fn clone(&self) -> (r: Self)
        ensures
            r@ == self@,
    {
        AeTitle {
            ap_title_pres: self.ap_title_pres,
            ap_title: self.ap_title.clone(),
            ae_qual_pres: self.ae_qual_pres,
            ae_qual: self.ae_qual,
            ap_inv_id_pres: self.ap_inv_id_pres,
            ap_inv_id: self.ap_inv_id,
            ae_inv_id_pres: self.ae_inv_id_pres,
            ae_inv_id: self.ae_inv_id,
        }
    }
}

/// The transport of one GOOSE control block, from a `GSE` element.
#[derive(Debug, Default)]
pub struct SclGse {
    pub ldinst: String,
    pub cbname: String,
    /// The multicast MAC address.
    pub mac: [u8; 6],
    pub appid: u32,
    pub vlanpri: u32,
    pub vlanid: u32,
    /// Shortest retransmission time in milliseconds.
    pub mintime: u32,
    /// Longest retransmission time in milliseconds.
    pub maxtime: u32,
}

/// The view of [`SclGse`].
#[verifier::ext_equal]
pub struct SclGseView {
    pub ldinst: Seq<char>,
    pub cbname: Seq<char>,
    pub mac: Seq<u8>,
    pub appid: u32,
    pub vlanpri: u32,
    pub vlanid: u32,
    pub mintime: u32,
    pub maxtime: u32,
}

impl View for SclGse {
    type V = SclGseView;

    open spec fn view(&self) -> SclGseView {
        SclGseView {
            ldinst: self.ldinst@,
            cbname: self.cbname@,
            mac: self.mac@,
            appid: self.appid,
            vlanpri: self.vlanpri,
            vlanid: self.vlanid,
            mintime: self.mintime,
            maxtime: self.maxtime,
        }
    }
}

impl Clone for SclGse {
    fn clone(&self) -> (r: Self)
        ensures
            r@ == self@,
    {
        SclGse {
            ldinst: self.ldinst.clone(),
            cbname: self.cbname.clone(),
            mac: self.mac,
            appid: self.appid,
            vlanpri: self.vlanpri,
            vlanid: self.vlanid,
            mintime: self.mintime,
            maxtime: self.maxtime,
        }
    }
}

/// The transport of one sampled value control block, from an `SMV` element.
#[derive(Debug, Default)]
pub struct SclSmv {
    pub ldinst: String,
    pub cbname: String,
    /// The multicast MAC address.
    pub mac: [u8; 6],
    pub appid: u32,
    pub vlanpri: u32,
    pub vlanid: u32,
}

/// The view of [`SclSmv`].
#[verifier::ext_equal]
pub struct SclSmvView {
    pub ldinst: Seq<char>,
    pub cbname: Seq<char>,
    pub mac: Seq<u8>,
    pub appid: u32,
    pub vlanpri: u32,
    pub vlanid: u32,
}

impl View for SclSmv {
    type V = SclSmvView;

    open spec fn view(&self) -> SclSmvView {
        SclSmvView {
            ldinst: self.ldinst@,
            cbname: self.cbname@,
            mac: self.mac@,
            appid: self.appid,
            vlanpri: self.vlanpri,
            vlanid: self.vlanid,
        }
    }
}

impl Clone for SclSmv {
    fn clone(&self) -> (r: Self)
        ensures
            r@ == self@,
    {
        SclSmv {
            ldinst: self.ldinst.clone(),
            cbname: self.cbname.clone(),
            mac: self.mac,
            appid: self.appid,
            vlanpri: self.vlanpri,
            vlanid: self.vlanid,
        }
    }
}

/// The one address of an access point.
#[derive(Debug, Default)]
pub struct SclAddress {
    pub ae_title: AeTitle,
    /// How many bytes of `psel` are in use.
    pub psel_len: u32,
    /// The presentation selector.
    pub psel: [u8; 16],
    /// How many bytes of `ssel` are in use.
    pub ssel_len: u32,
    /// The session selector.
    pub ssel: [u8; 16],
    /// How many bytes of `tsel` are in use.
    pub tsel_len: u32,
    /// The transport selector.
    pub tsel: [u8; 32],
    /// The IPv4 address, first octet first.
    pub ip: [u8; 4],
}

/// The view of [`SclAddress`].
#[verifier::ext_equal]
pub struct SclAddressView {
    pub ae_title: AeTitleView,
    pub psel_len: u32,
    pub psel: Seq<u8>,
    pub ssel_len: u32,
    pub ssel: Seq<u8>,
    pub tsel_len: u32,
    pub tsel: Seq<u8>,
    pub ip: Seq<u8>,
}

impl View for SclAddress {
    type V = SclAddressView;

    open spec fn view(&self) -> SclAddressView {
        SclAddressView {
            ae_title: self.ae_title@,
            psel_len: self.psel_len,
            psel: self.psel@,
            ssel_len: self.ssel_len,
            ssel: self.ssel@,
            tsel_len: self.tsel_len,
            tsel: self.tsel@,
            ip: self.ip@,
        }
    }
}

impl Clone for SclAddress {
    fn clone(&self) -> (r: Self)
        ensures
            r@ == self@,
    {
        SclAddress {
            ae_title: self.ae_title.clone(),
            psel_len: self.psel_len,
            psel: self.psel,
            ssel_len: self.ssel_len,
            ssel: self.ssel,
            tsel_len: self.tsel_len,
            tsel: self.tsel,
            ip: self.ip,
        }
    }
}

/// A `ConnectedAP` element: how one access point is attached to a subnetwork.
#[derive(Clone, Debug, Default)]
pub struct SclCap {
    pub iedname: String,
    pub desc: String,
    pub apname: String,
    pub address: SclAddress,
    pub gse_vec: Vec<SclGse>,
    pub smv_vec: Vec<SclSmv>,
}

/// The view of [`SclCap`].
#[verifier::ext_equal]
pub struct SclCapView {
    pub iedname: Seq<char>,
    pub desc: Seq<char>,
    pub apname: Seq<char>,
    pub address: SclAddressView,
    pub gse_vec: Seq<SclGseView>,
    pub smv_vec: Seq<SclSmvView>,
}

impl View for SclCap {
    type V = SclCapView;

    open spec fn view(&self) -> SclCapView {
        SclCapView {
            iedname: self.iedname@,
            desc: self.desc@,
            apname: self.apname@,
            address: self.address@,
            gse_vec: self.gse_vec@.map_values(|x: SclGse| x@),
            smv_vec: self.smv_vec@.map_values(|x: SclSmv| x@),
        }
    }
}

/// A `SubNetwork` element.
#[derive(Clone, Debug, Default)]
pub struct SclSubnet {
    pub name: String,
    pub desc: String,
    pub rtype: String,
    pub cap_vec: Vec<SclCap>,
}

/// The view of [`SclSubnet`].
#[verifier::ext_equal]
pub struct SclSubnetView {
    pub name: Seq<char>,
    pub desc: Seq<char>,
    pub rtype: Seq<char>,
    pub cap_vec: Seq<SclCapView>,
}

impl View for SclSubnet {
    type V = SclSubnetView;

    open spec fn view(&self) -> SclSubnetView {
        SclSubnetView {
            name: self.name@,
            desc: self.desc@,
            rtype: self.rtype@,
            cap_vec: self.cap_vec@.map_values(|x: SclCap| x@),
        }
    }
}

/// A data object of a logical node type.
#[derive(Debug, Default)]
pub struct SclDo {
    pub name: String,
    pub rtype: String,
}

/// The view of [`SclDo`].
#[verifier::ext_equal]
pub struct SclDoView {
    pub name: Seq<char>,
    pub rtype: Seq<char>,
}

impl View for SclDo {
    type V = SclDoView;

    open spec fn view(&self) -> SclDoView {
        SclDoView {
            name: self.name@,
            rtype: self.rtype@,
        }
    }
}

impl Clone for SclDo {
    fn clone(&self) -> (r: Self)
        ensures
            r@ == self@,
    {
        SclDo {
            name: self.name.clone(),
            rtype: self.rtype.clone(),
        }
    }
}

/// An `LNodeType` element.
#[derive(Clone, Debug, Default)]
pub struct SclLntype {
    /// The name by which logical nodes refer to this type.
    pub id: String,
    pub lnclass: String,
    pub do_vec: Vec<SclDo>,
    /// Left at 0 by the reader.
    pub type_id: i32,
}

/// The view of [`SclLntype`].
#[verifier::ext_equal]
pub struct SclLntypeView {
    pub id: Seq<char>,
    pub lnclass: Seq<char>,
    pub do_vec: Seq<SclDoView>,
    pub type_id: i32,
}

impl View for SclLntype {
    type V = SclLntypeView;

    open spec fn view(&self) -> SclLntypeView {
        SclLntypeView {
            id: self.id@,
            lnclass: self.lnclass@,
            do_vec: self.do_vec@.map_values(|x: SclDo| x@),
            type_id: self.type_id,
        }
    }
}

/// The value of an attribute in one setting group.
#[derive(Debug, Default)]
pub struct SclSgVal {
    pub sgroup: u32,
    pub val: String,
}

/// The view of [`SclSgVal`].
#[verifier::ext_equal]
pub struct SclSgValView {
    pub sgroup: u32,
    pub val: Seq<char>,
}

impl View for SclSgVal {
    type V = SclSgValView;

    open spec fn view(&self) -> SclSgValView {
        SclSgValView {
            sgroup: self.sgroup,
            val: self.val@,
        }
    }
}

impl Clone for SclSgVal {
    fn clone(&self) -> (r: Self)
        ensures
            r@ == self@,
    {
        SclSgVal {
            sgroup: self.sgroup,
            val: self.val.clone(),
        }
    }
}

/// An entry of a data object type: a data attribute or a sub data object.
#[derive(Clone, Debug, Default)]
pub struct SclDa {
    /// [`SCL_OBJTYPE_DA`](crate::consts::SCL_OBJTYPE_DA) or
    /// [`SCL_OBJTYPE_SDO`](crate::consts::SCL_OBJTYPE_SDO).
    pub objtype: u32,
    pub name: String,
    pub desc: String,
    pub saddr: String,
    pub btype: String,
    pub valkind: String,
    pub rtype: String,
    pub count: u32,
    pub fc: String,
    pub dchg: bool,
    pub qchg: bool,
    pub dupd: bool,
    /// The value outside setting groups.
    pub val: String,
    /// The values per setting group.
    pub sgval_vec: Vec<SclSgVal>,
}

/// The view of [`SclDa`].
#[verifier::ext_equal]
pub struct SclDaView {
    pub objtype: u32,
    pub name: Seq<char>,
    pub desc: Seq<char>,
    pub saddr: Seq<char>,
    pub btype: Seq<char>,
    pub valkind: Seq<char>,
    pub rtype: Seq<char>,
    pub count: u32,
    pub fc: Seq<char>,
    pub dchg: bool,
    pub qchg: bool,
    pub dupd: bool,
    pub val: Seq<char>,
    pub sgval_vec: Seq<SclSgValView>,
}

impl View for SclDa {
    type V = SclDaView;

    open spec fn view(&self) -> SclDaView {
        SclDaView {
            objtype: self.objtype,
            name: self.name@,
            desc: self.desc@,
            saddr: self.saddr@,
            btype: self.btype@,
            valkind: self.valkind@,
            rtype: self.rtype@,
            count: self.count,
            fc: self.fc@,
            dchg: self.dchg,
            qchg: self.qchg,
            dupd: self.dupd,
            val: self.val@,
            sgval_vec: self.sgval_vec@.map_values(|x: SclSgVal| x@),
        }
    }
}

/// A `DOType` element.
#[derive(Clone, Debug, Default)]
pub struct SclDotype {
    pub id: String,
    pub cdc: String,
    pub da_vec: Vec<SclDa>,
}

/// The view of [`SclDotype`].
#[verifier::ext_equal]
pub struct SclDotypeView {
    pub id: Seq<char>,
    pub cdc: Seq<char>,
    pub da_vec: Seq<SclDaView>,
}

impl View for SclDotype {
    type V = SclDotypeView;

    open spec fn view(&self) -> SclDotypeView {
        SclDotypeView {
            id: self.id@,
            cdc: self.cdc@,
            da_vec: self.da_vec@.map_values(|x: SclDa| x@),
        }
    }
}

/// A basic data attribute of a data attribute type.
#[derive(Clone, Debug, Default)]
pub struct SclBda {
    pub name: String,
    pub desc: String,
    pub saddr: String,
    pub btype: String,
    pub valkind: String,
    pub rtype: String,
    pub count: u32,
    /// The value outside setting groups.
    pub val: String,
    /// The values per setting group.
    pub sgval_vec: Vec<SclSgVal>,
}

/// The view of [`SclBda`].
#[verifier::ext_equal]
pub struct SclBdaView {
    pub name: Seq<char>,
    pub desc: Seq<char>,
    pub saddr: Seq<char>,
    pub btype: Seq<char>,
    pub valkind: Seq<char>,
    pub rtype: Seq<char>,
    pub count: u32,
    pub val: Seq<char>,
    pub sgval_vec: Seq<SclSgValView>,
}

impl View for SclBda {
    type V = SclBdaView;

    open spec fn view(&self) -> SclBdaView {
        SclBdaView {
            name: self.name@,
            desc: self.desc@,
            saddr: self.saddr@,
            btype: self.btype@,
            valkind: self.valkind@,
            rtype: self.rtype@,
            count: self.count,
            val: self.val@,
            sgval_vec: self.sgval_vec@.map_values(|x: SclSgVal| x@),
        }
    }
}

/// A `DAType` element.
#[derive(Clone, Debug, Default)]
pub struct SclDatype {
    pub id: String,
    pub bda_vec: Vec<SclBda>,
}

/// The view of [`SclDatype`].
#[verifier::ext_equal]
pub struct SclDatypeView {
    pub id: Seq<char>,
    pub bda_vec: Seq<SclBdaView>,
}

impl View for SclDatype {
    type V = SclDatypeView;

    open spec fn view(&self) -> SclDatypeView {
        SclDatypeView {
            id: self.id@,
            bda_vec: self.bda_vec@.map_values(|x: SclBda| x@),
        }
    }
}

/// One value of an enumeration.
#[derive(Debug, Default)]
pub struct SclEnumval {
    pub ord: i32,
    pub enumval: String,
}

/// The view of [`SclEnumval`].
#[verifier::ext_equal]
pub struct SclEnumvalView {
    pub ord: i32,
    pub enumval: Seq<char>,
}

impl View for SclEnumval {
    type V = SclEnumvalView;

    open spec fn view(&self) -> SclEnumvalView {
        SclEnumvalView {
            ord: self.ord,
            enumval: self.enumval@,
        }
    }
}

impl Clone for SclEnumval {
    fn clone(&self) -> (r: Self)
        ensures
            r@ == self@,
    {
        SclEnumval {
            ord: self.ord,
            enumval: self.enumval.clone(),
        }
    }
}

/// An `EnumType` element.
#[derive(Clone, Debug, Default)]
pub struct SclEnumtype {
    pub id: String,
    pub enumval_vec: Vec<SclEnumval>,
}

/// The view of [`SclEnumtype`].
#[verifier::ext_equal]
pub struct SclEnumtypeView {
    pub id: Seq<char>,
    pub enumval_vec: Seq<SclEnumvalView>,
}

impl View for SclEnumtype {
    type V = SclEnumtypeView;

    open spec fn view(&self) -> SclEnumtypeView {
        SclEnumtypeView {
            id: self.id@,
            enumval_vec: self.enumval_vec@.map_values(|x: SclEnumval| x@),
        }
    }
}

/// Server options that no document sets.
#[derive(Debug, Default)]
pub struct SclServOpt {
    pub reportscanratems: u32,
    pub brcb_bufsize: i32,
    pub logscanratems: u32,
    pub logmaxentries: u32,
}

/// The view of [`SclServOpt`].
#[verifier::ext_equal]
pub struct SclServOptView {
    pub reportscanratems: u32,
    pub brcb_bufsize: i32,
    pub logscanratems: u32,
    pub logmaxentries: u32,
}

impl View for SclServOpt {
    type V = SclServOptView;

    open spec fn view(&self) -> SclServOptView {
        SclServOptView {
            reportscanratems: self.reportscanratems,
            brcb_bufsize: self.brcb_bufsize,
            logscanratems: self.logscanratems,
            logmaxentries: self.logmaxentries,
        }
    }
}

impl Clone for SclServOpt {
    fn clone(&self) -> (r: Self)
        ensures
            r@ == self@,
    {
        SclServOpt {
            reportscanratems: self.reportscanratems,
            brcb_bufsize: self.brcb_bufsize,
            logscanratems: self.logscanratems,
            logmaxentries: self.logmaxentries,
        }
    }
}

/// A `DAI` element: a value given to one attribute of a logical node.
#[derive(Clone, Debug, Default)]
pub struct SclDai {
    /// The path of the attribute below its logical node.
    pub flattened: String,
    /// The value outside setting groups.
    pub val: String,
    /// The values per setting group.
    pub sgval_vec: Vec<SclSgVal>,
    pub saddr: String,
    pub valkind: String,
}

/// The view of [`SclDai`].
#[verifier::ext_equal]
pub struct SclDaiView {
    pub flattened: Seq<char>,
    pub val: Seq<char>,
    pub sgval_vec: Seq<SclSgValView>,
    pub saddr: Seq<char>,
    pub valkind: Seq<char>,
}

impl View for SclDai {
    type V = SclDaiView;

    open spec fn view(&self) -> SclDaiView {
        SclDaiView {
            flattened: self.flattened@,
            val: self.val@,
            sgval_vec: self.sgval_vec@.map_values(|x: SclSgVal| x@),
            saddr: self.saddr@,
            valkind: self.valkind@,
        }
    }
}

/// A member of a data set.
#[derive(Debug, Default)]
pub struct SclFcda {
    /// The device name followed by `ldinst`.
    pub domname: String,
    pub ldinst: String,
    pub prefix: String,
    pub lninst: String,
    pub lnclass: String,
    pub doname: String,
    pub daname: String,
    pub fc: String,
    pub ix: String,
}

/// The view of [`SclFcda`].
#[verifier::ext_equal]
pub struct SclFcdaView {
    pub domname: Seq<char>,
    pub ldinst: Seq<char>,
    pub prefix: Seq<char>,
    pub lninst: Seq<char>,
    pub lnclass: Seq<char>,
    pub doname: Seq<char>,
    pub daname: Seq<char>,
    pub fc: Seq<char>,
    pub ix: Seq<char>,
}

impl View for SclFcda {
    type V = SclFcdaView;

    open spec fn view(&self) -> SclFcdaView {
        SclFcdaView {
            domname: self.domname@,
            ldinst: self.ldinst@,
            prefix: self.prefix@,
            lninst: self.lninst@,
            lnclass: self.lnclass@,
            doname: self.doname@,
            daname: self.daname@,
            fc: self.fc@,
            ix: self.ix@,
        }
    }
}

impl Clone for SclFcda {
    fn clone(&self) -> (r: Self)
        ensures
            r@ == self@,
    {
        SclFcda {
            domname: self.domname.clone(),
            ldinst: self.ldinst.clone(),
            prefix: self.prefix.clone(),
            lninst: self.lninst.clone(),
            lnclass: self.lnclass.clone(),
            doname: self.doname.clone(),
            daname: self.daname.clone(),
            fc: self.fc.clone(),
            ix: self.ix.clone(),
        }
    }
}

/// A `DataSet` element.
#[derive(Clone, Debug, Default)]
pub struct SclDataset {
    pub name: String,
    pub desc: String,
    pub fcda_vec: Vec<SclFcda>,
}

/// The view of [`SclDataset`].
#[verifier::ext_equal]
pub struct SclDatasetView {
    pub name: Seq<char>,
    pub desc: Seq<char>,
    pub fcda_vec: Seq<SclFcdaView>,
}

impl View for SclDataset {
    type V = SclDatasetView;

    open spec fn view(&self) -> SclDatasetView {
        SclDatasetView {
            name: self.name@,
            desc: self.desc@,
            fcda_vec: self.fcda_vec@.map_values(|x: SclFcda| x@),
        }
    }
}

/// A report control block.
#[derive(Debug, Default)]
pub struct SclRcb {
    pub name: String,
    pub desc: String,
    pub datset: String,
    pub intgpd: u32,
    pub rptid: String,
    pub confrev: u32,
    pub buffered: bool,
    pub buftime: u32,
    /// The trigger options, as a bit string.
    pub trgops: [u8; 1],
    /// The option fields, as a bit string.
    pub optflds: [u8; 2],
    /// How many clients may enable the block.
    pub maxclient: u32,
}

/// The view of [`SclRcb`].
#[verifier::ext_equal]
pub struct SclRcbView {
    pub name: Seq<char>,
    pub desc: Seq<char>,
    pub datset: Seq<char>,
    pub intgpd: u32,
    pub rptid: Seq<char>,
    pub confrev: u32,
    pub buffered: bool,
    pub buftime: u32,
    pub trgops: Seq<u8>,
    pub optflds: Seq<u8>,
    pub maxclient: u32,
}

impl View for SclRcb {
    type V = SclRcbView;

    open spec fn view(&self) -> SclRcbView {
        SclRcbView {
            name: self.name@,
            desc: self.desc@,
            datset: self.datset@,
            intgpd: self.intgpd,
            rptid: self.rptid@,
            confrev: self.confrev,
            buffered: self.buffered,
            buftime: self.buftime,
            trgops: self.trgops@,
            optflds: self.optflds@,
            maxclient: self.maxclient,
        }
    }
}

impl Clone for SclRcb {
    fn clone(&self) -> (r: Self)
        ensures
            r@ == self@,
    {
        SclRcb {
            name: self.name.clone(),
            desc: self.desc.clone(),
            datset: self.datset.clone(),
            intgpd: self.intgpd,
            rptid: self.rptid.clone(),
            confrev: self.confrev,
            buffered: self.buffered,
            buftime: self.buftime,
            trgops: self.trgops,
            optflds: self.optflds,
            maxclient: self.maxclient,
        }
    }
}

/// A log control block.
#[derive(Debug, Default)]
pub struct SclLcb {
    pub name: String,
    pub desc: String,
    pub datset: String,
    pub intgpd: u32,
    pub logname: String,
    pub logena: bool,
    pub reasoncode: bool,
    /// The trigger options, as a bit string.
    pub trgops: [u8; 1],
}

/// The view of [`SclLcb`].
#[verifier::ext_equal]
pub struct SclLcbView {
    pub name: Seq<char>,
    pub desc: Seq<char>,
    pub datset: Seq<char>,
    pub intgpd: u32,
    pub logname: Seq<char>,
    pub logena: bool,
    pub reasoncode: bool,
    pub trgops: Seq<u8>,
}

impl View for SclLcb {
    type V = SclLcbView;

    open spec fn view(&self) -> SclLcbView {
        SclLcbView {
            name: self.name@,
            desc: self.desc@,
            datset: self.datset@,
            intgpd: self.intgpd,
            logname: self.logname@,
            logena: self.logena,
            reasoncode: self.reasoncode,
            trgops: self.trgops@,
        }
    }
}

impl Clone for SclLcb {
    fn clone(&self) -> (r: Self)
        ensures
            r@ == self@,
    {
        SclLcb {
            name: self.name.clone(),
            desc: self.desc.clone(),
            datset: self.datset.clone(),
            intgpd: self.intgpd,
            logname: self.logname.clone(),
            logena: self.logena,
            reasoncode: self.reasoncode,
            trgops: self.trgops,
        }
    }
}

/// A GOOSE or GSSE control block.
#[derive(Debug, Default)]
pub struct SclGcb {
    pub name: String,
    pub desc: String,
    pub datset: String,
    pub confrev: u32,
    pub isgoose: bool,
    pub appid: String,
    pub subscribed: bool,
}

/// The view of [`SclGcb`].
#[verifier::ext_equal]
pub struct SclGcbView {
    pub name: Seq<char>,
    pub desc: Seq<char>,
    pub datset: Seq<char>,
    pub confrev: u32,
    pub isgoose: bool,
    pub appid: Seq<char>,
    pub subscribed: bool,
}

impl View for SclGcb {
    type V = SclGcbView;

    open spec fn view(&self) -> SclGcbView {
        SclGcbView {
            name: self.name@,
            desc: self.desc@,
            datset: self.datset@,
            confrev: self.confrev,
            isgoose: self.isgoose,
            appid: self.appid@,
            subscribed: self.subscribed,
        }
    }
}

impl Clone for SclGcb {
    fn clone(&self) -> (r: Self)
        ensures
            r@ == self@,
    {
        SclGcb {
            name: self.name.clone(),
            desc: self.desc.clone(),
            datset: self.datset.clone(),
            confrev: self.confrev,
            isgoose: self.isgoose,
            appid: self.appid.clone(),
            subscribed: self.subscribed,
        }
    }
}

/// A sampled value control block.
#[derive(Debug, Default)]
pub struct SclSvcb {
    pub name: String,
    pub desc: String,
    pub datset: String,
    pub smvid: String,
    pub smprate: u32,
    pub nofasdu: u32,
    pub confrev: u32,
    pub multicast: bool,
    /// The sampled value options, as a bit string.
    pub optflds: [u8; 1],
    pub securitypres: bool,
    pub datarefpres: bool,
    /// 0: samples per period; 1: samples per second; 2: seconds per sample.
    pub smpmod: i8,
}

/// The view of [`SclSvcb`].
#[verifier::ext_equal]
pub struct SclSvcbView {
    pub name: Seq<char>,
    pub desc: Seq<char>,
    pub datset: Seq<char>,
    pub smvid: Seq<char>,
    pub smprate: u32,
    pub nofasdu: u32,
    pub confrev: u32,
    pub multicast: bool,
    pub optflds: Seq<u8>,
    pub securitypres: bool,
    pub datarefpres: bool,
    pub smpmod: i8,
}

impl View for SclSvcb {
    type V = SclSvcbView;

    open spec fn view(&self) -> SclSvcbView {
        SclSvcbView {
            name: self.name@,
            desc: self.desc@,
            datset: self.datset@,
            smvid: self.smvid@,
            smprate: self.smprate,
            nofasdu: self.nofasdu,
            confrev: self.confrev,
            multicast: self.multicast,
            optflds: self.optflds@,
            securitypres: self.securitypres,
            datarefpres: self.datarefpres,
            smpmod: self.smpmod,
        }
    }
}

impl Clone for SclSvcb {
    fn clone(&self) -> (r: Self)
        ensures
            r@ == self@,
    {
        SclSvcb {
            name: self.name.clone(),
            desc: self.desc.clone(),
            datset: self.datset.clone(),
            smvid: self.smvid.clone(),
            smprate: self.smprate,
            nofasdu: self.nofasdu,
            confrev: self.confrev,
            multicast: self.multicast,
            optflds: self.optflds,
            securitypres: self.securitypres,
            datarefpres: self.datarefpres,
            smpmod: self.smpmod,
        }
    }
}

/// A setting group control block.
#[derive(Debug, Default)]
pub struct SclSgcb {
    pub desc: String,
    pub numofsgs: u32,
    pub actsg: u32,
}

/// The view of [`SclSgcb`].
#[verifier::ext_equal]
pub struct SclSgcbView {
    pub desc: Seq<char>,
    pub numofsgs: u32,
    pub actsg: u32,
}

impl View for SclSgcb {
    type V = SclSgcbView;

    open spec fn view(&self) -> SclSgcbView {
        SclSgcbView {
            desc: self.desc@,
            numofsgs: self.numofsgs,
            actsg: self.actsg,
        }
    }
}

impl Clone for SclSgcb {
    fn clone(&self) -> (r: Self)
        ensures
            r@ == self@,
    {
        SclSgcb {
            desc: self.desc.clone(),
            numofsgs: self.numofsgs,
            actsg: self.actsg,
        }
    }
}

/// An `ExtRef` element: a reference to a signal of another device.
#[derive(Debug, Default)]
pub struct SclExtref {
    pub desc: String,
    pub intaddr: String,
    pub iedname: String,
    pub ldinst: String,
    pub prefix: String,
    pub lnclass: String,
    pub lninst: String,
    pub doname: String,
    pub daname: String,
    pub servicetype: String,
    pub srcldinst: String,
    pub srcprefix: String,
    pub srclnclass: String,
    pub srclninst: String,
    pub srccbname: String,
}

/// The view of [`SclExtref`].
#[verifier::ext_equal]
pub struct SclExtrefView {
    pub desc: Seq<char>,
    pub intaddr: Seq<char>,
    pub iedname: Seq<char>,
    pub ldinst: Seq<char>,
    pub prefix: Seq<char>,
    pub lnclass: Seq<char>,
    pub lninst: Seq<char>,
    pub doname: Seq<char>,
    pub daname: Seq<char>,
    pub servicetype: Seq<char>,
    pub srcldinst: Seq<char>,
    pub srcprefix: Seq<char>,
    pub srclnclass: Seq<char>,
    pub srclninst: Seq<char>,
    pub srccbname: Seq<char>,
}

impl View for SclExtref {
    type V = SclExtrefView;

    open spec fn view(&self) -> SclExtrefView {
        SclExtrefView {
            desc: self.desc@,
            intaddr: self.intaddr@,
            iedname: self.iedname@,
            ldinst: self.ldinst@,
            prefix: self.prefix@,
            lnclass: self.lnclass@,
            lninst: self.lninst@,
            doname: self.doname@,
            daname: self.daname@,
            servicetype: self.servicetype@,
            srcldinst: self.srcldinst@,
            srcprefix: self.srcprefix@,
            srclnclass: self.srclnclass@,
            srclninst: self.srclninst@,
            srccbname: self.srccbname@,
        }
    }
}

impl Clone for SclExtref {
    fn clone(&self) -> (r: Self)
        ensures
            r@ == self@,
    {
        SclExtref {
            desc: self.desc.clone(),
            intaddr: self.intaddr.clone(),
            iedname: self.iedname.clone(),
            ldinst: self.ldinst.clone(),
            prefix: self.prefix.clone(),
            lnclass: self.lnclass.clone(),
            lninst: self.lninst.clone(),
            doname: self.doname.clone(),
            daname: self.daname.clone(),
            servicetype: self.servicetype.clone(),
            srcldinst: self.srcldinst.clone(),
            srcprefix: self.srcprefix.clone(),
            srclnclass: self.srclnclass.clone(),
            srclninst: self.srclninst.clone(),
            srccbname: self.srccbname.clone(),
        }
    }
}

/// A logical node, from an `LN` or `LN0` element.
#[derive(Clone, Debug, Default)]
pub struct SclLn {
    /// Prefix, class and instance in one name; set when the element closes.
    pub varname: String,
    pub desc: String,
    pub lntype: String,
    pub lnclass: String,
    pub inst: String,
    pub prefix: String,
    pub dai_vec: Vec<SclDai>,
    pub dataset_vec: Vec<SclDataset>,
    pub rcb_vec: Vec<SclRcb>,
    pub lcb_vec: Vec<SclLcb>,
    pub gcb_vec: Vec<SclGcb>,
    pub svcb_vec: Vec<SclSvcb>,
    /// The setting group control block; at most one.
    pub sgcb: Box<SclSgcb>,
    pub extref_vec: Vec<SclExtref>,
    /// Left at 0 by the reader.
    pub type_id: i32,
}

/// The view of [`SclLn`].
#[verifier::ext_equal]
pub struct SclLnView {
    pub varname: Seq<char>,
    pub desc: Seq<char>,
    pub lntype: Seq<char>,
    pub lnclass: Seq<char>,
    pub inst: Seq<char>,
    pub prefix: Seq<char>,
    pub dai_vec: Seq<SclDaiView>,
    pub dataset_vec: Seq<SclDatasetView>,
    pub rcb_vec: Seq<SclRcbView>,
    pub lcb_vec: Seq<SclLcbView>,
    pub gcb_vec: Seq<SclGcbView>,
    pub svcb_vec: Seq<SclSvcbView>,
    pub sgcb: SclSgcbView,
    pub extref_vec: Seq<SclExtrefView>,
    pub type_id: i32,
}

impl View for SclLn {
    type V = SclLnView;

    open spec fn view(&self) -> SclLnView {
        SclLnView {
            varname: self.varname@,
            desc: self.desc@,
            lntype: self.lntype@,
            lnclass: self.lnclass@,
            inst: self.inst@,
            prefix: self.prefix@,
            dai_vec: self.dai_vec@.map_values(|x: SclDai| x@),
            dataset_vec: self.dataset_vec@.map_values(|x: SclDataset| x@),
            rcb_vec: self.rcb_vec@.map_values(|x: SclRcb| x@),
            lcb_vec: self.lcb_vec@.map_values(|x: SclLcb| x@),
            gcb_vec: self.gcb_vec@.map_values(|x: SclGcb| x@),
            svcb_vec: self.svcb_vec@.map_values(|x: SclSvcb| x@),
            sgcb: (*self.sgcb)@,
            extref_vec: self.extref_vec@.map_values(|x: SclExtref| x@),
            type_id: self.type_id,
        }
    }
}

/// A logical device.
#[derive(Clone, Debug, Default)]
pub struct SclLd {
    /// The device name followed by `inst`; set when the element closes.
    pub domname: String,
    pub desc: String,
    pub inst: String,
    pub ln_vec: Vec<SclLn>,
}

/// The view of [`SclLd`].
#[verifier::ext_equal]
pub struct SclLdView {
    pub domname: Seq<char>,
    pub desc: Seq<char>,
    pub inst: Seq<char>,
    pub ln_vec: Seq<SclLnView>,
}

impl View for SclLd {
    type V = SclLdView;

    open spec fn view(&self) -> SclLdView {
        SclLdView {
            domname: self.domname@,
            desc: self.desc@,
            inst: self.inst@,
            ln_vec: self.ln_vec@.map_values(|x: SclLn| x@),
        }
    }
}

/// A service that a device offers up to a limit.
#[derive(Debug, Default)]
pub struct SclServiceWithMax {
    pub enabled: bool,
    pub max: u32,
}

/// The view of [`SclServiceWithMax`].
#[verifier::ext_equal]
pub struct SclServiceWithMaxView {
    pub enabled: bool,
    pub max: u32,
}

impl View for SclServiceWithMax {
    type V = SclServiceWithMaxView;

    open spec fn view(&self) -> SclServiceWithMaxView {
        SclServiceWithMaxView {
            enabled: self.enabled,
            max: self.max,
        }
    }
}

impl Clone for SclServiceWithMax {
    fn clone(&self) -> (r: Self)
        ensures
            r@ == self@,
    {
        SclServiceWithMax {
            enabled: self.enabled,
            max: self.max,
        }
    }
}

/// The `ReportSettings` element; each text is `Dyn`, `Conf` or `Fix`.
#[derive(Debug, Default)]
pub struct SclReportsettings {
    pub cbname: String,
    pub datset: String,
    pub rptid: String,
    pub optfields: String,
    pub buftime: String,
    pub trgops: String,
    pub intgpd: String,
    pub resvtms: bool,
    pub owner: bool,
}

/// The view of [`SclReportsettings`].
#[verifier::ext_equal]
pub struct SclReportsettingsView {
    pub cbname: Seq<char>,
    pub datset: Seq<char>,
    pub rptid: Seq<char>,
    pub optfields: Seq<char>,
    pub buftime: Seq<char>,
    pub trgops: Seq<char>,
    pub intgpd: Seq<char>,
    pub resvtms: bool,
    pub owner: bool,
}

impl View for SclReportsettings {
    type V = SclReportsettingsView;

    open spec fn view(&self) -> SclReportsettingsView {
        SclReportsettingsView {
            cbname: self.cbname@,
            datset: self.datset@,
            rptid: self.rptid@,
            optfields: self.optfields@,
            buftime: self.buftime@,
            trgops: self.trgops@,
            intgpd: self.intgpd@,
            resvtms: self.resvtms,
            owner: self.owner,
        }
    }
}

impl Clone for SclReportsettings {
    fn clone(&self) -> (r: Self)
        ensures
            r@ == self@,
    {
        SclReportsettings {
            cbname: self.cbname.clone(),
            datset: self.datset.clone(),
            rptid: self.rptid.clone(),
            optfields: self.optfields.clone(),
            buftime: self.buftime.clone(),
            trgops: self.trgops.clone(),
            intgpd: self.intgpd.clone(),
            resvtms: self.resvtms,
            owner: self.owner,
        }
    }
}

/// The services that a device declares.
#[derive(Debug, Default)]
pub struct SclServices {
    pub getdirectory: bool,
    pub getdataobjectdefinition: bool,
    pub dataobjectdirectory: bool,
    pub getdatasetvalue: bool,
    pub setdatasetvalue: bool,
    pub datasetdirectory: bool,
    pub readwrite: bool,
    pub timeractivatedcontrol: bool,
    pub getcbvalues: bool,
    pub gsedir: bool,
    pub filehandling: bool,
    pub confldname: bool,
    pub conflogcontrol: SclServiceWithMax,
    pub goose: SclServiceWithMax,
    pub gsse: SclServiceWithMax,
    pub smvsc: SclServiceWithMax,
    pub supsubscription: SclServiceWithMax,
    pub confsigref: SclServiceWithMax,
    pub reportsettings: SclReportsettings,
}

/// The view of [`SclServices`].
#[verifier::ext_equal]
pub struct SclServicesView {
    pub getdirectory: bool,
    pub getdataobjectdefinition: bool,
    pub dataobjectdirectory: bool,
    pub getdatasetvalue: bool,
    pub setdatasetvalue: bool,
    pub datasetdirectory: bool,
    pub readwrite: bool,
    pub timeractivatedcontrol: bool,
    pub getcbvalues: bool,
    pub gsedir: bool,
    pub filehandling: bool,
    pub confldname: bool,
    pub conflogcontrol: SclServiceWithMaxView,
    pub goose: SclServiceWithMaxView,
    pub gsse: SclServiceWithMaxView,
    pub smvsc: SclServiceWithMaxView,
    pub supsubscription: SclServiceWithMaxView,
    pub confsigref: SclServiceWithMaxView,
    pub reportsettings: SclReportsettingsView,
}

impl View for SclServices {
    type V = SclServicesView;

    open spec fn view(&self) -> SclServicesView {
        SclServicesView {
            getdirectory: self.getdirectory,
            getdataobjectdefinition: self.getdataobjectdefinition,
            dataobjectdirectory: self.dataobjectdirectory,
            getdatasetvalue: self.getdatasetvalue,
            setdatasetvalue: self.setdatasetvalue,
            datasetdirectory: self.datasetdirectory,
            readwrite: self.readwrite,
            timeractivatedcontrol: self.timeractivatedcontrol,
            getcbvalues: self.getcbvalues,
            gsedir: self.gsedir,
            filehandling: self.filehandling,
            confldname: self.confldname,
            conflogcontrol: self.conflogcontrol@,
            goose: self.goose@,
            gsse: self.gsse@,
            smvsc: self.smvsc@,
            supsubscription: self.supsubscription@,
            confsigref: self.confsigref@,
            reportsettings: self.reportsettings@,
        }
    }
}

impl Clone for SclServices {
    fn clone(&self) -> (r: Self)
        ensures
            r@ == self@,
    {
        SclServices {
            getdirectory: self.getdirectory,
            getdataobjectdefinition: self.getdataobjectdefinition,
            dataobjectdirectory: self.dataobjectdirectory,
            getdatasetvalue: self.getdatasetvalue,
            setdatasetvalue: self.setdatasetvalue,
            datasetdirectory: self.datasetdirectory,
            readwrite: self.readwrite,
            timeractivatedcontrol: self.timeractivatedcontrol,
            getcbvalues: self.getcbvalues,
            gsedir: self.gsedir,
            filehandling: self.filehandling,
            confldname: self.confldname,
            conflogcontrol: self.conflogcontrol.clone(),
            goose: self.goose.clone(),
            gsse: self.gsse.clone(),
            smvsc: self.smvsc.clone(),
            supsubscription: self.supsubscription.clone(),
            confsigref: self.confsigref.clone(),
            reportsettings: self.reportsettings.clone(),
        }
    }
}

/// The server of the access point that was asked for.
#[derive(Clone, Debug, Default)]
pub struct SclServer {
    pub serv_opt: SclServOpt,
    pub ld_vec: Vec<SclLd>,
    pub iedname: String,
    pub apname: String,
    /// The services of the device, as they stood when the access point opened.
    pub scl_services: SclServices,
}

/// The view of [`SclServer`].
#[verifier::ext_equal]
pub struct SclServerView {
    pub serv_opt: SclServOptView,
    pub ld_vec: Seq<SclLdView>,
    pub iedname: Seq<char>,
    pub apname: Seq<char>,
    pub scl_services: SclServicesView,
}

impl View for SclServer {
    type V = SclServerView;

    open spec fn view(&self) -> SclServerView {
        SclServerView {
            serv_opt: self.serv_opt@,
            ld_vec: self.ld_vec@.map_values(|x: SclLd| x@),
            iedname: self.iedname@,
            apname: self.apname@,
            scl_services: self.scl_services@,
        }
    }
}

/// The configuration tree of one device.
#[derive(Clone, Debug, Default)]
pub struct SclInfo {
    /// 1 or 2.
    pub edition: u32,
    pub options: SclOptions,
    pub header: SclHeader,
    pub subnet_vec: Vec<SclSubnet>,
    pub lntype_vec: Vec<SclLntype>,
    pub dotype_vec: Vec<SclDotype>,
    pub datype_vec: Vec<SclDatype>,
    pub enumtype_vec: Vec<SclEnumtype>,
    pub server_vec: Vec<SclServer>,
    pub datatype_create_done: bool,
    pub ld_create_done: bool,
}

/// The view of [`SclInfo`].
#[verifier::ext_equal]
pub struct SclInfoView {
    pub edition: u32,
    pub options: SclOptionsView,
    pub header: SclHeaderView,
    pub subnet_vec: Seq<SclSubnetView>,
    pub lntype_vec: Seq<SclLntypeView>,
    pub dotype_vec: Seq<SclDotypeView>,
    pub datype_vec: Seq<SclDatypeView>,
    pub enumtype_vec: Seq<SclEnumtypeView>,
    pub server_vec: Seq<SclServerView>,
    pub datatype_create_done: bool,
    pub ld_create_done: bool,
}

impl View for SclInfo {
    type V = SclInfoView;

    open spec fn view(&self) -> SclInfoView {
        SclInfoView {
            edition: self.edition,
            options: self.options@,
            header: self.header@,
            subnet_vec: self.subnet_vec@.map_values(|x: SclSubnet| x@),
            lntype_vec: self.lntype_vec@.map_values(|x: SclLntype| x@),
            dotype_vec: self.dotype_vec@.map_values(|x: SclDotype| x@),
            datype_vec: self.datype_vec@.map_values(|x: SclDatype| x@),
            enumtype_vec: self.enumtype_vec@.map_values(|x: SclEnumtype| x@),
            server_vec: self.server_vec@.map_values(|x: SclServer| x@),
            datatype_create_done: self.datatype_create_done,
            ld_create_done: self.ld_create_done,
        }
    }
}

/// What the children of a `ReportControl` element leave for its end.
#[derive(Debug, Default)]
pub struct RcbSubData {
    pub rcb_optflds: [u8; 2],
    pub max: u32,
}

/// The view of [`RcbSubData`].
#[verifier::ext_equal]
pub struct RcbSubDataView {
    pub rcb_optflds: Seq<u8>,
    pub max: u32,
}

impl View for RcbSubData {
    type V = RcbSubDataView;

    open spec fn view(&self) -> RcbSubDataView {
        RcbSubDataView {
            rcb_optflds: self.rcb_optflds@,
            max: self.max,
        }
    }
}

impl Clone for RcbSubData {
    fn clone(&self) -> (r: Self)
        ensures
            r@ == self@,
    {
        RcbSubData {
            rcb_optflds: self.rcb_optflds,
            max: self.max,
        }
    }
}

} // verus!
