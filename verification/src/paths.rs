//! The place in the tree where the next node goes: always the last element
//! of a list, in the last element of the list of its parent.

use crate::model::{
    SclBdaView, SclCapView, SclDaView, SclDaiView, SclDatasetView, SclDatypeView, SclDoView,
    SclDotypeView, SclEnumtypeView, SclEnumvalView, SclExtrefView, SclFcdaView, SclGcbView,
    SclGseView, SclInfoView, SclLcbView, SclLdView, SclLnView, SclLntypeView, SclRcbView,
    SclServerView, SclSgValView, SclSmvView, SclSubnetView, SclSvcbView,
};
use vstd::prelude::*;

verus! {

/// `s` with another last element.
pub open spec fn set_last<T>(s: Seq<T>, x: T) -> Seq<T> {
    s.update(s.len() - 1, x)
}

impl SclInfoView {
    /// Whether the tree has a subnetwork.
    pub open spec fn has_subnet(self) -> bool {
        self.subnet_vec.len() > 0
    }

    /// The last subnetwork.
    pub open spec fn subnet(self) -> SclSubnetView {
        self.subnet_vec.last()
    }

    /// The tree with another last subnetwork.
    pub open spec fn with_subnet(self, subnet: SclSubnetView) -> SclInfoView {
        SclInfoView { subnet_vec: set_last(self.subnet_vec, subnet), ..self }
    }

    /// The tree with one more subnetwork at the end.
    pub open spec fn add_subnet(self, subnet: SclSubnetView) -> SclInfoView {
        SclInfoView { subnet_vec: self.subnet_vec.push(subnet), ..self }
    }

    /// Whether the last subnetwork has a connected access point.
    pub open spec fn has_cap(self) -> bool {
        self.has_subnet() && self.subnet().cap_vec.len() > 0
    }

    /// The last connected access point of the last subnetwork.
    pub open spec fn cap(self) -> SclCapView {
        self.subnet().cap_vec.last()
    }

    /// The tree with another last connected access point.
    pub open spec fn with_cap(self, cap: SclCapView) -> SclInfoView {
        self.with_subnet(
            SclSubnetView { cap_vec: set_last(self.subnet().cap_vec, cap), ..self.subnet() },
        )
    }

    /// The tree with one more connected access point at the end of the last subnetwork.
    pub open spec fn add_cap(self, cap: SclCapView) -> SclInfoView {
        self.with_subnet(
            SclSubnetView { cap_vec: self.subnet().cap_vec.push(cap), ..self.subnet() },
        )
    }

    /// Whether the last connected access point has a GOOSE transport.
    pub open spec fn has_gse(self) -> bool {
        self.has_cap() && self.cap().gse_vec.len() > 0
    }

    /// The last GOOSE transport of the last connected access point.
    pub open spec fn gse(self) -> SclGseView {
        self.cap().gse_vec.last()
    }

    /// The tree with another last GOOSE transport.
    pub open spec fn with_gse(self, gse: SclGseView) -> SclInfoView {
        self.with_cap(
            SclCapView { gse_vec: set_last(self.cap().gse_vec, gse), ..self.cap() },
        )
    }

    /// The tree with one more GOOSE transport at the end of the last connected access point.
    pub open spec fn add_gse(self, gse: SclGseView) -> SclInfoView {
        self.with_cap(
            SclCapView { gse_vec: self.cap().gse_vec.push(gse), ..self.cap() },
        )
    }

    /// Whether the last connected access point has a sampled value transport.
    pub open spec fn has_smv(self) -> bool {
        self.has_cap() && self.cap().smv_vec.len() > 0
    }

    /// The last sampled value transport of the last connected access point.
    pub open spec fn smv(self) -> SclSmvView {
        self.cap().smv_vec.last()
    }

    /// The tree with another last sampled value transport.
    pub open spec fn with_smv(self, smv: SclSmvView) -> SclInfoView {
        self.with_cap(
            SclCapView { smv_vec: set_last(self.cap().smv_vec, smv), ..self.cap() },
        )
    }

    /// The tree with one more sampled value transport at the end of the last
    /// connected access point.
    pub open spec fn add_smv(self, smv: SclSmvView) -> SclInfoView {
        self.with_cap(
            SclCapView { smv_vec: self.cap().smv_vec.push(smv), ..self.cap() },
        )
    }

    /// Whether the tree has a server.
    pub open spec fn has_server(self) -> bool {
        self.server_vec.len() > 0
    }

    /// The last server.
    pub open spec fn server(self) -> SclServerView {
        self.server_vec.last()
    }

    /// The tree with another last server.
    pub open spec fn with_server(self, server: SclServerView) -> SclInfoView {
        SclInfoView { server_vec: set_last(self.server_vec, server), ..self }
    }

    /// The tree with one more server at the end.
    pub open spec fn add_server(self, server: SclServerView) -> SclInfoView {
        SclInfoView { server_vec: self.server_vec.push(server), ..self }
    }

    /// Whether the last server has a logical device.
    pub open spec fn has_ld(self) -> bool {
        self.has_server() && self.server().ld_vec.len() > 0
    }

    /// The last logical device of the last server.
    pub open spec fn ld(self) -> SclLdView {
        self.server().ld_vec.last()
    }

    /// The tree with another last logical device.
    pub open spec fn with_ld(self, ld: SclLdView) -> SclInfoView {
        self.with_server(
            SclServerView { ld_vec: set_last(self.server().ld_vec, ld), ..self.server() },
        )
    }

    /// The tree with one more logical device at the end of the last server.
    pub open spec fn add_ld(self, ld: SclLdView) -> SclInfoView {
        self.with_server(
            SclServerView { ld_vec: self.server().ld_vec.push(ld), ..self.server() },
        )
    }

    /// Whether the last logical device has a logical node.
    pub open spec fn has_ln(self) -> bool {
        self.has_ld() && self.ld().ln_vec.len() > 0
    }

    /// The last logical node of the last logical device.
    pub open spec fn ln(self) -> SclLnView {
        self.ld().ln_vec.last()
    }

    /// The tree with another last logical node.
    pub open spec fn with_ln(self, ln: SclLnView) -> SclInfoView {
        self.with_ld(
            SclLdView { ln_vec: set_last(self.ld().ln_vec, ln), ..self.ld() },
        )
    }

    /// The tree with one more logical node at the end of the last logical device.
    pub open spec fn add_ln(self, ln: SclLnView) -> SclInfoView {
        self.with_ld(
            SclLdView { ln_vec: self.ld().ln_vec.push(ln), ..self.ld() },
        )
    }

    /// Whether the last logical node has a data set.
    pub open spec fn has_dataset(self) -> bool {
        self.has_ln() && self.ln().dataset_vec.len() > 0
    }

    /// The last data set of the last logical node.
    pub open spec fn dataset(self) -> SclDatasetView {
        self.ln().dataset_vec.last()
    }

    /// The tree with another last data set.
    pub open spec fn with_dataset(self, dataset: SclDatasetView) -> SclInfoView {
        self.with_ln(
            SclLnView { dataset_vec: set_last(self.ln().dataset_vec, dataset), ..self.ln() },
        )
    }

    /// The tree with one more data set at the end of the last logical node.
    pub open spec fn add_dataset(self, dataset: SclDatasetView) -> SclInfoView {
        self.with_ln(
            SclLnView { dataset_vec: self.ln().dataset_vec.push(dataset), ..self.ln() },
        )
    }

    /// Whether the last logical node has a report control block.
    pub open spec fn has_rcb(self) -> bool {
        self.has_ln() && self.ln().rcb_vec.len() > 0
    }

    /// The last report control block of the last logical node.
    pub open spec fn rcb(self) -> SclRcbView {
        self.ln().rcb_vec.last()
    }

    /// The tree with another last report control block.
    pub open spec fn with_rcb(self, rcb: SclRcbView) -> SclInfoView {
        self.with_ln(
            SclLnView { rcb_vec: set_last(self.ln().rcb_vec, rcb), ..self.ln() },
        )
    }

    /// The tree with one more report control block at the end of the last logical node.
    pub open spec fn add_rcb(self, rcb: SclRcbView) -> SclInfoView {
        self.with_ln(
            SclLnView { rcb_vec: self.ln().rcb_vec.push(rcb), ..self.ln() },
        )
    }

    /// Whether the last logical node has a log control block.
    pub open spec fn has_lcb(self) -> bool {
        self.has_ln() && self.ln().lcb_vec.len() > 0
    }

    /// The last log control block of the last logical node.
    pub open spec fn lcb(self) -> SclLcbView {
        self.ln().lcb_vec.last()
    }

    /// The tree with another last log control block.
    pub open spec fn with_lcb(self, lcb: SclLcbView) -> SclInfoView {
        self.with_ln(
            SclLnView { lcb_vec: set_last(self.ln().lcb_vec, lcb), ..self.ln() },
        )
    }

    /// The tree with one more log control block at the end of the last logical node.
    pub open spec fn add_lcb(self, lcb: SclLcbView) -> SclInfoView {
        self.with_ln(
            SclLnView { lcb_vec: self.ln().lcb_vec.push(lcb), ..self.ln() },
        )
    }

    /// Whether the last logical node has a sampled value control block.
    pub open spec fn has_svcb(self) -> bool {
        self.has_ln() && self.ln().svcb_vec.len() > 0
    }

    /// The last sampled value control block of the last logical node.
    pub open spec fn svcb(self) -> SclSvcbView {
        self.ln().svcb_vec.last()
    }

    /// The tree with another last sampled value control block.
    pub open spec fn with_svcb(self, svcb: SclSvcbView) -> SclInfoView {
        self.with_ln(
            SclLnView { svcb_vec: set_last(self.ln().svcb_vec, svcb), ..self.ln() },
        )
    }

    /// The tree with one more sampled value control block at the end of the last logical node.
    pub open spec fn add_svcb(self, svcb: SclSvcbView) -> SclInfoView {
        self.with_ln(
            SclLnView { svcb_vec: self.ln().svcb_vec.push(svcb), ..self.ln() },
        )
    }

    /// Whether the last logical node has an attribute value.
    pub open spec fn has_dai(self) -> bool {
        self.has_ln() && self.ln().dai_vec.len() > 0
    }

    /// The last attribute value of the last logical node.
    pub open spec fn dai(self) -> SclDaiView {
        self.ln().dai_vec.last()
    }

    /// The tree with another last attribute value.
    pub open spec fn with_dai(self, dai: SclDaiView) -> SclInfoView {
        self.with_ln(
            SclLnView { dai_vec: set_last(self.ln().dai_vec, dai), ..self.ln() },
        )
    }

    /// The tree with one more attribute value at the end of the last logical node.
    pub open spec fn add_dai(self, dai: SclDaiView) -> SclInfoView {
        self.with_ln(
            SclLnView { dai_vec: self.ln().dai_vec.push(dai), ..self.ln() },
        )
    }

    /// Whether the tree has a logical node type.
    pub open spec fn has_lntype(self) -> bool {
        self.lntype_vec.len() > 0
    }

    /// The last logical node type.
    pub open spec fn lntype(self) -> SclLntypeView {
        self.lntype_vec.last()
    }

    /// The tree with another last logical node type.
    pub open spec fn with_lntype(self, lntype: SclLntypeView) -> SclInfoView {
        SclInfoView { lntype_vec: set_last(self.lntype_vec, lntype), ..self }
    }

    /// The tree with one more logical node type at the end.
    pub open spec fn add_lntype(self, lntype: SclLntypeView) -> SclInfoView {
        SclInfoView { lntype_vec: self.lntype_vec.push(lntype), ..self }
    }

    /// Whether the tree has a data object type.
    pub open spec fn has_dotype(self) -> bool {
        self.dotype_vec.len() > 0
    }

    /// The last data object type.
    pub open spec fn dotype(self) -> SclDotypeView {
        self.dotype_vec.last()
    }

    /// The tree with another last data object type.
    pub open spec fn with_dotype(self, dotype: SclDotypeView) -> SclInfoView {
        SclInfoView { dotype_vec: set_last(self.dotype_vec, dotype), ..self }
    }

    /// The tree with one more data object type at the end.
    pub open spec fn add_dotype(self, dotype: SclDotypeView) -> SclInfoView {
        SclInfoView { dotype_vec: self.dotype_vec.push(dotype), ..self }
    }

    /// Whether the last data object type has a data object type entry.
    pub open spec fn has_da(self) -> bool {
        self.has_dotype() && self.dotype().da_vec.len() > 0
    }

    /// The last data object type entry of the last data object type.
    pub open spec fn da(self) -> SclDaView {
        self.dotype().da_vec.last()
    }

    /// The tree with another last data object type entry.
    pub open spec fn with_da(self, da: SclDaView) -> SclInfoView {
        self.with_dotype(
            SclDotypeView { da_vec: set_last(self.dotype().da_vec, da), ..self.dotype() },
        )
    }

    /// The tree with one more data object type entry at the end of the last data object type.
    pub open spec fn add_da(self, da: SclDaView) -> SclInfoView {
        self.with_dotype(
            SclDotypeView { da_vec: self.dotype().da_vec.push(da), ..self.dotype() },
        )
    }

    /// Whether the tree has a data attribute type.
    pub open spec fn has_datype(self) -> bool {
        self.datype_vec.len() > 0
    }

    /// The last data attribute type.
    pub open spec fn datype(self) -> SclDatypeView {
        self.datype_vec.last()
    }

    /// The tree with another last data attribute type.
    pub open spec fn with_datype(self, datype: SclDatypeView) -> SclInfoView {
        SclInfoView { datype_vec: set_last(self.datype_vec, datype), ..self }
    }

    /// The tree with one more data attribute type at the end.
    pub open spec fn add_datype(self, datype: SclDatypeView) -> SclInfoView {
        SclInfoView { datype_vec: self.datype_vec.push(datype), ..self }
    }

    /// Whether the last data attribute type has a basic data attribute.
    pub open spec fn has_bda(self) -> bool {
        self.has_datype() && self.datype().bda_vec.len() > 0
    }

    /// The last basic data attribute of the last data attribute type.
    pub open spec fn bda(self) -> SclBdaView {
        self.datype().bda_vec.last()
    }

    /// The tree with another last basic data attribute.
    pub open spec fn with_bda(self, bda: SclBdaView) -> SclInfoView {
        self.with_datype(
            SclDatypeView { bda_vec: set_last(self.datype().bda_vec, bda), ..self.datype() },
        )
    }

    /// The tree with one more basic data attribute at the end of the last data attribute type.
    pub open spec fn add_bda(self, bda: SclBdaView) -> SclInfoView {
        self.with_datype(
            SclDatypeView { bda_vec: self.datype().bda_vec.push(bda), ..self.datype() },
        )
    }

    /// Whether the tree has an enumeration.
    pub open spec fn has_enumtype(self) -> bool {
        self.enumtype_vec.len() > 0
    }

    /// The last enumeration.
    pub open spec fn enumtype(self) -> SclEnumtypeView {
        self.enumtype_vec.last()
    }

    /// The tree with another last enumeration.
    pub open spec fn with_enumtype(self, enumtype: SclEnumtypeView) -> SclInfoView {
        SclInfoView { enumtype_vec: set_last(self.enumtype_vec, enumtype), ..self }
    }

    /// The tree with one more enumeration at the end.
    pub open spec fn add_enumtype(self, enumtype: SclEnumtypeView) -> SclInfoView {
        SclInfoView { enumtype_vec: self.enumtype_vec.push(enumtype), ..self }
    }

    /// Whether the last enumeration has an enumeration value.
    pub open spec fn has_enumval(self) -> bool {
        self.has_enumtype() && self.enumtype().enumval_vec.len() > 0
    }

    /// The last enumeration value of the last enumeration.
    pub open spec fn enumval(self) -> SclEnumvalView {
        self.enumtype().enumval_vec.last()
    }

    /// The tree with another last enumeration value.
    pub open spec fn with_enumval(self, enumval: SclEnumvalView) -> SclInfoView {
        self.with_enumtype(
            SclEnumtypeView {
                enumval_vec: set_last(self.enumtype().enumval_vec, enumval),
                ..self.enumtype()
            },
        )
    }

    /// The tree with one more enumeration value at the end of the last enumeration.
    pub open spec fn add_enumval(self, enumval: SclEnumvalView) -> SclInfoView {
        self.with_enumtype(
            SclEnumtypeView {
                enumval_vec: self.enumtype().enumval_vec.push(enumval),
                ..self.enumtype()
            },
        )
    }

    /// Whether the last logical node has a GOOSE control block.
    pub open spec fn has_gcb(self) -> bool {
        self.has_ln() && self.ln().gcb_vec.len() > 0
    }

    /// The last GOOSE control block of the last logical node.
    pub open spec fn gcb(self) -> SclGcbView {
        self.ln().gcb_vec.last()
    }

    /// The tree with another last GOOSE control block.
    pub open spec fn with_gcb(self, gcb: SclGcbView) -> SclInfoView {
        self.with_ln(
            SclLnView { gcb_vec: set_last(self.ln().gcb_vec, gcb), ..self.ln() },
        )
    }

    /// The tree with one more GOOSE control block at the end of the last logical node.
    pub open spec fn add_gcb(self, gcb: SclGcbView) -> SclInfoView {
        self.with_ln(
            SclLnView { gcb_vec: self.ln().gcb_vec.push(gcb), ..self.ln() },
        )
    }

    /// Whether the last logical node has an external reference.
    pub open spec fn has_extref(self) -> bool {
        self.has_ln() && self.ln().extref_vec.len() > 0
    }

    /// The last external reference of the last logical node.
    pub open spec fn extref(self) -> SclExtrefView {
        self.ln().extref_vec.last()
    }

    /// The tree with another last external reference.
    pub open spec fn with_extref(self, extref: SclExtrefView) -> SclInfoView {
        self.with_ln(
            SclLnView { extref_vec: set_last(self.ln().extref_vec, extref), ..self.ln() },
        )
    }

    /// The tree with one more external reference at the end of the last logical node.
    pub open spec fn add_extref(self, extref: SclExtrefView) -> SclInfoView {
        self.with_ln(
            SclLnView { extref_vec: self.ln().extref_vec.push(extref), ..self.ln() },
        )
    }

    /// Whether the last data set has a data set member.
    pub open spec fn has_fcda(self) -> bool {
        self.has_dataset() && self.dataset().fcda_vec.len() > 0
    }

    /// The last data set member of the last data set.
    pub open spec fn fcda(self) -> SclFcdaView {
        self.dataset().fcda_vec.last()
    }

    /// The tree with another last data set member.
    pub open spec fn with_fcda(self, fcda: SclFcdaView) -> SclInfoView {
        self.with_dataset(
            SclDatasetView { fcda_vec: set_last(self.dataset().fcda_vec, fcda), ..self.dataset() },
        )
    }

    /// The tree with one more data set member at the end of the last data set.
    pub open spec fn add_fcda(self, fcda: SclFcdaView) -> SclInfoView {
        self.with_dataset(
            SclDatasetView { fcda_vec: self.dataset().fcda_vec.push(fcda), ..self.dataset() },
        )
    }

    /// Whether the last logical node type has a data object.
    pub open spec fn has_dobj(self) -> bool {
        self.has_lntype() && self.lntype().do_vec.len() > 0
    }

    /// The last data object of the last logical node type.
    pub open spec fn dobj(self) -> SclDoView {
        self.lntype().do_vec.last()
    }

    /// The tree with another last data object.
    pub open spec fn with_dobj(self, dobj: SclDoView) -> SclInfoView {
        self.with_lntype(
            SclLntypeView { do_vec: set_last(self.lntype().do_vec, dobj), ..self.lntype() },
        )
    }

    /// The tree with one more data object at the end of the last logical node type.
    pub open spec fn add_dobj(self, dobj: SclDoView) -> SclInfoView {
        self.with_lntype(
            SclLntypeView { do_vec: self.lntype().do_vec.push(dobj), ..self.lntype() },
        )
    }

    /// Whether the last attribute value has a setting group value.
    pub open spec fn has_dai_sgval(self) -> bool {
        self.has_dai() && self.dai().sgval_vec.len() > 0
    }

    /// The last setting group value of the last attribute value.
    pub open spec fn dai_sgval(self) -> SclSgValView {
        self.dai().sgval_vec.last()
    }

    /// The tree with another last setting group value.
    pub open spec fn with_dai_sgval(self, dai_sgval: SclSgValView) -> SclInfoView {
        self.with_dai(
            SclDaiView { sgval_vec: set_last(self.dai().sgval_vec, dai_sgval), ..self.dai() },
        )
    }

    /// The tree with one more setting group value at the end of the last attribute value.
    pub open spec fn add_dai_sgval(self, dai_sgval: SclSgValView) -> SclInfoView {
        self.with_dai(
            SclDaiView { sgval_vec: self.dai().sgval_vec.push(dai_sgval), ..self.dai() },
        )
    }

    /// Whether the last data object type entry has a setting group value.
    pub open spec fn has_da_sgval(self) -> bool {
        self.has_da() && self.da().sgval_vec.len() > 0
    }

    /// The last setting group value of the last data object type entry.
    pub open spec fn da_sgval(self) -> SclSgValView {
        self.da().sgval_vec.last()
    }

    /// The tree with another last setting group value.
    pub open spec fn with_da_sgval(self, da_sgval: SclSgValView) -> SclInfoView {
        self.with_da(
            SclDaView { sgval_vec: set_last(self.da().sgval_vec, da_sgval), ..self.da() },
        )
    }

    /// The tree with one more setting group value at the end of the last data object type entry.
    pub open spec fn add_da_sgval(self, da_sgval: SclSgValView) -> SclInfoView {
        self.with_da(
            SclDaView { sgval_vec: self.da().sgval_vec.push(da_sgval), ..self.da() },
        )
    }

    /// Whether the last basic data attribute has a setting group value.
    pub open spec fn has_bda_sgval(self) -> bool {
        self.has_bda() && self.bda().sgval_vec.len() > 0
    }

    /// The last setting group value of the last basic data attribute.
    pub open spec fn bda_sgval(self) -> SclSgValView {
        self.bda().sgval_vec.last()
    }

    /// The tree with another last setting group value.
    pub open spec fn with_bda_sgval(self, bda_sgval: SclSgValView) -> SclInfoView {
        self.with_bda(
            SclBdaView { sgval_vec: set_last(self.bda().sgval_vec, bda_sgval), ..self.bda() },
        )
    }

    /// The tree with one more setting group value at the end of the last basic data attribute.
    pub open spec fn add_bda_sgval(self, bda_sgval: SclSgValView) -> SclInfoView {
        self.with_bda(
            SclBdaView { sgval_vec: self.bda().sgval_vec.push(bda_sgval), ..self.bda() },
        )
    }
}

} // verus!
