//! Access to the place in the tree where the next node goes.

use crate::model::{
    SclBda, SclBdaView, SclCap, SclCapView, SclDa, SclDaView, SclDai, SclDaiView, SclDataset,
    SclDatasetView, SclDatype, SclDatypeView, SclDo, SclDotype, SclDotypeView, SclEnumtype,
    SclEnumtypeView, SclEnumval, SclExtref, SclFcda, SclGcb, SclGse, SclInfo, SclLcb, SclLd,
    SclLdView, SclLn, SclLnView, SclLntype, SclLntypeView, SclRcb, SclServer, SclServerView,
    SclSgVal, SclSmv, SclSubnet, SclSubnetView, SclSvcb,
};
use crate::paths::set_last;
use vstd::prelude::*;

verus! {

/// Whether the tree has a subnetwork.
pub fn has_subnet(info: &SclInfo) -> (r: bool)
    ensures
        r == info@.has_subnet(),
{
    info.subnet_vec.len() > 0
}

/// The last subnetwork.
pub fn subnet_ref(info: &SclInfo) -> (r: &SclSubnet)
    requires
        info@.has_subnet(),
    ensures
        r@ == info@.subnet(),
{
    let n = info.subnet_vec.len();
    &info.subnet_vec[n - 1]
}

/// The last subnetwork, to be changed in place.
pub fn subnet_mut(info: &mut SclInfo) -> (r: &mut SclSubnet)
    requires
        old(info)@.has_subnet(),
    ensures
        r@ == old(info)@.subnet(),
        final(info)@ == old(info)@.with_subnet(final(r)@),
{
    let n = info.subnet_vec.len();
    let r = &mut info.subnet_vec[n - 1];
    proof {
        assert(after_borrow(info)@ =~~= old(info)@.with_subnet(final(r)@));
    }
    r
}

/// Puts one more subnetwork at the end of the tree.
pub fn add_subnet(info: &mut SclInfo, subnet: SclSubnet)
    ensures
        final(info)@ == old(info)@.add_subnet(subnet@),
{
    info.subnet_vec.push(subnet);
    assert(info@ =~~= old(info)@.add_subnet(subnet@));
}

/// Whether the last subnetwork has a connected access point.
pub fn has_cap(info: &SclInfo) -> (r: bool)
    ensures
        r == info@.has_cap(),
{
    has_subnet(info) && subnet_ref(info).cap_vec.len() > 0
}

/// The last connected access point of the last subnetwork.
pub fn cap_ref(info: &SclInfo) -> (r: &SclCap)
    requires
        info@.has_cap(),
    ensures
        r@ == info@.cap(),
{
    let p = subnet_ref(info);
    let n = p.cap_vec.len();
    &p.cap_vec[n - 1]
}

/// The last connected access point of the last subnetwork, to be changed in place.
pub fn cap_mut(info: &mut SclInfo) -> (r: &mut SclCap)
    requires
        old(info)@.has_cap(),
    ensures
        r@ == old(info)@.cap(),
        final(info)@ == old(info)@.with_cap(final(r)@),
{
    let p = subnet_mut(info);
    let n = p.cap_vec.len();
    let r = &mut p.cap_vec[n - 1];
    proof {
        assert(after_borrow(p)@ =~~= (SclSubnetView {
            cap_vec: set_last(old(info)@.subnet().cap_vec, final(r)@),
            ..old(info)@.subnet()
        }));
    }
    r
}

/// Puts one more connected access point at the end of the last subnetwork.
pub fn add_cap(info: &mut SclInfo, cap: SclCap)
    requires
        old(info)@.has_subnet(),
    ensures
        final(info)@ == old(info)@.add_cap(cap@),
{
    let p = subnet_mut(info);
    p.cap_vec.push(cap);
    assert(p@ =~~= (SclSubnetView {
        cap_vec: old(info)@.subnet().cap_vec.push(cap@),
        ..old(info)@.subnet()
    }));
}

/// Whether the last connected access point has a GOOSE transport.
pub fn has_gse(info: &SclInfo) -> (r: bool)
    ensures
        r == info@.has_gse(),
{
    has_cap(info) && cap_ref(info).gse_vec.len() > 0
}

/// The last GOOSE transport of the last connected access point.
pub fn gse_ref(info: &SclInfo) -> (r: &SclGse)
    requires
        info@.has_gse(),
    ensures
        r@ == info@.gse(),
{
    let p = cap_ref(info);
    let n = p.gse_vec.len();
    &p.gse_vec[n - 1]
}

/// The last GOOSE transport of the last connected access point, to be changed in place.
pub fn gse_mut(info: &mut SclInfo) -> (r: &mut SclGse)
    requires
        old(info)@.has_gse(),
    ensures
        r@ == old(info)@.gse(),
        final(info)@ == old(info)@.with_gse(final(r)@),
{
    let p = cap_mut(info);
    let n = p.gse_vec.len();
    let r = &mut p.gse_vec[n - 1];
    proof {
        assert(after_borrow(p)@ =~~= (SclCapView {
            gse_vec: set_last(old(info)@.cap().gse_vec, final(r)@),
            ..old(info)@.cap()
        }));
    }
    r
}

/// Puts one more GOOSE transport at the end of the last connected access point.
pub fn add_gse(info: &mut SclInfo, gse: SclGse)
    requires
        old(info)@.has_cap(),
    ensures
        final(info)@ == old(info)@.add_gse(gse@),
{
    let p = cap_mut(info);
    p.gse_vec.push(gse);
    assert(p@ =~~= (SclCapView {
        gse_vec: old(info)@.cap().gse_vec.push(gse@),
        ..old(info)@.cap()
    }));
}

/// Whether the last connected access point has a sampled value transport.
pub fn has_smv(info: &SclInfo) -> (r: bool)
    ensures
        r == info@.has_smv(),
{
    has_cap(info) && cap_ref(info).smv_vec.len() > 0
}

/// The last sampled value transport of the last connected access point.
pub fn smv_ref(info: &SclInfo) -> (r: &SclSmv)
    requires
        info@.has_smv(),
    ensures
        r@ == info@.smv(),
{
    let p = cap_ref(info);
    let n = p.smv_vec.len();
    &p.smv_vec[n - 1]
}

/// The last sampled value transport of the last connected access point, to be changed in place.
pub fn smv_mut(info: &mut SclInfo) -> (r: &mut SclSmv)
    requires
        old(info)@.has_smv(),
    ensures
        r@ == old(info)@.smv(),
        final(info)@ == old(info)@.with_smv(final(r)@),
{
    let p = cap_mut(info);
    let n = p.smv_vec.len();
    let r = &mut p.smv_vec[n - 1];
    proof {
        assert(after_borrow(p)@ =~~= (SclCapView {
            smv_vec: set_last(old(info)@.cap().smv_vec, final(r)@),
            ..old(info)@.cap()
        }));
    }
    r
}

/// Puts one more sampled value transport at the end of the last connected access point.
pub fn add_smv(info: &mut SclInfo, smv: SclSmv)
    requires
        old(info)@.has_cap(),
    ensures
        final(info)@ == old(info)@.add_smv(smv@),
{
    let p = cap_mut(info);
    p.smv_vec.push(smv);
    assert(p@ =~~= (SclCapView {
        smv_vec: old(info)@.cap().smv_vec.push(smv@),
        ..old(info)@.cap()
    }));
}

/// Whether the tree has a server.
pub fn has_server(info: &SclInfo) -> (r: bool)
    ensures
        r == info@.has_server(),
{
    info.server_vec.len() > 0
}

/// The last server.
pub fn server_ref(info: &SclInfo) -> (r: &SclServer)
    requires
        info@.has_server(),
    ensures
        r@ == info@.server(),
{
    let n = info.server_vec.len();
    &info.server_vec[n - 1]
}

/// The last server, to be changed in place.
pub fn server_mut(info: &mut SclInfo) -> (r: &mut SclServer)
    requires
        old(info)@.has_server(),
    ensures
        r@ == old(info)@.server(),
        final(info)@ == old(info)@.with_server(final(r)@),
{
    let n = info.server_vec.len();
    let r = &mut info.server_vec[n - 1];
    proof {
        assert(after_borrow(info)@ =~~= old(info)@.with_server(final(r)@));
    }
    r
}

/// Puts one more server at the end of the tree.
pub fn add_server(info: &mut SclInfo, server: SclServer)
    ensures
        final(info)@ == old(info)@.add_server(server@),
{
    info.server_vec.push(server);
    assert(info@ =~~= old(info)@.add_server(server@));
}

/// Whether the last server has a logical device.
pub fn has_ld(info: &SclInfo) -> (r: bool)
    ensures
        r == info@.has_ld(),
{
    has_server(info) && server_ref(info).ld_vec.len() > 0
}

/// The last logical device of the last server.
pub fn ld_ref(info: &SclInfo) -> (r: &SclLd)
    requires
        info@.has_ld(),
    ensures
        r@ == info@.ld(),
{
    let p = server_ref(info);
    let n = p.ld_vec.len();
    &p.ld_vec[n - 1]
}

/// The last logical device of the last server, to be changed in place.
pub fn ld_mut(info: &mut SclInfo) -> (r: &mut SclLd)
    requires
        old(info)@.has_ld(),
    ensures
        r@ == old(info)@.ld(),
        final(info)@ == old(info)@.with_ld(final(r)@),
{
    let p = server_mut(info);
    let n = p.ld_vec.len();
    let r = &mut p.ld_vec[n - 1];
    proof {
        assert(after_borrow(p)@ =~~= (SclServerView {
            ld_vec: set_last(old(info)@.server().ld_vec, final(r)@),
            ..old(info)@.server()
        }));
    }
    r
}

/// Puts one more logical device at the end of the last server.
pub fn add_ld(info: &mut SclInfo, ld: SclLd)
    requires
        old(info)@.has_server(),
    ensures
        final(info)@ == old(info)@.add_ld(ld@),
{
    let p = server_mut(info);
    p.ld_vec.push(ld);
    assert(p@ =~~= (SclServerView {
        ld_vec: old(info)@.server().ld_vec.push(ld@),
        ..old(info)@.server()
    }));
}

/// Whether the last logical device has a logical node.
pub fn has_ln(info: &SclInfo) -> (r: bool)
    ensures
        r == info@.has_ln(),
{
    has_ld(info) && ld_ref(info).ln_vec.len() > 0
}

/// The last logical node of the last logical device.
pub fn ln_ref(info: &SclInfo) -> (r: &SclLn)
    requires
        info@.has_ln(),
    ensures
        r@ == info@.ln(),
{
    let p = ld_ref(info);
    let n = p.ln_vec.len();
    &p.ln_vec[n - 1]
}

/// The last logical node of the last logical device, to be changed in place.
pub fn ln_mut(info: &mut SclInfo) -> (r: &mut SclLn)
    requires
        old(info)@.has_ln(),
    ensures
        r@ == old(info)@.ln(),
        final(info)@ == old(info)@.with_ln(final(r)@),
{
    let p = ld_mut(info);
    let n = p.ln_vec.len();
    let r = &mut p.ln_vec[n - 1];
    proof {
        assert(after_borrow(p)@ =~~= (SclLdView {
            ln_vec: set_last(old(info)@.ld().ln_vec, final(r)@),
            ..old(info)@.ld()
        }));
    }
    r
}

/// Puts one more logical node at the end of the last logical device.
pub fn add_ln(info: &mut SclInfo, ln: SclLn)
    requires
        old(info)@.has_ld(),
    ensures
        final(info)@ == old(info)@.add_ln(ln@),
{
    let p = ld_mut(info);
    p.ln_vec.push(ln);
    assert(p@ =~~= (SclLdView {
        ln_vec: old(info)@.ld().ln_vec.push(ln@),
        ..old(info)@.ld()
    }));
}

/// Whether the last logical node has a data set.
pub fn has_dataset(info: &SclInfo) -> (r: bool)
    ensures
        r == info@.has_dataset(),
{
    has_ln(info) && ln_ref(info).dataset_vec.len() > 0
}

/// The last data set of the last logical node.
pub fn dataset_ref(info: &SclInfo) -> (r: &SclDataset)
    requires
        info@.has_dataset(),
    ensures
        r@ == info@.dataset(),
{
    let p = ln_ref(info);
    let n = p.dataset_vec.len();
    &p.dataset_vec[n - 1]
}

/// The last data set of the last logical node, to be changed in place.
pub fn dataset_mut(info: &mut SclInfo) -> (r: &mut SclDataset)
    requires
        old(info)@.has_dataset(),
    ensures
        r@ == old(info)@.dataset(),
        final(info)@ == old(info)@.with_dataset(final(r)@),
{
    let p = ln_mut(info);
    let n = p.dataset_vec.len();
    let r = &mut p.dataset_vec[n - 1];
    proof {
        assert(after_borrow(p)@ =~~= (SclLnView {
            dataset_vec: set_last(old(info)@.ln().dataset_vec, final(r)@),
            ..old(info)@.ln()
        }));
    }
    r
}

/// Puts one more data set at the end of the last logical node.
pub fn add_dataset(info: &mut SclInfo, dataset: SclDataset)
    requires
        old(info)@.has_ln(),
    ensures
        final(info)@ == old(info)@.add_dataset(dataset@),
{
    let p = ln_mut(info);
    p.dataset_vec.push(dataset);
    assert(p@ =~~= (SclLnView {
        dataset_vec: old(info)@.ln().dataset_vec.push(dataset@),
        ..old(info)@.ln()
    }));
}

/// Whether the last logical node has a report control block.
pub fn has_rcb(info: &SclInfo) -> (r: bool)
    ensures
        r == info@.has_rcb(),
{
    has_ln(info) && ln_ref(info).rcb_vec.len() > 0
}

/// The last report control block of the last logical node.
pub fn rcb_ref(info: &SclInfo) -> (r: &SclRcb)
    requires
        info@.has_rcb(),
    ensures
        r@ == info@.rcb(),
{
    let p = ln_ref(info);
    let n = p.rcb_vec.len();
    &p.rcb_vec[n - 1]
}

/// The last report control block of the last logical node, to be changed in place.
pub fn rcb_mut(info: &mut SclInfo) -> (r: &mut SclRcb)
    requires
        old(info)@.has_rcb(),
    ensures
        r@ == old(info)@.rcb(),
        final(info)@ == old(info)@.with_rcb(final(r)@),
{
    let p = ln_mut(info);
    let n = p.rcb_vec.len();
    let r = &mut p.rcb_vec[n - 1];
    proof {
        assert(after_borrow(p)@ =~~= (SclLnView {
            rcb_vec: set_last(old(info)@.ln().rcb_vec, final(r)@),
            ..old(info)@.ln()
        }));
    }
    r
}

/// Puts one more report control block at the end of the last logical node.
pub fn add_rcb(info: &mut SclInfo, rcb: SclRcb)
    requires
        old(info)@.has_ln(),
    ensures
        final(info)@ == old(info)@.add_rcb(rcb@),
{
    let p = ln_mut(info);
    p.rcb_vec.push(rcb);
    assert(p@ =~~= (SclLnView {
        rcb_vec: old(info)@.ln().rcb_vec.push(rcb@),
        ..old(info)@.ln()
    }));
}

/// Whether the last logical node has a log control block.
pub fn has_lcb(info: &SclInfo) -> (r: bool)
    ensures
        r == info@.has_lcb(),
{
    has_ln(info) && ln_ref(info).lcb_vec.len() > 0
}

/// The last log control block of the last logical node.
pub fn lcb_ref(info: &SclInfo) -> (r: &SclLcb)
    requires
        info@.has_lcb(),
    ensures
        r@ == info@.lcb(),
{
    let p = ln_ref(info);
    let n = p.lcb_vec.len();
    &p.lcb_vec[n - 1]
}

/// The last log control block of the last logical node, to be changed in place.
pub fn lcb_mut(info: &mut SclInfo) -> (r: &mut SclLcb)
    requires
        old(info)@.has_lcb(),
    ensures
        r@ == old(info)@.lcb(),
        final(info)@ == old(info)@.with_lcb(final(r)@),
{
    let p = ln_mut(info);
    let n = p.lcb_vec.len();
    let r = &mut p.lcb_vec[n - 1];
    proof {
        assert(after_borrow(p)@ =~~= (SclLnView {
            lcb_vec: set_last(old(info)@.ln().lcb_vec, final(r)@),
            ..old(info)@.ln()
        }));
    }
    r
}

/// Puts one more log control block at the end of the last logical node.
pub fn add_lcb(info: &mut SclInfo, lcb: SclLcb)
    requires
        old(info)@.has_ln(),
    ensures
        final(info)@ == old(info)@.add_lcb(lcb@),
{
    let p = ln_mut(info);
    p.lcb_vec.push(lcb);
    assert(p@ =~~= (SclLnView {
        lcb_vec: old(info)@.ln().lcb_vec.push(lcb@),
        ..old(info)@.ln()
    }));
}

/// Whether the last logical node has a sampled value control block.
pub fn has_svcb(info: &SclInfo) -> (r: bool)
    ensures
        r == info@.has_svcb(),
{
    has_ln(info) && ln_ref(info).svcb_vec.len() > 0
}

/// The last sampled value control block of the last logical node.
pub fn svcb_ref(info: &SclInfo) -> (r: &SclSvcb)
    requires
        info@.has_svcb(),
    ensures
        r@ == info@.svcb(),
{
    let p = ln_ref(info);
    let n = p.svcb_vec.len();
    &p.svcb_vec[n - 1]
}

/// The last sampled value control block of the last logical node, to be changed in place.
pub fn svcb_mut(info: &mut SclInfo) -> (r: &mut SclSvcb)
    requires
        old(info)@.has_svcb(),
    ensures
        r@ == old(info)@.svcb(),
        final(info)@ == old(info)@.with_svcb(final(r)@),
{
    let p = ln_mut(info);
    let n = p.svcb_vec.len();
    let r = &mut p.svcb_vec[n - 1];
    proof {
        assert(after_borrow(p)@ =~~= (SclLnView {
            svcb_vec: set_last(old(info)@.ln().svcb_vec, final(r)@),
            ..old(info)@.ln()
        }));
    }
    r
}

/// Puts one more sampled value control block at the end of the last logical node.
pub fn add_svcb(info: &mut SclInfo, svcb: SclSvcb)
    requires
        old(info)@.has_ln(),
    ensures
        final(info)@ == old(info)@.add_svcb(svcb@),
{
    let p = ln_mut(info);
    p.svcb_vec.push(svcb);
    assert(p@ =~~= (SclLnView {
        svcb_vec: old(info)@.ln().svcb_vec.push(svcb@),
        ..old(info)@.ln()
    }));
}

/// Whether the last logical node has an attribute value.
pub fn has_dai(info: &SclInfo) -> (r: bool)
    ensures
        r == info@.has_dai(),
{
    has_ln(info) && ln_ref(info).dai_vec.len() > 0
}

/// The last attribute value of the last logical node.
pub fn dai_ref(info: &SclInfo) -> (r: &SclDai)
    requires
        info@.has_dai(),
    ensures
        r@ == info@.dai(),
{
    let p = ln_ref(info);
    let n = p.dai_vec.len();
    &p.dai_vec[n - 1]
}

/// The last attribute value of the last logical node, to be changed in place.
pub fn dai_mut(info: &mut SclInfo) -> (r: &mut SclDai)
    requires
        old(info)@.has_dai(),
    ensures
        r@ == old(info)@.dai(),
        final(info)@ == old(info)@.with_dai(final(r)@),
{
    let p = ln_mut(info);
    let n = p.dai_vec.len();
    let r = &mut p.dai_vec[n - 1];
    proof {
        assert(after_borrow(p)@ =~~= (SclLnView {
            dai_vec: set_last(old(info)@.ln().dai_vec, final(r)@),
            ..old(info)@.ln()
        }));
    }
    r
}

/// Puts one more attribute value at the end of the last logical node.
pub fn add_dai(info: &mut SclInfo, dai: SclDai)
    requires
        old(info)@.has_ln(),
    ensures
        final(info)@ == old(info)@.add_dai(dai@),
{
    let p = ln_mut(info);
    p.dai_vec.push(dai);
    assert(p@ =~~= (SclLnView {
        dai_vec: old(info)@.ln().dai_vec.push(dai@),
        ..old(info)@.ln()
    }));
}

/// Whether the tree has a logical node type.
pub fn has_lntype(info: &SclInfo) -> (r: bool)
    ensures
        r == info@.has_lntype(),
{
    info.lntype_vec.len() > 0
}

/// The last logical node type.
pub fn lntype_ref(info: &SclInfo) -> (r: &SclLntype)
    requires
        info@.has_lntype(),
    ensures
        r@ == info@.lntype(),
{
    let n = info.lntype_vec.len();
    &info.lntype_vec[n - 1]
}

/// The last logical node type, to be changed in place.
pub fn lntype_mut(info: &mut SclInfo) -> (r: &mut SclLntype)
    requires
        old(info)@.has_lntype(),
    ensures
        r@ == old(info)@.lntype(),
        final(info)@ == old(info)@.with_lntype(final(r)@),
{
    let n = info.lntype_vec.len();
    let r = &mut info.lntype_vec[n - 1];
    proof {
        assert(after_borrow(info)@ =~~= old(info)@.with_lntype(final(r)@));
    }
    r
}

/// Puts one more logical node type at the end of the tree.
pub fn add_lntype(info: &mut SclInfo, lntype: SclLntype)
    ensures
        final(info)@ == old(info)@.add_lntype(lntype@),
{
    info.lntype_vec.push(lntype);
    assert(info@ =~~= old(info)@.add_lntype(lntype@));
}

/// Whether the tree has a data object type.
pub fn has_dotype(info: &SclInfo) -> (r: bool)
    ensures
        r == info@.has_dotype(),
{
    info.dotype_vec.len() > 0
}

/// The last data object type.
pub fn dotype_ref(info: &SclInfo) -> (r: &SclDotype)
    requires
        info@.has_dotype(),
    ensures
        r@ == info@.dotype(),
{
    let n = info.dotype_vec.len();
    &info.dotype_vec[n - 1]
}

/// The last data object type, to be changed in place.
pub fn dotype_mut(info: &mut SclInfo) -> (r: &mut SclDotype)
    requires
        old(info)@.has_dotype(),
    ensures
        r@ == old(info)@.dotype(),
        final(info)@ == old(info)@.with_dotype(final(r)@),
{
    let n = info.dotype_vec.len();
    let r = &mut info.dotype_vec[n - 1];
    proof {
        assert(after_borrow(info)@ =~~= old(info)@.with_dotype(final(r)@));
    }
    r
}

/// Puts one more data object type at the end of the tree.
pub fn add_dotype(info: &mut SclInfo, dotype: SclDotype)
    ensures
        final(info)@ == old(info)@.add_dotype(dotype@),
{
    info.dotype_vec.push(dotype);
    assert(info@ =~~= old(info)@.add_dotype(dotype@));
}

/// Whether the last data object type has a data object type entry.
pub fn has_da(info: &SclInfo) -> (r: bool)
    ensures
        r == info@.has_da(),
{
    has_dotype(info) && dotype_ref(info).da_vec.len() > 0
}

/// The last data object type entry of the last data object type.
pub fn da_ref(info: &SclInfo) -> (r: &SclDa)
    requires
        info@.has_da(),
    ensures
        r@ == info@.da(),
{
    let p = dotype_ref(info);
    let n = p.da_vec.len();
    &p.da_vec[n - 1]
}

/// The last data object type entry of the last data object type, to be changed in place.
pub fn da_mut(info: &mut SclInfo) -> (r: &mut SclDa)
    requires
        old(info)@.has_da(),
    ensures
        r@ == old(info)@.da(),
        final(info)@ == old(info)@.with_da(final(r)@),
{
    let p = dotype_mut(info);
    let n = p.da_vec.len();
    let r = &mut p.da_vec[n - 1];
    proof {
        assert(after_borrow(p)@ =~~= (SclDotypeView {
            da_vec: set_last(old(info)@.dotype().da_vec, final(r)@),
            ..old(info)@.dotype()
        }));
    }
    r
}

/// Puts one more data object type entry at the end of the last data object type.
pub fn add_da(info: &mut SclInfo, da: SclDa)
    requires
        old(info)@.has_dotype(),
    ensures
        final(info)@ == old(info)@.add_da(da@),
{
    let p = dotype_mut(info);
    p.da_vec.push(da);
    assert(p@ =~~= (SclDotypeView {
        da_vec: old(info)@.dotype().da_vec.push(da@),
        ..old(info)@.dotype()
    }));
}

/// Whether the tree has a data attribute type.
pub fn has_datype(info: &SclInfo) -> (r: bool)
    ensures
        r == info@.has_datype(),
{
    info.datype_vec.len() > 0
}

/// The last data attribute type.
pub fn datype_ref(info: &SclInfo) -> (r: &SclDatype)
    requires
        info@.has_datype(),
    ensures
        r@ == info@.datype(),
{
    let n = info.datype_vec.len();
    &info.datype_vec[n - 1]
}

/// The last data attribute type, to be changed in place.
pub fn datype_mut(info: &mut SclInfo) -> (r: &mut SclDatype)
    requires
        old(info)@.has_datype(),
    ensures
        r@ == old(info)@.datype(),
        final(info)@ == old(info)@.with_datype(final(r)@),
{
    let n = info.datype_vec.len();
    let r = &mut info.datype_vec[n - 1];
    proof {
        assert(after_borrow(info)@ =~~= old(info)@.with_datype(final(r)@));
    }
    r
}

/// Puts one more data attribute type at the end of the tree.
pub fn add_datype(info: &mut SclInfo, datype: SclDatype)
    ensures
        final(info)@ == old(info)@.add_datype(datype@),
{
    info.datype_vec.push(datype);
    assert(info@ =~~= old(info)@.add_datype(datype@));
}

/// Whether the last data attribute type has a basic data attribute.
pub fn has_bda(info: &SclInfo) -> (r: bool)
    ensures
        r == info@.has_bda(),
{
    has_datype(info) && datype_ref(info).bda_vec.len() > 0
}

/// The last basic data attribute of the last data attribute type.
pub fn bda_ref(info: &SclInfo) -> (r: &SclBda)
    requires
        info@.has_bda(),
    ensures
        r@ == info@.bda(),
{
    let p = datype_ref(info);
    let n = p.bda_vec.len();
    &p.bda_vec[n - 1]
}

/// The last basic data attribute of the last data attribute type, to be changed in place.
pub fn bda_mut(info: &mut SclInfo) -> (r: &mut SclBda)
    requires
        old(info)@.has_bda(),
    ensures
        r@ == old(info)@.bda(),
        final(info)@ == old(info)@.with_bda(final(r)@),
{
    let p = datype_mut(info);
    let n = p.bda_vec.len();
    let r = &mut p.bda_vec[n - 1];
    proof {
        assert(after_borrow(p)@ =~~= (SclDatypeView {
            bda_vec: set_last(old(info)@.datype().bda_vec, final(r)@),
            ..old(info)@.datype()
        }));
    }
    r
}

/// Puts one more basic data attribute at the end of the last data attribute type.
pub fn add_bda(info: &mut SclInfo, bda: SclBda)
    requires
        old(info)@.has_datype(),
    ensures
        final(info)@ == old(info)@.add_bda(bda@),
{
    let p = datype_mut(info);
    p.bda_vec.push(bda);
    assert(p@ =~~= (SclDatypeView {
        bda_vec: old(info)@.datype().bda_vec.push(bda@),
        ..old(info)@.datype()
    }));
}

/// Whether the tree has an enumeration.
pub fn has_enumtype(info: &SclInfo) -> (r: bool)
    ensures
        r == info@.has_enumtype(),
{
    info.enumtype_vec.len() > 0
}

/// The last enumeration.
pub fn enumtype_ref(info: &SclInfo) -> (r: &SclEnumtype)
    requires
        info@.has_enumtype(),
    ensures
        r@ == info@.enumtype(),
{
    let n = info.enumtype_vec.len();
    &info.enumtype_vec[n - 1]
}

/// The last enumeration, to be changed in place.
pub fn enumtype_mut(info: &mut SclInfo) -> (r: &mut SclEnumtype)
    requires
        old(info)@.has_enumtype(),
    ensures
        r@ == old(info)@.enumtype(),
        final(info)@ == old(info)@.with_enumtype(final(r)@),
{
    let n = info.enumtype_vec.len();
    let r = &mut info.enumtype_vec[n - 1];
    proof {
        assert(after_borrow(info)@ =~~= old(info)@.with_enumtype(final(r)@));
    }
    r
}

/// Puts one more enumeration at the end of the tree.
pub fn add_enumtype(info: &mut SclInfo, enumtype: SclEnumtype)
    ensures
        final(info)@ == old(info)@.add_enumtype(enumtype@),
{
    info.enumtype_vec.push(enumtype);
    assert(info@ =~~= old(info)@.add_enumtype(enumtype@));
}

/// Whether the last enumeration has an enumeration value.
pub fn has_enumval(info: &SclInfo) -> (r: bool)
    ensures
        r == info@.has_enumval(),
{
    has_enumtype(info) && enumtype_ref(info).enumval_vec.len() > 0
}

/// The last enumeration value of the last enumeration.
pub fn enumval_ref(info: &SclInfo) -> (r: &SclEnumval)
    requires
        info@.has_enumval(),
    ensures
        r@ == info@.enumval(),
{
    let p = enumtype_ref(info);
    let n = p.enumval_vec.len();
    &p.enumval_vec[n - 1]
}

/// The last enumeration value of the last enumeration, to be changed in place.
pub fn enumval_mut(info: &mut SclInfo) -> (r: &mut SclEnumval)
    requires
        old(info)@.has_enumval(),
    ensures
        r@ == old(info)@.enumval(),
        final(info)@ == old(info)@.with_enumval(final(r)@),
{
    let p = enumtype_mut(info);
    let n = p.enumval_vec.len();
    let r = &mut p.enumval_vec[n - 1];
    proof {
        assert(after_borrow(p)@ =~~= (SclEnumtypeView {
            enumval_vec: set_last(old(info)@.enumtype().enumval_vec, final(r)@),
            ..old(info)@.enumtype()
        }));
    }
    r
}

/// Puts one more enumeration value at the end of the last enumeration.
pub fn add_enumval(info: &mut SclInfo, enumval: SclEnumval)
    requires
        old(info)@.has_enumtype(),
    ensures
        final(info)@ == old(info)@.add_enumval(enumval@),
{
    let p = enumtype_mut(info);
    p.enumval_vec.push(enumval);
    assert(p@ =~~= (SclEnumtypeView {
        enumval_vec: old(info)@.enumtype().enumval_vec.push(enumval@),
        ..old(info)@.enumtype()
    }));
}

/// Whether the last logical node has a GOOSE control block.
pub fn has_gcb(info: &SclInfo) -> (r: bool)
    ensures
        r == info@.has_gcb(),
{
    has_ln(info) && ln_ref(info).gcb_vec.len() > 0
}

/// The last GOOSE control block of the last logical node.
pub fn gcb_ref(info: &SclInfo) -> (r: &SclGcb)
    requires
        info@.has_gcb(),
    ensures
        r@ == info@.gcb(),
{
    let p = ln_ref(info);
    let n = p.gcb_vec.len();
    &p.gcb_vec[n - 1]
}

/// The last GOOSE control block of the last logical node, to be changed in place.
pub fn gcb_mut(info: &mut SclInfo) -> (r: &mut SclGcb)
    requires
        old(info)@.has_gcb(),
    ensures
        r@ == old(info)@.gcb(),
        final(info)@ == old(info)@.with_gcb(final(r)@),
{
    let p = ln_mut(info);
    let n = p.gcb_vec.len();
    let r = &mut p.gcb_vec[n - 1];
    proof {
        assert(after_borrow(p)@ =~~= (SclLnView {
            gcb_vec: set_last(old(info)@.ln().gcb_vec, final(r)@),
            ..old(info)@.ln()
        }));
    }
    r
}

/// Puts one more GOOSE control block at the end of the last logical node.
pub fn add_gcb(info: &mut SclInfo, gcb: SclGcb)
    requires
        old(info)@.has_ln(),
    ensures
        final(info)@ == old(info)@.add_gcb(gcb@),
{
    let p = ln_mut(info);
    p.gcb_vec.push(gcb);
    assert(p@ =~~= (SclLnView {
        gcb_vec: old(info)@.ln().gcb_vec.push(gcb@),
        ..old(info)@.ln()
    }));
}

/// Whether the last logical node has an external reference.
pub fn has_extref(info: &SclInfo) -> (r: bool)
    ensures
        r == info@.has_extref(),
{
    has_ln(info) && ln_ref(info).extref_vec.len() > 0
}

/// The last external reference of the last logical node.
pub fn extref_ref(info: &SclInfo) -> (r: &SclExtref)
    requires
        info@.has_extref(),
    ensures
        r@ == info@.extref(),
{
    let p = ln_ref(info);
    let n = p.extref_vec.len();
    &p.extref_vec[n - 1]
}

/// The last external reference of the last logical node, to be changed in place.
pub fn extref_mut(info: &mut SclInfo) -> (r: &mut SclExtref)
    requires
        old(info)@.has_extref(),
    ensures
        r@ == old(info)@.extref(),
        final(info)@ == old(info)@.with_extref(final(r)@),
{
    let p = ln_mut(info);
    let n = p.extref_vec.len();
    let r = &mut p.extref_vec[n - 1];
    proof {
        assert(after_borrow(p)@ =~~= (SclLnView {
            extref_vec: set_last(old(info)@.ln().extref_vec, final(r)@),
            ..old(info)@.ln()
        }));
    }
    r
}

/// Puts one more external reference at the end of the last logical node.
pub fn add_extref(info: &mut SclInfo, extref: SclExtref)
    requires
        old(info)@.has_ln(),
    ensures
        final(info)@ == old(info)@.add_extref(extref@),
{
    let p = ln_mut(info);
    p.extref_vec.push(extref);
    assert(p@ =~~= (SclLnView {
        extref_vec: old(info)@.ln().extref_vec.push(extref@),
        ..old(info)@.ln()
    }));
}

/// Whether the last data set has a data set member.
pub fn has_fcda(info: &SclInfo) -> (r: bool)
    ensures
        r == info@.has_fcda(),
{
    has_dataset(info) && dataset_ref(info).fcda_vec.len() > 0
}

/// The last data set member of the last data set.
pub fn fcda_ref(info: &SclInfo) -> (r: &SclFcda)
    requires
        info@.has_fcda(),
    ensures
        r@ == info@.fcda(),
{
    let p = dataset_ref(info);
    let n = p.fcda_vec.len();
    &p.fcda_vec[n - 1]
}

/// The last data set member of the last data set, to be changed in place.
pub fn fcda_mut(info: &mut SclInfo) -> (r: &mut SclFcda)
    requires
        old(info)@.has_fcda(),
    ensures
        r@ == old(info)@.fcda(),
        final(info)@ == old(info)@.with_fcda(final(r)@),
{
    let p = dataset_mut(info);
    let n = p.fcda_vec.len();
    let r = &mut p.fcda_vec[n - 1];
    proof {
        assert(after_borrow(p)@ =~~= (SclDatasetView {
            fcda_vec: set_last(old(info)@.dataset().fcda_vec, final(r)@),
            ..old(info)@.dataset()
        }));
    }
    r
}

/// Puts one more data set member at the end of the last data set.
pub fn add_fcda(info: &mut SclInfo, fcda: SclFcda)
    requires
        old(info)@.has_dataset(),
    ensures
        final(info)@ == old(info)@.add_fcda(fcda@),
{
    let p = dataset_mut(info);
    p.fcda_vec.push(fcda);
    assert(p@ =~~= (SclDatasetView {
        fcda_vec: old(info)@.dataset().fcda_vec.push(fcda@),
        ..old(info)@.dataset()
    }));
}

/// Whether the last logical node type has a data object.
pub fn has_dobj(info: &SclInfo) -> (r: bool)
    ensures
        r == info@.has_dobj(),
{
    has_lntype(info) && lntype_ref(info).do_vec.len() > 0
}

/// The last data object of the last logical node type.
pub fn dobj_ref(info: &SclInfo) -> (r: &SclDo)
    requires
        info@.has_dobj(),
    ensures
        r@ == info@.dobj(),
{
    let p = lntype_ref(info);
    let n = p.do_vec.len();
    &p.do_vec[n - 1]
}

/// The last data object of the last logical node type, to be changed in place.
pub fn dobj_mut(info: &mut SclInfo) -> (r: &mut SclDo)
    requires
        old(info)@.has_dobj(),
    ensures
        r@ == old(info)@.dobj(),
        final(info)@ == old(info)@.with_dobj(final(r)@),
{
    let p = lntype_mut(info);
    let n = p.do_vec.len();
    let r = &mut p.do_vec[n - 1];
    proof {
        assert(after_borrow(p)@ =~~= (SclLntypeView {
            do_vec: set_last(old(info)@.lntype().do_vec, final(r)@),
            ..old(info)@.lntype()
        }));
    }
    r
}

/// Puts one more data object at the end of the last logical node type.
pub fn add_dobj(info: &mut SclInfo, dobj: SclDo)
    requires
        old(info)@.has_lntype(),
    ensures
        final(info)@ == old(info)@.add_dobj(dobj@),
{
    let p = lntype_mut(info);
    p.do_vec.push(dobj);
    assert(p@ =~~= (SclLntypeView {
        do_vec: old(info)@.lntype().do_vec.push(dobj@),
        ..old(info)@.lntype()
    }));
}

/// Whether the last attribute value has a setting group value.
pub fn has_dai_sgval(info: &SclInfo) -> (r: bool)
    ensures
        r == info@.has_dai_sgval(),
{
    has_dai(info) && dai_ref(info).sgval_vec.len() > 0
}

/// The last setting group value of the last attribute value.
pub fn dai_sgval_ref(info: &SclInfo) -> (r: &SclSgVal)
    requires
        info@.has_dai_sgval(),
    ensures
        r@ == info@.dai_sgval(),
{
    let p = dai_ref(info);
    let n = p.sgval_vec.len();
    &p.sgval_vec[n - 1]
}

/// The last setting group value of the last attribute value, to be changed in place.
pub fn dai_sgval_mut(info: &mut SclInfo) -> (r: &mut SclSgVal)
    requires
        old(info)@.has_dai_sgval(),
    ensures
        r@ == old(info)@.dai_sgval(),
        final(info)@ == old(info)@.with_dai_sgval(final(r)@),
{
    let p = dai_mut(info);
    let n = p.sgval_vec.len();
    let r = &mut p.sgval_vec[n - 1];
    proof {
        assert(after_borrow(p)@ =~~= (SclDaiView {
            sgval_vec: set_last(old(info)@.dai().sgval_vec, final(r)@),
            ..old(info)@.dai()
        }));
    }
    r
}

/// Puts one more setting group value at the end of the last attribute value.
pub fn add_dai_sgval(info: &mut SclInfo, dai_sgval: SclSgVal)
    requires
        old(info)@.has_dai(),
    ensures
        final(info)@ == old(info)@.add_dai_sgval(dai_sgval@),
{
    let p = dai_mut(info);
    p.sgval_vec.push(dai_sgval);
    assert(p@ =~~= (SclDaiView {
        sgval_vec: old(info)@.dai().sgval_vec.push(dai_sgval@),
        ..old(info)@.dai()
    }));
}

/// Whether the last data object type entry has a setting group value.
pub fn has_da_sgval(info: &SclInfo) -> (r: bool)
    ensures
        r == info@.has_da_sgval(),
{
    has_da(info) && da_ref(info).sgval_vec.len() > 0
}

/// The last setting group value of the last data object type entry.
pub fn da_sgval_ref(info: &SclInfo) -> (r: &SclSgVal)
    requires
        info@.has_da_sgval(),
    ensures
        r@ == info@.da_sgval(),
{
    let p = da_ref(info);
    let n = p.sgval_vec.len();
    &p.sgval_vec[n - 1]
}

/// The last setting group value of the last data object type entry, to be changed in place.
pub fn da_sgval_mut(info: &mut SclInfo) -> (r: &mut SclSgVal)
    requires
        old(info)@.has_da_sgval(),
    ensures
        r@ == old(info)@.da_sgval(),
        final(info)@ == old(info)@.with_da_sgval(final(r)@),
{
    let p = da_mut(info);
    let n = p.sgval_vec.len();
    let r = &mut p.sgval_vec[n - 1];
    proof {
        assert(after_borrow(p)@ =~~= (SclDaView {
            sgval_vec: set_last(old(info)@.da().sgval_vec, final(r)@),
            ..old(info)@.da()
        }));
    }
    r
}

/// Puts one more setting group value at the end of the last data object type entry.
pub fn add_da_sgval(info: &mut SclInfo, da_sgval: SclSgVal)
    requires
        old(info)@.has_da(),
    ensures
        final(info)@ == old(info)@.add_da_sgval(da_sgval@),
{
    let p = da_mut(info);
    p.sgval_vec.push(da_sgval);
    assert(p@ =~~= (SclDaView {
        sgval_vec: old(info)@.da().sgval_vec.push(da_sgval@),
        ..old(info)@.da()
    }));
}

/// Whether the last basic data attribute has a setting group value.
pub fn has_bda_sgval(info: &SclInfo) -> (r: bool)
    ensures
        r == info@.has_bda_sgval(),
{
    has_bda(info) && bda_ref(info).sgval_vec.len() > 0
}

/// The last setting group value of the last basic data attribute.
pub fn bda_sgval_ref(info: &SclInfo) -> (r: &SclSgVal)
    requires
        info@.has_bda_sgval(),
    ensures
        r@ == info@.bda_sgval(),
{
    let p = bda_ref(info);
    let n = p.sgval_vec.len();
    &p.sgval_vec[n - 1]
}

/// The last setting group value of the last basic data attribute, to be changed in place.
pub fn bda_sgval_mut(info: &mut SclInfo) -> (r: &mut SclSgVal)
    requires
        old(info)@.has_bda_sgval(),
    ensures
        r@ == old(info)@.bda_sgval(),
        final(info)@ == old(info)@.with_bda_sgval(final(r)@),
{
    let p = bda_mut(info);
    let n = p.sgval_vec.len();
    let r = &mut p.sgval_vec[n - 1];
    proof {
        assert(after_borrow(p)@ =~~= (SclBdaView {
            sgval_vec: set_last(old(info)@.bda().sgval_vec, final(r)@),
            ..old(info)@.bda()
        }));
    }
    r
}

/// Puts one more setting group value at the end of the last basic data attribute.
pub fn add_bda_sgval(info: &mut SclInfo, bda_sgval: SclSgVal)
    requires
        old(info)@.has_bda(),
    ensures
        final(info)@ == old(info)@.add_bda_sgval(bda_sgval@),
{
    let p = bda_mut(info);
    p.sgval_vec.push(bda_sgval);
    assert(p@ =~~= (SclBdaView {
        sgval_vec: old(info)@.bda().sgval_vec.push(bda_sgval@),
        ..old(info)@.bda()
    }));
}

} // verus!
