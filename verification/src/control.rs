//! The handlers of data sets and control blocks, and of the option
//! elements below them.

use crate::bitstring::{bstr_bit_set_on, with_bit_on};
use crate::consts::{
    MAX_IDENT_LEN, OPTFLD_BITNUM_BUFOVFL, OPTFLD_BITNUM_CONFREV, OPTFLD_BITNUM_DATAREF,
    OPTFLD_BITNUM_DATSETNAME, OPTFLD_BITNUM_ENTRYID, OPTFLD_BITNUM_REASON, OPTFLD_BITNUM_SQNUM,
    OPTFLD_BITNUM_TIMESTAMP, SX_ELEMENT_START, TRGOPS_BITNUM_DATA_CHANGE, TRGOPS_BITNUM_DATA_UPDATE,
    TRGOPS_BITNUM_GENERAL_INTERROGATION, TRGOPS_BITNUM_INTEGRITY, TRGOPS_BITNUM_QUALITY_CHANGE,
};
use crate::context::{IcdParseContext2, IcdParseContext2View, Refusal, SclDecCtrlView};
use crate::cursor::{
    add_dataset, add_extref, add_fcda, add_gcb, add_lcb, add_rcb, has_dataset, has_lcb, has_ln,
    has_rcb, lcb_mut, ln_mut, rcb_mut, server_ref,
};
use crate::lnode::{is_name_legal, name_legal};
use crate::model::{
    RcbSubDataView, SclDataset, SclDatasetView, SclExtref, SclExtrefView, SclFcda, SclFcdaView,
    SclGcb, SclGcbView, SclLcb, SclLcbView, SclLnView, SclRcb, SclRcbView, SclSgcb, SclSgcbView,
};
use crate::text::{
    attr_is, attr_spells, byte_len, number_or, number_or_else, or_empty, parse_u32, read_number_or,
    read_number_or_else, str_byte_len, str_parse_u32, str_trim, text_or_empty, trim_or_empty,
    trim_ws, trimmed, trimmed_or_empty,
};
use crate::validate::{chk_mms_ident_legal, mms_ident_legal};
use vstd::prelude::*;
use vstd::string::StringExecFns;

verus! {

/// `buf` with bit `bitnum` set if `cond` holds.
pub open spec fn bit_on_if(buf: Seq<u8>, cond: bool, bitnum: int) -> Seq<u8> {
    if cond {
        with_bit_on(buf, bitnum)
    } else {
        buf
    }
}

/// Sets bit `bitnum` of `buf` if `cond` holds.
pub fn set_bit_if(buf: &mut [u8], cond: bool, bitnum: usize)
    ensures
        final(buf)@ == bit_on_if(old(buf)@, cond, bitnum as int),
{
    if cond {
        bstr_bit_set_on(buf, bitnum);
    }
}

/// The data set that the attributes of a `DataSet` element describe; its
/// name must be a legal identifier.
pub open spec fn dataset_of(st: IcdParseContext2View) -> Result<SclDatasetView, Refusal> {
    match st.attr("name"@) {
        None => Err(Refusal::Missing),
        Some(name) => if mms_ident_legal(trim_ws(name)) {
            Ok(
                SclDatasetView {
                    name: trim_ws(name),
                    desc: text_or_empty(st.attr("desc"@)),
                    fcda_vec: seq![],
                },
            )
        } else {
            Err(Refusal::Refused)
        },
    }
}

/// Reads the attributes of a `DataSet` element.
pub fn dataset_read(ctx: &IcdParseContext2) -> (r: Result<SclDataset, Refusal>)
    ensures
        match r {
            Ok(x) => dataset_of(ctx@) == Ok::<SclDatasetView, Refusal>(x@),
            Err(e) => dataset_of(ctx@) == Err::<SclDatasetView, Refusal>(e),
        },
{
    let desc = or_empty(ctx.opt_attr("desc"));
    match ctx.opt_attr("name") {
        Some(txt) => {
            let name = trimmed(txt.as_str());
            if chk_mms_ident_legal(name.as_str()) {
                let ds = SclDataset { name, desc, fcda_vec: Vec::new() };
                assert(ds@.fcda_vec =~= seq![]);
                Ok(ds)
            } else {
                Err(Refusal::Refused)
            }
        },
        None => Err(Refusal::Missing),
    }
}

/// `DataSet`: a data set is added to the last logical node when the
/// element opens.
pub open spec fn dataset_model(st: IcdParseContext2View) -> IcdParseContext2View {
    if st.reason == SX_ELEMENT_START {
        match dataset_of(st) {
            Ok(ds) => if st.info().has_ln() {
                st.with_info(st.info().add_dataset(ds)).pushed(seq![41usize])
            } else {
                st.user_error()
            },
            Err(e) => st.refused(e),
        }
    } else {
        st.popped()
    }
}

/// Handles `DataSet`.
pub fn dataset_sefun(ctx: &mut IcdParseContext2)
    ensures
        final(ctx)@ == dataset_model(old(ctx)@),
{
    if ctx.reason == SX_ELEMENT_START {
        match dataset_read(ctx) {
            Ok(ds) => {
                if has_ln(&ctx.scl_dec_ctrl.sclinfo) {
                    add_dataset(&mut ctx.scl_dec_ctrl.sclinfo, ds);
                    ctx.sx_push(vec![41]);
                    assert(ctx@ =~~= dataset_model(old(ctx)@));
                } else {
                    ctx.set_user_error();
                }
            },
            Err(e) => {
                ctx.refuse(e);
            },
        }
    } else {
        ctx.sx_pop();
    }
}

/// The member that the attributes of an `FCDA` element describe. Its
/// domain name is the name of the device followed by `ldInst`, which may
/// not be longer together than an identifier.
pub open spec fn fcda_of(st: IcdParseContext2View) -> Result<SclFcdaView, Refusal> {
    let ldinst = trimmed_or_empty(st.attr("ldInst"@));
    match st.attr("fc"@) {
        None => Err(Refusal::Missing),
        Some(fc) => if byte_len(st.info().server().iedname) + byte_len(ldinst) <= MAX_IDENT_LEN {
            Ok(
                SclFcdaView {
                    domname: st.info().server().iedname + ldinst,
                    ldinst,
                    prefix: trimmed_or_empty(st.attr("prefix"@)),
                    lninst: trimmed_or_empty(st.attr("lnInst"@)),
                    lnclass: trimmed_or_empty(st.attr("lnClass"@)),
                    doname: trimmed_or_empty(st.attr("doName"@)),
                    daname: trimmed_or_empty(st.attr("daName"@)),
                    fc: trim_ws(fc),
                    ix: trimmed_or_empty(st.attr("ix"@)),
                },
            )
        } else {
            Err(Refusal::Refused)
        },
    }
}

/// Reads the attributes of an `FCDA` element.
pub fn fcda_read(ctx: &IcdParseContext2) -> (r: Result<SclFcda, Refusal>)
    requires
        ctx@.info().has_server(),
    ensures
        match r {
            Ok(x) => fcda_of(ctx@) == Ok::<SclFcdaView, Refusal>(x@),
            Err(e) => fcda_of(ctx@) == Err::<SclFcdaView, Refusal>(e),
        },
{
    let ldinst = trim_or_empty(&ctx.opt_attr("ldInst"));
    let prefix = trim_or_empty(&ctx.opt_attr("prefix"));
    let lninst = trim_or_empty(&ctx.opt_attr("lnInst"));
    let lnclass = trim_or_empty(&ctx.opt_attr("lnClass"));
    let doname = trim_or_empty(&ctx.opt_attr("doName"));
    let daname = trim_or_empty(&ctx.opt_attr("daName"));
    let ix = trim_or_empty(&ctx.opt_attr("ix"));
    let fc = match ctx.opt_attr("fc") {
        Some(txt) => trimmed(txt.as_str()),
        None => {
            return Err(Refusal::Missing);
        },
    };
    let server = server_ref(&ctx.scl_dec_ctrl.sclinfo);
    let iedname_len = str_byte_len(server.iedname.as_str());
    let ldinst_len = str_byte_len(ldinst.as_str());
    if iedname_len <= MAX_IDENT_LEN && ldinst_len <= MAX_IDENT_LEN - iedname_len {
        let mut domname = server.iedname.clone();
        domname.append(ldinst.as_str());
        Ok(SclFcda { domname, ldinst, prefix, lninst, lnclass, doname, daname, fc, ix })
    } else {
        Err(Refusal::Refused)
    }
}

/// `FCDA`: a member is added to the last data set.
pub open spec fn fcda_model(st: IcdParseContext2View) -> IcdParseContext2View {
    if !st.info().has_dataset() {
        st.user_error()
    } else {
        match fcda_of(st) {
            Ok(fcda) => st.with_info(st.info().add_fcda(fcda)),
            Err(e) => st.refused(e),
        }
    }
}

/// Handles `FCDA`.
pub fn fcda_sfun(ctx: &mut IcdParseContext2)
    ensures
        final(ctx)@ == fcda_model(old(ctx)@),
{
    if !has_dataset(&ctx.scl_dec_ctrl.sclinfo) {
        ctx.set_user_error();
        return ;
    }
    match fcda_read(ctx) {
        Ok(fcda) => {
            add_fcda(&mut ctx.scl_dec_ctrl.sclinfo, fcda);
            assert(ctx@ =~~= fcda_model(old(ctx)@));
        },
        Err(e) => {
            ctx.refuse(e);
        },
    }
}

/// The report control block that the attributes of a `ReportControl`
/// element describe. Its numbers must be numbers, its name a legal
/// component name, and it may not ask for `indexed="false"`.
pub open spec fn rcb_of(st: IcdParseContext2View) -> Result<SclRcbView, Refusal> {
    match number_or(st.attr("intgPd"@), 0) {
        None => Err(Refusal::Refused),
        Some(intgpd) => match number_or(st.attr("bufTime"@), 0) {
            None => Err(Refusal::Refused),
            Some(buftime) => if attr_is(st.attr("indexed"@), "false"@) {
                Err(Refusal::Refused)
            } else {
                match st.attr("name"@) {
                    None => Err(Refusal::Missing),
                    Some(name) => if !name_legal(trim_ws(name)) {
                        Err(Refusal::Refused)
                    } else {
                        match st.attr("confRev"@) {
                            None => Err(Refusal::Missing),
                            Some(confrev) => match parse_u32(trim_ws(confrev)) {
                                None => Err(Refusal::Refused),
                                Some(rev) => Ok(
                                    SclRcbView {
                                        name: trim_ws(name),
                                        desc: text_or_empty(st.attr("desc"@)),
                                        datset: trimmed_or_empty(st.attr("datSet"@)),
                                        intgpd,
                                        rptid: trimmed_or_empty(st.attr("rptID"@)),
                                        confrev: rev,
                                        buffered: attr_is(st.attr("buffered"@), "true"@),
                                        buftime,
                                        trgops: seq![0u8],
                                        optflds: seq![0u8, 0u8],
                                        maxclient: 0,
                                    },
                                ),
                            },
                        }
                    },
                }
            },
        },
    }
}

/// Reads the attributes of a `ReportControl` element.
pub fn rcb_read(ctx: &IcdParseContext2) -> (r: Result<SclRcb, Refusal>)
    ensures
        match r {
            Ok(x) => rcb_of(ctx@) == Ok::<SclRcbView, Refusal>(x@),
            Err(e) => rcb_of(ctx@) == Err::<SclRcbView, Refusal>(e),
        },
{
    let desc = or_empty(ctx.opt_attr("desc"));
    let datset = trim_or_empty(&ctx.opt_attr("datSet"));
    let intgpd = match read_number_or(&ctx.opt_attr("intgPd"), 0) {
        Some(v) => v,
        None => {
            return Err(Refusal::Refused);
        },
    };
    let buftime = match read_number_or(&ctx.opt_attr("bufTime"), 0) {
        Some(v) => v,
        None => {
            return Err(Refusal::Refused);
        },
    };
    let buffered = attr_spells(&ctx.opt_attr("buffered"), "true");
    if attr_spells(&ctx.opt_attr("indexed"), "false") {
        return Err(Refusal::Refused);
    }
    let rptid = trim_or_empty(&ctx.opt_attr("rptID"));
    let name = match ctx.opt_attr("name") {
        Some(txt) => trimmed(txt.as_str()),
        None => {
            return Err(Refusal::Missing);
        },
    };
    if !is_name_legal(name.as_str()) {
        return Err(Refusal::Refused);
    }
    let confrev = match ctx.opt_attr("confRev") {
        Some(txt) => match str_parse_u32(str_trim(txt.as_str())) {
            Some(v) => v,
            None => {
                return Err(Refusal::Refused);
            },
        },
        None => {
            return Err(Refusal::Missing);
        },
    };
    let rcb = SclRcb {
        name,
        desc,
        datset,
        intgpd,
        rptid,
        confrev,
        buffered,
        buftime,
        trgops: [0u8; 1],
        optflds: [0u8; 2],
        maxclient: 0,
    };
    assert(rcb@.trgops =~= seq![0u8]);
    assert(rcb@.optflds =~= seq![0u8, 0u8]);
    Ok(rcb)
}

/// `ReportControl` opens: a report control block is added to the last
/// logical node.
pub open spec fn reportcontrol_start(st: IcdParseContext2View) -> IcdParseContext2View {
    match rcb_of(st) {
        Ok(rcb) => if st.info().has_ln() {
            st.with_info(st.info().add_rcb(rcb)).pushed(seq![42usize, 43, 44])
        } else {
            st.user_error()
        },
        Err(e) => st.refused(e),
    }
}

/// How many clients may enable a report control block: what `RptEnabled`
/// has left, or one where it has left nothing.
pub open spec fn rcb_maxclient(max: u32) -> u32 {
    if max == 0 {
        1
    } else {
        max
    }
}

/// `ReportControl` closes: the last report control block takes the
/// trigger options, the option fields and the client limit that its
/// children have left.
pub open spec fn reportcontrol_end(st: IcdParseContext2View) -> IcdParseContext2View {
    if st.info().has_rcb() {
        st.with_info(
            st.info().with_rcb(
                SclRcbView {
                    trgops: st.scl_dec_ctrl.trgops,
                    optflds: st.scl_dec_ctrl.rcb_sub_data.rcb_optflds,
                    maxclient: rcb_maxclient(st.scl_dec_ctrl.rcb_sub_data.max),
                    ..st.info().rcb()
                },
            ),
        ).popped()
    } else {
        st.user_error()
    }
}

/// `ReportControl`.
pub open spec fn reportcontrol_model(st: IcdParseContext2View) -> IcdParseContext2View {
    if st.reason == SX_ELEMENT_START {
        reportcontrol_start(st)
    } else {
        reportcontrol_end(st)
    }
}

/// Handles `ReportControl`.
pub fn reportcontrol_sefun(ctx: &mut IcdParseContext2)
    ensures
        final(ctx)@ == reportcontrol_model(old(ctx)@),
{
    if ctx.reason == SX_ELEMENT_START {
        match rcb_read(ctx) {
            Ok(rcb) => {
                if has_ln(&ctx.scl_dec_ctrl.sclinfo) {
                    add_rcb(&mut ctx.scl_dec_ctrl.sclinfo, rcb);
                    ctx.sx_push(vec![42, 43, 44]);
                    assert(ctx@ =~~= reportcontrol_model(old(ctx)@));
                } else {
                    ctx.set_user_error();
                }
            },
            Err(e) => {
                ctx.refuse(e);
            },
        }
    } else {
        if !has_rcb(&ctx.scl_dec_ctrl.sclinfo) {
            ctx.set_user_error();
            return ;
        }
        let trgops = ctx.scl_dec_ctrl.trgops;
        let optflds = ctx.scl_dec_ctrl.rcb_sub_data.rcb_optflds;
        let max = ctx.scl_dec_ctrl.rcb_sub_data.max;
        let rcb = rcb_mut(&mut ctx.scl_dec_ctrl.sclinfo);
        rcb.trgops = trgops;
        rcb.optflds = optflds;
        rcb.maxclient = max;
        if rcb.maxclient == 0 {
            rcb.maxclient = 1;
        }
        ctx.sx_pop();
        assert(ctx@ =~~= reportcontrol_model(old(ctx)@));
    }
}

/// The trigger options that the attributes of a `TrgOps` element ask for:
/// one bit for each attribute that says `true`. General interrogation is
/// also on where its attribute is absent.
pub open spec fn trgops_of(st: IcdParseContext2View) -> Seq<u8> {
    let b0 = seq![0u8];
    let b1 = bit_on_if(b0, attr_is(st.attr("dchg"@), "true"@), TRGOPS_BITNUM_DATA_CHANGE as int);
    let b2 = bit_on_if(
        b1,
        attr_is(st.attr("qchg"@), "true"@),
        TRGOPS_BITNUM_QUALITY_CHANGE as int,
    );
    let b3 = bit_on_if(b2, attr_is(st.attr("dupd"@), "true"@), TRGOPS_BITNUM_DATA_UPDATE as int);
    let b4 = bit_on_if(b3, attr_is(st.attr("period"@), "true"@), TRGOPS_BITNUM_INTEGRITY as int);
    bit_on_if(
        b4,
        st.attr("gi"@) is None || attr_is(st.attr("gi"@), "true"@),
        TRGOPS_BITNUM_GENERAL_INTERROGATION as int,
    )
}

/// `TrgOps`: the trigger options are kept for the control block that is open.
pub open spec fn trgops_model(st: IcdParseContext2View) -> IcdParseContext2View {
    st.with_dec(SclDecCtrlView { trgops: trgops_of(st), ..st.scl_dec_ctrl })
}

/// Reads the trigger options that a `TrgOps` element asks for.
pub fn trgops_read(ctx: &IcdParseContext2) -> (r: [u8; 1])
    ensures
        r@ == trgops_of(ctx@),
{
    let mut trgops: [u8; 1] = [0u8; 1];
    assert(trgops@ =~= seq![0u8]);
    set_bit_if(&mut trgops, attr_spells(&ctx.opt_attr("dchg"), "true"), TRGOPS_BITNUM_DATA_CHANGE);
    set_bit_if(
        &mut trgops,
        attr_spells(&ctx.opt_attr("qchg"), "true"),
        TRGOPS_BITNUM_QUALITY_CHANGE,
    );
    set_bit_if(&mut trgops, attr_spells(&ctx.opt_attr("dupd"), "true"), TRGOPS_BITNUM_DATA_UPDATE);
    set_bit_if(&mut trgops, attr_spells(&ctx.opt_attr("period"), "true"), TRGOPS_BITNUM_INTEGRITY);
    let gi = ctx.opt_attr("gi");
    let gi_on = gi.is_none() || attr_spells(&gi, "true");
    set_bit_if(&mut trgops, gi_on, TRGOPS_BITNUM_GENERAL_INTERROGATION);
    trgops
}

/// Handles `TrgOps`.
pub fn trgops_sfun(ctx: &mut IcdParseContext2)
    ensures
        final(ctx)@ == trgops_model(old(ctx)@),
{
    let trgops = trgops_read(ctx);
    ctx.scl_dec_ctrl.trgops = trgops;
}

/// The option fields that the attributes of an `OptFields` element ask
/// for: one bit for each attribute that says `true`.
pub open spec fn optflds_of(st: IcdParseContext2View) -> Seq<u8> {
    let b0 = seq![0u8, 0u8];
    let b1 = bit_on_if(b0, attr_is(st.attr("seqNum"@), "true"@), OPTFLD_BITNUM_SQNUM as int);
    let b2 = bit_on_if(b1, attr_is(st.attr("timeStamp"@), "true"@), OPTFLD_BITNUM_TIMESTAMP as int);
    let b3 = bit_on_if(b2, attr_is(st.attr("dataSet"@), "true"@), OPTFLD_BITNUM_DATSETNAME as int);
    let b4 = bit_on_if(b3, attr_is(st.attr("reasonCode"@), "true"@), OPTFLD_BITNUM_REASON as int);
    let b5 = bit_on_if(b4, attr_is(st.attr("dataRef"@), "true"@), OPTFLD_BITNUM_DATAREF as int);
    let b6 = bit_on_if(b5, attr_is(st.attr("bufOvfl"@), "true"@), OPTFLD_BITNUM_BUFOVFL as int);
    let b7 = bit_on_if(b6, attr_is(st.attr("entryID"@), "true"@), OPTFLD_BITNUM_ENTRYID as int);
    bit_on_if(b7, attr_is(st.attr("configRef"@), "true"@), OPTFLD_BITNUM_CONFREV as int)
}

/// `OptFields`: the option fields are kept for the report control block
/// that is open.
pub open spec fn optflds_model(st: IcdParseContext2View) -> IcdParseContext2View {
    st.with_dec(
        SclDecCtrlView {
            rcb_sub_data: RcbSubDataView {
                rcb_optflds: optflds_of(st),
                ..st.scl_dec_ctrl.rcb_sub_data
            },
            ..st.scl_dec_ctrl
        },
    )
}

/// Reads the option fields that an `OptFields` element asks for.
pub fn optflds_read(ctx: &IcdParseContext2) -> (r: [u8; 2])
    ensures
        r@ == optflds_of(ctx@),
{
    let mut optflds: [u8; 2] = [0u8; 2];
    assert(optflds@ =~= seq![0u8, 0u8]);
    set_bit_if(&mut optflds, attr_spells(&ctx.opt_attr("seqNum"), "true"), OPTFLD_BITNUM_SQNUM);
    set_bit_if(
        &mut optflds,
        attr_spells(&ctx.opt_attr("timeStamp"), "true"),
        OPTFLD_BITNUM_TIMESTAMP,
    );
    set_bit_if(
        &mut optflds,
        attr_spells(&ctx.opt_attr("dataSet"), "true"),
        OPTFLD_BITNUM_DATSETNAME,
    );
    set_bit_if(
        &mut optflds,
        attr_spells(&ctx.opt_attr("reasonCode"), "true"),
        OPTFLD_BITNUM_REASON,
    );
    set_bit_if(&mut optflds, attr_spells(&ctx.opt_attr("dataRef"), "true"), OPTFLD_BITNUM_DATAREF);
    set_bit_if(&mut optflds, attr_spells(&ctx.opt_attr("bufOvfl"), "true"), OPTFLD_BITNUM_BUFOVFL);
    set_bit_if(&mut optflds, attr_spells(&ctx.opt_attr("entryID"), "true"), OPTFLD_BITNUM_ENTRYID);
    set_bit_if(
        &mut optflds,
        attr_spells(&ctx.opt_attr("configRef"), "true"),
        OPTFLD_BITNUM_CONFREV,
    );
    optflds
}

/// Handles `OptFields`.
pub fn optflds_sfun(ctx: &mut IcdParseContext2)
    ensures
        final(ctx)@ == optflds_model(old(ctx)@),
{
    let optflds = optflds_read(ctx);
    ctx.scl_dec_ctrl.rcb_sub_data.rcb_optflds = optflds;
}

/// The client limit that a `RptEnabled` element gives: its `max`, which
/// must be a number from 1 to 99, or one where it gives none.
pub open spec fn rptenabled_max(max: Option<Seq<char>>) -> Option<u32> {
    match max {
        None => Some(1u32),
        Some(txt) => match parse_u32(txt) {
            Some(num) => if num == 0 || num > 99 {
                None
            } else {
                Some(num)
            },
            None => None,
        },
    }
}

/// `RptEnabled`: the client limit is kept for the report control block
/// that is open.
pub open spec fn rptenabled_model(st: IcdParseContext2View) -> IcdParseContext2View {
    match rptenabled_max(st.attr("max"@)) {
        Some(max) => st.with_dec(
            SclDecCtrlView {
                rcb_sub_data: RcbSubDataView { max, ..st.scl_dec_ctrl.rcb_sub_data },
                ..st.scl_dec_ctrl
            },
        ),
        None => st.user_error(),
    }
}

/// Handles `RptEnabled`.
pub fn rptenabled_sfun(ctx: &mut IcdParseContext2)
    ensures
        final(ctx)@ == rptenabled_model(old(ctx)@),
{
    let mut max: u32 = 1;
    match ctx.opt_attr("max") {
        Some(txt) => match str_parse_u32(txt.as_str()) {
            Some(num) => {
                if num == 0 || num > 99 {
                    ctx.set_user_error();
                    return ;
                }
                max = num;
            },
            None => {
                ctx.set_user_error();
                return ;
            },
        },
        None => {},
    }
    ctx.scl_dec_ctrl.rcb_sub_data.max = max;
}

/// The log control block that the attributes of a `LogControl` element
/// describe.
pub open spec fn lcb_of(st: IcdParseContext2View) -> Result<SclLcbView, Refusal> {
    match number_or(st.attr("intgPd"@), 0) {
        None => Err(Refusal::Refused),
        Some(intgpd) => match st.attr("name"@) {
            None => Err(Refusal::Missing),
            Some(name) => if !name_legal(trim_ws(name)) {
                Err(Refusal::Refused)
            } else {
                match st.attr("logName"@) {
                    None => Err(Refusal::Missing),
                    Some(logname) => Ok(
                        SclLcbView {
                            name: trim_ws(name),
                            desc: text_or_empty(st.attr("desc"@)),
                            datset: trimmed_or_empty(st.attr("datSet"@)),
                            intgpd,
                            logname: trim_ws(logname),
                            logena: attr_is(st.attr("logEna"@), "true"@),
                            reasoncode: attr_is(st.attr("reasonCode"@), "true"@),
                            trgops: seq![0u8],
                        },
                    ),
                }
            },
        },
    }
}

/// Reads the attributes of a `LogControl` element.
pub fn lcb_read(ctx: &IcdParseContext2) -> (r: Result<SclLcb, Refusal>)
    ensures
        match r {
            Ok(x) => lcb_of(ctx@) == Ok::<SclLcbView, Refusal>(x@),
            Err(e) => lcb_of(ctx@) == Err::<SclLcbView, Refusal>(e),
        },
{
    let desc = or_empty(ctx.opt_attr("desc"));
    let intgpd = match read_number_or(&ctx.opt_attr("intgPd"), 0) {
        Some(v) => v,
        None => {
            return Err(Refusal::Refused);
        },
    };
    let datset = trim_or_empty(&ctx.opt_attr("datSet"));
    let logena = attr_spells(&ctx.opt_attr("logEna"), "true");
    let reasoncode = attr_spells(&ctx.opt_attr("reasonCode"), "true");
    let name = match ctx.opt_attr("name") {
        Some(txt) => trimmed(txt.as_str()),
        None => {
            return Err(Refusal::Missing);
        },
    };
    if !is_name_legal(name.as_str()) {
        return Err(Refusal::Refused);
    }
    let logname = match ctx.opt_attr("logName") {
        Some(txt) => trimmed(txt.as_str()),
        None => {
            return Err(Refusal::Missing);
        },
    };
    let lcb = SclLcb { name, desc, datset, intgpd, logname, logena, reasoncode, trgops: [0u8; 1] };
    assert(lcb@.trgops =~= seq![0u8]);
    Ok(lcb)
}

/// `LogControl`: a log control block is added to the last logical node
/// when the element opens; when it closes, the block takes the trigger
/// options that its children have left.
pub open spec fn logcontrol_model(st: IcdParseContext2View) -> IcdParseContext2View {
    if st.reason == SX_ELEMENT_START {
        match lcb_of(st) {
            Ok(lcb) => if st.info().has_ln() {
                st.with_info(st.info().add_lcb(lcb)).pushed(seq![45usize])
            } else {
                st.user_error()
            },
            Err(e) => st.refused(e),
        }
    } else if st.info().has_lcb() {
        st.with_info(
            st.info().with_lcb(SclLcbView { trgops: st.scl_dec_ctrl.trgops, ..st.info().lcb() }),
        ).popped()
    } else {
        st.user_error()
    }
}

/// Handles `LogControl`.
pub fn logcontrol_sefun(ctx: &mut IcdParseContext2)
    ensures
        final(ctx)@ == logcontrol_model(old(ctx)@),
{
    if ctx.reason == SX_ELEMENT_START {
        match lcb_read(ctx) {
            Ok(lcb) => {
                if has_ln(&ctx.scl_dec_ctrl.sclinfo) {
                    add_lcb(&mut ctx.scl_dec_ctrl.sclinfo, lcb);
                    ctx.sx_push(vec![45]);
                    assert(ctx@ =~~= logcontrol_model(old(ctx)@));
                } else {
                    ctx.set_user_error();
                }
            },
            Err(e) => {
                ctx.refuse(e);
            },
        }
    } else {
        if !has_lcb(&ctx.scl_dec_ctrl.sclinfo) {
            ctx.set_user_error();
            return ;
        }
        let trgops = ctx.scl_dec_ctrl.trgops;
        lcb_mut(&mut ctx.scl_dec_ctrl.sclinfo).trgops = trgops;
        ctx.sx_pop();
        assert(ctx@ =~~= logcontrol_model(old(ctx)@));
    }
}

/// The setting group control block that the attributes of a
/// `SettingControl` element describe. The active group is 1 and the number
/// of groups 0 where the attribute spells no number.
pub open spec fn sgcb_of(st: IcdParseContext2View) -> Result<SclSgcbView, Refusal> {
    match st.attr("numOfSGs"@) {
        None => Err(Refusal::Missing),
        Some(n) => Ok(
            SclSgcbView {
                desc: text_or_empty(st.attr("desc"@)),
                numofsgs: number_or_else(Some(n), 0),
                actsg: number_or_else(st.attr("actSG"@), 1),
            },
        ),
    }
}

/// `SettingControl`: the last logical node takes the setting group
/// control block.
pub open spec fn settingcontrol_model(st: IcdParseContext2View) -> IcdParseContext2View {
    match sgcb_of(st) {
        Ok(sgcb) => if st.info().has_ln() {
            st.with_info(st.info().with_ln(SclLnView { sgcb, ..st.info().ln() }))
        } else {
            st.user_error()
        },
        Err(e) => st.refused(e),
    }
}

/// Handles `SettingControl`.
pub fn settingcontrol_sfun(ctx: &mut IcdParseContext2)
    ensures
        final(ctx)@ == settingcontrol_model(old(ctx)@),
{
    let desc = or_empty(ctx.opt_attr("desc"));
    let actsg = read_number_or_else(&ctx.opt_attr("actSG"), 1);
    let n = ctx.opt_attr("numOfSGs");
    if n.is_none() {
        ctx.refuse(Refusal::Missing);
        return ;
    }
    let numofsgs = read_number_or_else(&n, 0);
    if !has_ln(&ctx.scl_dec_ctrl.sclinfo) {
        ctx.set_user_error();
        return ;
    }
    ln_mut(&mut ctx.scl_dec_ctrl.sclinfo).sgcb = Box::new(SclSgcb { desc, numofsgs, actsg });
    assert(ctx@ =~~= settingcontrol_model(old(ctx)@));
}

/// The GOOSE control block that the attributes of a `GSEControl` element
/// describe; it is a GOOSE block unless its `type` says `GSSE`.
pub open spec fn gcb_of(st: IcdParseContext2View) -> Result<SclGcbView, Refusal> {
    match number_or(st.attr("confRev"@), 0) {
        None => Err(Refusal::Refused),
        Some(confrev) => match st.attr("name"@) {
            None => Err(Refusal::Missing),
            Some(name) => if !name_legal(trim_ws(name)) {
                Err(Refusal::Refused)
            } else {
                match st.attr("appID"@) {
                    None => Err(Refusal::Missing),
                    Some(appid) => Ok(
                        SclGcbView {
                            name: trim_ws(name),
                            desc: text_or_empty(st.attr("desc"@)),
                            datset: trimmed_or_empty(st.attr("datSet"@)),
                            confrev,
                            isgoose: !attr_is(st.attr("type"@), "GSSE"@),
                            appid,
                            subscribed: false,
                        },
                    ),
                }
            },
        },
    }
}

/// Reads the attributes of a `GSEControl` element.
pub fn gcb_read(ctx: &IcdParseContext2) -> (r: Result<SclGcb, Refusal>)
    ensures
        match r {
            Ok(x) => gcb_of(ctx@) == Ok::<SclGcbView, Refusal>(x@),
            Err(e) => gcb_of(ctx@) == Err::<SclGcbView, Refusal>(e),
        },
{
    let desc = or_empty(ctx.opt_attr("desc"));
    let confrev = match read_number_or(&ctx.opt_attr("confRev"), 0) {
        Some(v) => v,
        None => {
            return Err(Refusal::Refused);
        },
    };
    let datset = trim_or_empty(&ctx.opt_attr("datSet"));
    let isgoose = !attr_spells(&ctx.opt_attr("type"), "GSSE");
    let name = match ctx.opt_attr("name") {
        Some(txt) => trimmed(txt.as_str()),
        None => {
            return Err(Refusal::Missing);
        },
    };
    if !is_name_legal(name.as_str()) {
        return Err(Refusal::Refused);
    }
    let appid = match ctx.opt_attr("appID") {
        Some(txt) => txt,
        None => {
            return Err(Refusal::Missing);
        },
    };
    Ok(SclGcb { name, desc, datset, confrev, isgoose, appid, subscribed: false })
}

/// `GSEControl`: a GOOSE control block is added to the last logical node.
pub open spec fn gsecontrol_model(st: IcdParseContext2View) -> IcdParseContext2View {
    match gcb_of(st) {
        Ok(gcb) => if st.info().has_ln() {
            st.with_info(st.info().add_gcb(gcb))
        } else {
            st.user_error()
        },
        Err(e) => st.refused(e),
    }
}

/// Handles `GSEControl`.
pub fn gsecontrol_sfun(ctx: &mut IcdParseContext2)
    ensures
        final(ctx)@ == gsecontrol_model(old(ctx)@),
{
    match gcb_read(ctx) {
        Ok(gcb) => {
            if has_ln(&ctx.scl_dec_ctrl.sclinfo) {
                add_gcb(&mut ctx.scl_dec_ctrl.sclinfo, gcb);
                assert(ctx@ =~~= gsecontrol_model(old(ctx)@));
            } else {
                ctx.set_user_error();
            }
        },
        Err(e) => {
            ctx.refuse(e);
        },
    }
}

/// `Inputs`: only opens the table of its children.
pub open spec fn inputs_model(st: IcdParseContext2View) -> IcdParseContext2View {
    if st.reason == SX_ELEMENT_START {
        st.pushed(seq![47usize])
    } else {
        st.popped()
    }
}

/// Handles `Inputs`.
pub fn inputs_sefun(ctx: &mut IcdParseContext2)
    ensures
        final(ctx)@ == inputs_model(old(ctx)@),
{
    if ctx.reason == SX_ELEMENT_START {
        ctx.sx_push(vec![47]);
        assert(ctx@ =~~= inputs_model(old(ctx)@));
    } else {
        ctx.sx_pop();
    }
}

/// The reference that the attributes of an `ExtRef` element describe;
/// each of them may be absent.
pub open spec fn extref_of(st: IcdParseContext2View) -> SclExtrefView {
    SclExtrefView {
        desc: text_or_empty(st.attr("desc"@)),
        intaddr: trimmed_or_empty(st.attr("intAddr"@)),
        iedname: trimmed_or_empty(st.attr("iedName"@)),
        ldinst: trimmed_or_empty(st.attr("ldInst"@)),
        prefix: trimmed_or_empty(st.attr("prefix"@)),
        lnclass: trimmed_or_empty(st.attr("lnClass"@)),
        lninst: trimmed_or_empty(st.attr("lnInst"@)),
        doname: trimmed_or_empty(st.attr("doName"@)),
        daname: trimmed_or_empty(st.attr("daName"@)),
        servicetype: trimmed_or_empty(st.attr("serviceType"@)),
        srcldinst: trimmed_or_empty(st.attr("srcLDInst"@)),
        srcprefix: trimmed_or_empty(st.attr("srcPrefix"@)),
        srclnclass: trimmed_or_empty(st.attr("srcLNClass"@)),
        srclninst: trimmed_or_empty(st.attr("srcLNInst"@)),
        srccbname: trimmed_or_empty(st.attr("srcCBName"@)),
    }
}

/// Reads the attributes of an `ExtRef` element.
pub fn extref_read(ctx: &IcdParseContext2) -> (r: SclExtref)
    ensures
        r@ == extref_of(ctx@),
{
    SclExtref {
        desc: or_empty(ctx.opt_attr("desc")),
        intaddr: trim_or_empty(&ctx.opt_attr("intAddr")),
        iedname: trim_or_empty(&ctx.opt_attr("iedName")),
        ldinst: trim_or_empty(&ctx.opt_attr("ldInst")),
        prefix: trim_or_empty(&ctx.opt_attr("prefix")),
        lnclass: trim_or_empty(&ctx.opt_attr("lnClass")),
        lninst: trim_or_empty(&ctx.opt_attr("lnInst")),
        doname: trim_or_empty(&ctx.opt_attr("doName")),
        daname: trim_or_empty(&ctx.opt_attr("daName")),
        servicetype: trim_or_empty(&ctx.opt_attr("serviceType")),
        srcldinst: trim_or_empty(&ctx.opt_attr("srcLDInst")),
        srcprefix: trim_or_empty(&ctx.opt_attr("srcPrefix")),
        srclnclass: trim_or_empty(&ctx.opt_attr("srcLNClass")),
        srclninst: trim_or_empty(&ctx.opt_attr("srcLNInst")),
        srccbname: trim_or_empty(&ctx.opt_attr("srcCBName")),
    }
}

/// `ExtRef`: a reference is added to the last logical node.
pub open spec fn extref_model(st: IcdParseContext2View) -> IcdParseContext2View {
    if st.info().has_ln() {
        st.with_info(st.info().add_extref(extref_of(st)))
    } else {
        st.user_error()
    }
}

/// Handles `ExtRef`.
pub fn extref_sfun(ctx: &mut IcdParseContext2)
    ensures
        final(ctx)@ == extref_model(old(ctx)@),
{
    let extref = extref_read(ctx);
    if has_ln(&ctx.scl_dec_ctrl.sclinfo) {
        add_extref(&mut ctx.scl_dec_ctrl.sclinfo, extref);
        assert(ctx@ =~~= extref_model(old(ctx)@));
    } else {
        ctx.set_user_error();
    }
}

} // verus!
