//! The handlers of the data type templates: logical node types, data
//! object types, data attribute types and enumerations.

use crate::consts::{SCL_OBJTYPE_DA, SCL_OBJTYPE_SDO, SX_ELEMENT_START};
use crate::context::{IcdParseContext2, IcdParseContext2View, Refusal, SclDecCtrlView};
use crate::cursor::{
    add_bda, add_bda_sgval, add_da, add_da_sgval, add_datype, add_dobj, add_dotype, add_enumtype,
    add_enumval, add_lntype, bda_mut, da_mut, enumval_mut, has_bda, has_da, has_datype,
    has_dotype, has_enumtype, has_enumval, has_lntype,
};
use crate::lnode::{is_name_legal, name_legal};
use crate::model::{
    SclBda, SclBdaView, SclDa, SclDaView, SclDatype, SclDatypeView, SclDo, SclDoView, SclDotype,
    SclDotypeView, SclEnumtype, SclEnumtypeView, SclEnumval, SclEnumvalView, SclLntype,
    SclLntypeView, SclSgVal, SclSgValView,
};
use crate::text::{
    attr_is, attr_spells, number_or, number_or_else, or_empty, parse_i32, read_number_or,
    read_number_or_else, str_parse_i32, str_trim, text_or_empty, trim_or, trim_or_empty, trim_ws,
    trimmed, trimmed_or, trimmed_or_empty,
};
use vstd::prelude::*;

verus! {

impl IcdParseContext2View {
    /// The state in which the type template that is open is to be kept.
    pub open spec fn keeping_type(self) -> Self {
        self.with_dec(SclDecCtrlView { iedtypematched: true, ..self.scl_dec_ctrl })
    }
}

/// The logical node type that the attributes of an `LNodeType` element describe.
pub open spec fn lntype_of(st: IcdParseContext2View) -> Result<SclLntypeView, Refusal> {
    match st.attr("id"@) {
        None => Err(Refusal::Missing),
        Some(id) => match st.attr("lnClass"@) {
            None => Err(Refusal::Missing),
            Some(lnclass) => Ok(
                SclLntypeView {
                    id: trim_ws(id),
                    lnclass: trim_ws(lnclass),
                    do_vec: seq![],
                    type_id: 0,
                },
            ),
        },
    }
}

/// Reads the attributes of an `LNodeType` element.
pub fn lntype_read(ctx: &IcdParseContext2) -> (r: Result<SclLntype, Refusal>)
    ensures
        match r {
            Ok(x) => lntype_of(ctx@) == Ok::<SclLntypeView, Refusal>(x@),
            Err(e) => lntype_of(ctx@) == Err::<SclLntypeView, Refusal>(e),
        },
{
    let id = match ctx.opt_attr("id") {
        Some(txt) => trimmed(txt.as_str()),
        None => {
            return Err(Refusal::Missing);
        },
    };
    let lnclass = match ctx.opt_attr("lnClass") {
        Some(txt) => trimmed(txt.as_str()),
        None => {
            return Err(Refusal::Missing);
        },
    };
    let x = SclLntype { id, lnclass, do_vec: Vec::new(), type_id: 0 };
    assert(x@.do_vec =~= seq![]);
    Ok(x)
}

/// `LNodeType`: a logical node type is added when the element opens.
pub open spec fn lnodetype_model(st: IcdParseContext2View) -> IcdParseContext2View {
    if st.reason == SX_ELEMENT_START {
        match lntype_of(st) {
            Ok(x) => st.keeping_type().with_info(st.info().add_lntype(x)).pushed(seq![53usize]),
            Err(e) => st.keeping_type().refused(e),
        }
    } else if st.scl_dec_ctrl.iedtypematched {
        st.popped()
    } else {
        st
    }
}

/// Handles `LNodeType`.
pub fn lnodetype_sefun(ctx: &mut IcdParseContext2)
    ensures
        final(ctx)@ == lnodetype_model(old(ctx)@),
{
    if ctx.reason == SX_ELEMENT_START {
        let read = lntype_read(ctx);
        ctx.scl_dec_ctrl.iedtypematched = true;
        match read {
            Ok(x) => {
                add_lntype(&mut ctx.scl_dec_ctrl.sclinfo, x);
                ctx.sx_push(vec![53]);
                assert(ctx@ =~~= lnodetype_model(old(ctx)@));
            },
            Err(e) => {
                ctx.refuse(e);
            },
        }
    } else {
        if ctx.scl_dec_ctrl.iedtypematched {
            ctx.sx_pop();
        }
    }
}

/// The data object type that the attributes of a `DOType` element describe.
pub open spec fn dotype_of(st: IcdParseContext2View) -> Result<SclDotypeView, Refusal> {
    match st.attr("id"@) {
        None => Err(Refusal::Missing),
        Some(id) => match st.attr("cdc"@) {
            None => Err(Refusal::Missing),
            Some(cdc) => Ok(SclDotypeView { id: trim_ws(id), cdc: trim_ws(cdc), da_vec: seq![] }),
        },
    }
}

/// Reads the attributes of a `DOType` element.
pub fn dotype_read(ctx: &IcdParseContext2) -> (r: Result<SclDotype, Refusal>)
    ensures
        match r {
            Ok(x) => dotype_of(ctx@) == Ok::<SclDotypeView, Refusal>(x@),
            Err(e) => dotype_of(ctx@) == Err::<SclDotypeView, Refusal>(e),
        },
{
    let id = match ctx.opt_attr("id") {
        Some(txt) => trimmed(txt.as_str()),
        None => {
            return Err(Refusal::Missing);
        },
    };
    let cdc = match ctx.opt_attr("cdc") {
        Some(txt) => trimmed(txt.as_str()),
        None => {
            return Err(Refusal::Missing);
        },
    };
    let x = SclDotype { id, cdc, da_vec: Vec::new() };
    assert(x@.da_vec =~= seq![]);
    Ok(x)
}

/// `DOType`: a data object type is added when the element opens.
pub open spec fn dotype_model(st: IcdParseContext2View) -> IcdParseContext2View {
    if st.reason == SX_ELEMENT_START {
        match dotype_of(st) {
            Ok(x) => st.keeping_type().with_info(st.info().add_dotype(x)).pushed(
                seq![54usize, 55],
            ),
            Err(e) => st.keeping_type().refused(e),
        }
    } else if st.scl_dec_ctrl.iedtypematched {
        st.popped()
    } else {
        st
    }
}

/// Handles `DOType`.
pub fn dotype_sefun(ctx: &mut IcdParseContext2)
    ensures
        final(ctx)@ == dotype_model(old(ctx)@),
{
    if ctx.reason == SX_ELEMENT_START {
        let read = dotype_read(ctx);
        ctx.scl_dec_ctrl.iedtypematched = true;
        match read {
            Ok(x) => {
                add_dotype(&mut ctx.scl_dec_ctrl.sclinfo, x);
                ctx.sx_push(vec![54, 55]);
                assert(ctx@ =~~= dotype_model(old(ctx)@));
            },
            Err(e) => {
                ctx.refuse(e);
            },
        }
    } else {
        if ctx.scl_dec_ctrl.iedtypematched {
            ctx.sx_pop();
        }
    }
}

/// `DAType`: a data attribute type is added when the element opens.
pub open spec fn datype_model(st: IcdParseContext2View) -> IcdParseContext2View {
    if st.reason == SX_ELEMENT_START {
        match st.attr("id"@) {
            Some(id) => st.keeping_type().with_info(
                st.info().add_datype(SclDatypeView { id: trim_ws(id), bda_vec: seq![] }),
            ).pushed(seq![57usize]),
            None => st.keeping_type().attr_missing(),
        }
    } else if st.scl_dec_ctrl.iedtypematched {
        st.popped()
    } else {
        st
    }
}

/// Handles `DAType`.
pub fn datype_sefun(ctx: &mut IcdParseContext2)
    ensures
        final(ctx)@ == datype_model(old(ctx)@),
{
    if ctx.reason == SX_ELEMENT_START {
        ctx.scl_dec_ctrl.iedtypematched = true;
        match ctx.req_attr("id") {
            Some(txt) => {
                let x = SclDatype { id: trimmed(txt.as_str()), bda_vec: Vec::new() };
                assert(x@.bda_vec =~= seq![]);
                add_datype(&mut ctx.scl_dec_ctrl.sclinfo, x);
                ctx.sx_push(vec![57]);
                assert(ctx@ =~~= datype_model(old(ctx)@));
            },
            None => {},
        }
    } else {
        if ctx.scl_dec_ctrl.iedtypematched {
            ctx.sx_pop();
        }
    }
}

/// `EnumType`: an enumeration is added when the element opens.
pub open spec fn enumtype_model(st: IcdParseContext2View) -> IcdParseContext2View {
    if st.reason == SX_ELEMENT_START {
        match st.attr("id"@) {
            Some(id) => st.with_info(
                st.info().add_enumtype(SclEnumtypeView { id: trim_ws(id), enumval_vec: seq![] }),
            ).pushed(seq![59usize]),
            None => st.attr_missing(),
        }
    } else {
        st.popped()
    }
}

/// Handles `EnumType`.
pub fn enumtype_sefun(ctx: &mut IcdParseContext2)
    ensures
        final(ctx)@ == enumtype_model(old(ctx)@),
{
    if ctx.reason == SX_ELEMENT_START {
        match ctx.req_attr("id") {
            Some(txt) => {
                let x = SclEnumtype { id: trimmed(txt.as_str()), enumval_vec: Vec::new() };
                assert(x@.enumval_vec =~= seq![]);
                add_enumtype(&mut ctx.scl_dec_ctrl.sclinfo, x);
                ctx.sx_push(vec![59]);
                assert(ctx@ =~~= enumtype_model(old(ctx)@));
            },
            None => {},
        }
    } else {
        ctx.sx_pop();
    }
}

/// The data object that the attributes of a `DO` element describe; its
/// name must be a legal component name.
pub open spec fn do_of(st: IcdParseContext2View) -> Result<SclDoView, Refusal> {
    match st.attr("name"@) {
        None => Err(Refusal::Missing),
        Some(name) => if !name_legal(trim_ws(name)) {
            Err(Refusal::Refused)
        } else {
            match st.attr("type"@) {
                None => Err(Refusal::Missing),
                Some(rtype) => Ok(SclDoView { name: trim_ws(name), rtype: trim_ws(rtype) }),
            }
        },
    }
}

/// Reads the attributes of a `DO` element.
pub fn do_read(ctx: &IcdParseContext2) -> (r: Result<SclDo, Refusal>)
    ensures
        match r {
            Ok(x) => do_of(ctx@) == Ok::<SclDoView, Refusal>(x@),
            Err(e) => do_of(ctx@) == Err::<SclDoView, Refusal>(e),
        },
{
    let name = match ctx.opt_attr("name") {
        Some(txt) => trimmed(txt.as_str()),
        None => {
            return Err(Refusal::Missing);
        },
    };
    if !is_name_legal(name.as_str()) {
        return Err(Refusal::Refused);
    }
    let rtype = match ctx.opt_attr("type") {
        Some(txt) => trimmed(txt.as_str()),
        None => {
            return Err(Refusal::Missing);
        },
    };
    Ok(SclDo { name, rtype })
}

/// `DO`: a data object is added to the last logical node type.
pub open spec fn do_model(st: IcdParseContext2View) -> IcdParseContext2View {
    match do_of(st) {
        Ok(x) => if st.info().has_lntype() {
            st.with_info(st.info().add_dobj(x))
        } else {
            st.user_error()
        },
        Err(e) => st.refused(e),
    }
}

/// Handles `DO`.
pub fn do_sfun(ctx: &mut IcdParseContext2)
    ensures
        final(ctx)@ == do_model(old(ctx)@),
{
    match do_read(ctx) {
        Ok(x) => {
            if has_lntype(&ctx.scl_dec_ctrl.sclinfo) {
                add_dobj(&mut ctx.scl_dec_ctrl.sclinfo, x);
                assert(ctx@ =~~= do_model(old(ctx)@));
            } else {
                ctx.set_user_error();
            }
        },
        Err(e) => {
            ctx.refuse(e);
        },
    }
}

/// The data attribute that the attributes of a `DA` element describe.
pub open spec fn da_of(st: IcdParseContext2View) -> Result<SclDaView, Refusal> {
    match number_or(st.attr("count"@), 0) {
        None => Err(Refusal::Refused),
        Some(count) => match st.attr("name"@) {
            None => Err(Refusal::Missing),
            Some(name) => if !name_legal(trim_ws(name)) {
                Err(Refusal::Refused)
            } else {
                match st.attr("bType"@) {
                    None => Err(Refusal::Missing),
                    Some(btype) => match st.attr("fc"@) {
                        None => Err(Refusal::Missing),
                        Some(fc) => Ok(
                            SclDaView {
                                objtype: SCL_OBJTYPE_DA,
                                name: trim_ws(name),
                                desc: text_or_empty(st.attr("desc"@)),
                                saddr: trimmed_or_empty(st.attr("sAddr"@)),
                                btype: trim_ws(btype),
                                valkind: trimmed_or(st.attr("valKind"@), "Set"@),
                                rtype: trimmed_or_empty(st.attr("type"@)),
                                count,
                                fc: trim_ws(fc),
                                dchg: attr_is(st.attr("dchg"@), "true"@),
                                qchg: attr_is(st.attr("qchg"@), "true"@),
                                dupd: attr_is(st.attr("dupd"@), "true"@),
                                val: seq![],
                                sgval_vec: seq![],
                            },
                        ),
                    },
                }
            },
        },
    }
}

/// Reads the attributes of a `DA` element.
pub fn da_read(ctx: &IcdParseContext2) -> (r: Result<SclDa, Refusal>)
    ensures
        match r {
            Ok(x) => da_of(ctx@) == Ok::<SclDaView, Refusal>(x@),
            Err(e) => da_of(ctx@) == Err::<SclDaView, Refusal>(e),
        },
{
    let desc = or_empty(ctx.opt_attr("desc"));
    let saddr = trim_or_empty(&ctx.opt_attr("sAddr"));
    let valkind = trim_or(&ctx.opt_attr("valKind"), "Set");
    let rtype = trim_or_empty(&ctx.opt_attr("type"));
    let count = match read_number_or(&ctx.opt_attr("count"), 0) {
        Some(v) => v,
        None => {
            return Err(Refusal::Refused);
        },
    };
    let dchg = attr_spells(&ctx.opt_attr("dchg"), "true");
    let qchg = attr_spells(&ctx.opt_attr("qchg"), "true");
    let dupd = attr_spells(&ctx.opt_attr("dupd"), "true");
    let name = match ctx.opt_attr("name") {
        Some(txt) => trimmed(txt.as_str()),
        None => {
            return Err(Refusal::Missing);
        },
    };
    if !is_name_legal(name.as_str()) {
        return Err(Refusal::Refused);
    }
    let btype = match ctx.opt_attr("bType") {
        Some(txt) => trimmed(txt.as_str()),
        None => {
            return Err(Refusal::Missing);
        },
    };
    let fc = match ctx.opt_attr("fc") {
        Some(txt) => trimmed(txt.as_str()),
        None => {
            return Err(Refusal::Missing);
        },
    };
    let x = SclDa {
        objtype: SCL_OBJTYPE_DA,
        name,
        desc,
        saddr,
        btype,
        valkind,
        rtype,
        count,
        fc,
        dchg,
        qchg,
        dupd,
        val: String::new(),
        sgval_vec: Vec::new(),
    };
    assert(x@.sgval_vec =~= seq![]);
    Ok(x)
}

/// `DA`: a data attribute is added to the last data object type when the
/// element opens.
pub open spec fn da_model(st: IcdParseContext2View) -> IcdParseContext2View {
    if st.reason == SX_ELEMENT_START {
        match da_of(st) {
            Ok(x) => if st.info().has_dotype() {
                st.with_info(st.info().add_da(x)).pushed(seq![56usize])
            } else {
                st.user_error()
            },
            Err(e) => st.refused(e),
        }
    } else {
        st.popped()
    }
}

/// Handles `DA`.
pub fn da_sefun(ctx: &mut IcdParseContext2)
    ensures
        final(ctx)@ == da_model(old(ctx)@),
{
    if ctx.reason == SX_ELEMENT_START {
        match da_read(ctx) {
            Ok(x) => {
                if has_dotype(&ctx.scl_dec_ctrl.sclinfo) {
                    add_da(&mut ctx.scl_dec_ctrl.sclinfo, x);
                    ctx.sx_push(vec![56]);
                    assert(ctx@ =~~= da_model(old(ctx)@));
                } else {
                    ctx.set_user_error();
                }
            },
            Err(e) => {
                ctx.refuse(e);
            },
        }
    } else {
        ctx.sx_pop();
    }
}

/// The sub data object that the attributes of an `SDO` element describe.
pub open spec fn sdo_of(st: IcdParseContext2View) -> Result<SclDaView, Refusal> {
    match number_or(st.attr("count"@), 0) {
        None => Err(Refusal::Refused),
        Some(count) => match st.attr("name"@) {
            None => Err(Refusal::Missing),
            Some(name) => if !name_legal(trim_ws(name)) {
                Err(Refusal::Refused)
            } else {
                match st.attr("type"@) {
                    None => Err(Refusal::Missing),
                    Some(rtype) => Ok(
                        SclDaView {
                            objtype: SCL_OBJTYPE_SDO,
                            name: trim_ws(name),
                            desc: text_or_empty(st.attr("desc"@)),
                            saddr: seq![],
                            btype: seq![],
                            valkind: seq![],
                            rtype: trim_ws(rtype),
                            count,
                            fc: seq![],
                            dchg: false,
                            qchg: false,
                            dupd: false,
                            val: seq![],
                            sgval_vec: seq![],
                        },
                    ),
                }
            },
        },
    }
}

/// Reads the attributes of an `SDO` element.
pub fn sdo_read(ctx: &IcdParseContext2) -> (r: Result<SclDa, Refusal>)
    ensures
        match r {
            Ok(x) => sdo_of(ctx@) == Ok::<SclDaView, Refusal>(x@),
            Err(e) => sdo_of(ctx@) == Err::<SclDaView, Refusal>(e),
        },
{
    let desc = or_empty(ctx.opt_attr("desc"));
    let count = match read_number_or(&ctx.opt_attr("count"), 0) {
        Some(v) => v,
        None => {
            return Err(Refusal::Refused);
        },
    };
    let name = match ctx.opt_attr("name") {
        Some(txt) => trimmed(txt.as_str()),
        None => {
            return Err(Refusal::Missing);
        },
    };
    if !is_name_legal(name.as_str()) {
        return Err(Refusal::Refused);
    }
    let rtype = match ctx.opt_attr("type") {
        Some(txt) => trimmed(txt.as_str()),
        None => {
            return Err(Refusal::Missing);
        },
    };
    let x = SclDa {
        objtype: SCL_OBJTYPE_SDO,
        name,
        desc,
        saddr: String::new(),
        btype: String::new(),
        valkind: String::new(),
        rtype,
        count,
        fc: String::new(),
        dchg: false,
        qchg: false,
        dupd: false,
        val: String::new(),
        sgval_vec: Vec::new(),
    };
    assert(x@.sgval_vec =~= seq![]);
    Ok(x)
}

/// `SDO`: a sub data object is added to the last data object type.
pub open spec fn sdo_model(st: IcdParseContext2View) -> IcdParseContext2View {
    match sdo_of(st) {
        Ok(x) => if st.info().has_dotype() {
            st.with_info(st.info().add_da(x))
        } else {
            st.user_error()
        },
        Err(e) => st.refused(e),
    }
}

/// Handles `SDO`.
pub fn sdo_sfun(ctx: &mut IcdParseContext2)
    ensures
        final(ctx)@ == sdo_model(old(ctx)@),
{
    match sdo_read(ctx) {
        Ok(x) => {
            if has_dotype(&ctx.scl_dec_ctrl.sclinfo) {
                add_da(&mut ctx.scl_dec_ctrl.sclinfo, x);
                assert(ctx@ =~~= sdo_model(old(ctx)@));
            } else {
                ctx.set_user_error();
            }
        },
        Err(e) => {
            ctx.refuse(e);
        },
    }
}

/// `Val` of a `DA` closes: with a setting group, its text is one more
/// value of the last data attribute; without one, it is the value itself,
/// and a value that was there before is replaced.
pub open spec fn da_val_end(st: IcdParseContext2View) -> IcdParseContext2View {
    if !st.info().has_da() {
        st.user_error()
    } else {
        match st.op_entry_text {
            None => st.user_error(),
            Some(txt) => if st.scl_dec_ctrl.sgrouptmp > 0 {
                st.with_info(
                    st.info().add_da_sgval(
                        SclSgValView { sgroup: st.scl_dec_ctrl.sgrouptmp, val: trim_ws(txt) },
                    ),
                )
            } else {
                st.with_info(st.info().with_da(SclDaView { val: trim_ws(txt), ..st.info().da() }))
            },
        }
    }
}

/// `Val` of a `DA`: when the element opens, its setting group is kept, 0
/// standing for none; a setting group that is no number is refused.
pub open spec fn da_val_model(st: IcdParseContext2View) -> IcdParseContext2View {
    if st.reason == SX_ELEMENT_START {
        match number_or(st.attr("sGroup"@), 0) {
            Some(v) => st.with_sgroup(v),
            None => st.with_sgroup(0).user_error(),
        }
    } else {
        da_val_end(st)
    }
}

/// Handles the closing of `Val` of a `DA`.
fn da_val_efun(ctx: &mut IcdParseContext2)
    ensures
        final(ctx)@ == da_val_end(old(ctx)@),
{
    if !has_da(&ctx.scl_dec_ctrl.sclinfo) {
        ctx.set_user_error();
        return ;
    }
    let val = match &ctx.op_entry_text {
        Some(txt) => trimmed(txt.as_str()),
        None => {
            ctx.set_user_error();
            return ;
        },
    };
    if ctx.scl_dec_ctrl.sgrouptmp > 0 {
        let sgroup = ctx.scl_dec_ctrl.sgrouptmp;
        add_da_sgval(&mut ctx.scl_dec_ctrl.sclinfo, SclSgVal { sgroup, val });
        assert(ctx@ =~~= da_val_end(old(ctx)@));
    } else {
        da_mut(&mut ctx.scl_dec_ctrl.sclinfo).val = val;
        assert(ctx@ =~~= da_val_end(old(ctx)@));
    }
}

/// Handles `Val` of a `DA`.
pub fn da_val_sefun(ctx: &mut IcdParseContext2)
    ensures
        final(ctx)@ == da_val_model(old(ctx)@),
{
    if ctx.reason == SX_ELEMENT_START {
        match read_number_or(&ctx.opt_attr("sGroup"), 0) {
            Some(v) => {
                ctx.scl_dec_ctrl.sgrouptmp = v;
            },
            None => {
                ctx.scl_dec_ctrl.sgrouptmp = 0;
                ctx.set_user_error();
            },
        }
    } else {
        da_val_efun(ctx);
    }
}

/// The basic data attribute that the attributes of a `BDA` element describe.
pub open spec fn bda_of(st: IcdParseContext2View) -> Result<SclBdaView, Refusal> {
    match number_or(st.attr("count"@), 0) {
        None => Err(Refusal::Refused),
        Some(count) => match st.attr("name"@) {
            None => Err(Refusal::Missing),
            Some(name) => match st.attr("bType"@) {
                None => Err(Refusal::Missing),
                Some(btype) => Ok(
                    SclBdaView {
                        name: trim_ws(name),
                        desc: text_or_empty(st.attr("desc"@)),
                        saddr: trimmed_or_empty(st.attr("sAddr"@)),
                        btype: trim_ws(btype),
                        valkind: trimmed_or(st.attr("valKind"@), "Set"@),
                        rtype: trimmed_or_empty(st.attr("type"@)),
                        count,
                        val: seq![],
                        sgval_vec: seq![],
                    },
                ),
            },
        },
    }
}

/// Reads the attributes of a `BDA` element.
pub fn bda_read(ctx: &IcdParseContext2) -> (r: Result<SclBda, Refusal>)
    ensures
        match r {
            Ok(x) => bda_of(ctx@) == Ok::<SclBdaView, Refusal>(x@),
            Err(e) => bda_of(ctx@) == Err::<SclBdaView, Refusal>(e),
        },
{
    let desc = or_empty(ctx.opt_attr("desc"));
    let saddr = trim_or_empty(&ctx.opt_attr("sAddr"));
    let valkind = trim_or(&ctx.opt_attr("valKind"), "Set");
    let rtype = trim_or_empty(&ctx.opt_attr("type"));
    let count = match read_number_or(&ctx.opt_attr("count"), 0) {
        Some(v) => v,
        None => {
            return Err(Refusal::Refused);
        },
    };
    let name = match ctx.opt_attr("name") {
        Some(txt) => trimmed(txt.as_str()),
        None => {
            return Err(Refusal::Missing);
        },
    };
    let btype = match ctx.opt_attr("bType") {
        Some(txt) => trimmed(txt.as_str()),
        None => {
            return Err(Refusal::Missing);
        },
    };
    let x = SclBda {
        name,
        desc,
        saddr,
        btype,
        valkind,
        rtype,
        count,
        val: String::new(),
        sgval_vec: Vec::new(),
    };
    assert(x@.sgval_vec =~= seq![]);
    Ok(x)
}

/// `BDA`: a basic data attribute is added to the last data attribute type
/// when the element opens.
pub open spec fn bda_model(st: IcdParseContext2View) -> IcdParseContext2View {
    if st.reason == SX_ELEMENT_START {
        match bda_of(st) {
            Ok(x) => if st.info().has_datype() {
                st.with_info(st.info().add_bda(x)).pushed(seq![58usize])
            } else {
                st.user_error()
            },
            Err(e) => st.refused(e),
        }
    } else {
        st.popped()
    }
}

/// Handles `BDA`.
pub fn bda_sefun(ctx: &mut IcdParseContext2)
    ensures
        final(ctx)@ == bda_model(old(ctx)@),
{
    if ctx.reason == SX_ELEMENT_START {
        match bda_read(ctx) {
            Ok(x) => {
                if has_datype(&ctx.scl_dec_ctrl.sclinfo) {
                    add_bda(&mut ctx.scl_dec_ctrl.sclinfo, x);
                    ctx.sx_push(vec![58]);
                    assert(ctx@ =~~= bda_model(old(ctx)@));
                } else {
                    ctx.set_user_error();
                }
            },
            Err(e) => {
                ctx.refuse(e);
            },
        }
    } else {
        ctx.sx_pop();
    }
}

/// `Val` of a `BDA` closes: with a setting group, its text is one more
/// value of the last basic data attribute; without one, it is the value
/// itself, and a value that was there before is replaced.
pub open spec fn bda_val_end(st: IcdParseContext2View) -> IcdParseContext2View {
    if !st.info().has_bda() {
        st.user_error()
    } else {
        match st.op_entry_text {
            None => st.user_error(),
            Some(txt) => if st.scl_dec_ctrl.sgrouptmp > 0 {
                st.with_info(
                    st.info().add_bda_sgval(
                        SclSgValView { sgroup: st.scl_dec_ctrl.sgrouptmp, val: trim_ws(txt) },
                    ),
                )
            } else {
                st.with_info(
                    st.info().with_bda(SclBdaView { val: trim_ws(txt), ..st.info().bda() }),
                )
            },
        }
    }
}

/// `Val` of a `BDA`: when the element opens, its setting group is kept, 0
/// standing for none and for one that is no number.
pub open spec fn bda_val_model(st: IcdParseContext2View) -> IcdParseContext2View {
    if st.reason == SX_ELEMENT_START {
        st.with_sgroup(number_or_else(st.attr("sGroup"@), 0))
    } else {
        bda_val_end(st)
    }
}

/// Handles the closing of `Val` of a `BDA`.
fn bda_val_efun(ctx: &mut IcdParseContext2)
    ensures
        final(ctx)@ == bda_val_end(old(ctx)@),
{
    if !has_bda(&ctx.scl_dec_ctrl.sclinfo) {
        ctx.set_user_error();
        return ;
    }
    let val = match &ctx.op_entry_text {
        Some(txt) => trimmed(txt.as_str()),
        None => {
            ctx.set_user_error();
            return ;
        },
    };
    if ctx.scl_dec_ctrl.sgrouptmp > 0 {
        let sgroup = ctx.scl_dec_ctrl.sgrouptmp;
        add_bda_sgval(&mut ctx.scl_dec_ctrl.sclinfo, SclSgVal { sgroup, val });
        assert(ctx@ =~~= bda_val_end(old(ctx)@));
    } else {
        bda_mut(&mut ctx.scl_dec_ctrl.sclinfo).val = val;
        assert(ctx@ =~~= bda_val_end(old(ctx)@));
    }
}

/// Handles `Val` of a `BDA`.
pub fn bda_val_sefun(ctx: &mut IcdParseContext2)
    ensures
        final(ctx)@ == bda_val_model(old(ctx)@),
{
    if ctx.reason == SX_ELEMENT_START {
        ctx.scl_dec_ctrl.sgrouptmp = read_number_or_else(&ctx.opt_attr("sGroup"), 0);
    } else {
        bda_val_efun(ctx);
    }
}

/// The ordinal that the `ord` attribute of an `EnumVal` element gives.
pub open spec fn enumval_ord(st: IcdParseContext2View) -> Result<i32, Refusal> {
    match st.attr("ord"@) {
        None => Err(Refusal::Missing),
        Some(ord) => match parse_i32(trim_ws(ord)) {
            Some(v) => Ok(v),
            None => Err(Refusal::Refused),
        },
    }
}

/// `EnumVal`: a value with its ordinal is added to the last enumeration
/// when the element opens; when it closes, its text is the name of the
/// value.
pub open spec fn enumval_model(st: IcdParseContext2View) -> IcdParseContext2View {
    if st.reason == SX_ELEMENT_START {
        match enumval_ord(st) {
            Ok(ord) => if st.info().has_enumtype() {
                st.with_info(st.info().add_enumval(SclEnumvalView { ord, enumval: seq![] }))
            } else {
                st.user_error()
            },
            Err(e) => st.refused(e),
        }
    } else if !st.info().has_enumval() {
        st.user_error()
    } else {
        match st.op_entry_text {
            Some(txt) => st.with_info(
                st.info().with_enumval(
                    SclEnumvalView { enumval: trim_ws(txt), ..st.info().enumval() },
                ),
            ),
            None => st.user_error(),
        }
    }
}

/// Handles the opening of `EnumVal`.
fn enumval_sfun(ctx: &mut IcdParseContext2)
    requires
        old(ctx).reason == SX_ELEMENT_START,
    ensures
        final(ctx)@ == enumval_model(old(ctx)@),
{
    let ord = match ctx.opt_attr("ord") {
        Some(txt) => match str_parse_i32(str_trim(txt.as_str())) {
            Some(v) => v,
            None => {
                ctx.refuse(Refusal::Refused);
                return ;
            },
        },
        None => {
            ctx.refuse(Refusal::Missing);
            return ;
        },
    };
    if !has_enumtype(&ctx.scl_dec_ctrl.sclinfo) {
        ctx.set_user_error();
        return ;
    }
    add_enumval(&mut ctx.scl_dec_ctrl.sclinfo, SclEnumval { ord, enumval: String::new() });
    assert(ctx@ =~~= enumval_model(old(ctx)@));
}

/// Handles `EnumVal`.
pub fn enumval_sefun(ctx: &mut IcdParseContext2)
    ensures
        final(ctx)@ == enumval_model(old(ctx)@),
{
    if ctx.reason == SX_ELEMENT_START {
        enumval_sfun(ctx);
    } else {
        if !has_enumval(&ctx.scl_dec_ctrl.sclinfo) {
            ctx.set_user_error();
            return ;
        }
        let val = match &ctx.op_entry_text {
            Some(txt) => trimmed(txt.as_str()),
            None => {
                ctx.set_user_error();
                return ;
            },
        };
        enumval_mut(&mut ctx.scl_dec_ctrl.sclinfo).enumval = val;
        assert(ctx@ =~~= enumval_model(old(ctx)@));
    }
}

} // verus!
