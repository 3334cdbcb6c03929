//! The handlers of logical devices and logical nodes.

use crate::consts::{MAX_IDENT_LEN, SX_ELEMENT_START};
use crate::context::{IcdParseContext2, IcdParseContext2View, Refusal};
use crate::cursor::{
    add_ld, add_ln, has_ld, has_ln, has_server, ld_mut, ld_ref, ln_mut, ln_ref, server_ref,
};
use crate::model::{SclLd, SclLdView, SclLn, SclLnView, SclSgcb, SclSgcbView};
use crate::text::{
    byte_len, eq_ignore_case, str_byte_len, str_eq, str_trim, trim_or_empty, trim_ws, trimmed,
    trimmed_or_empty,
};
use crate::validate::{
    check_eq_2str_incaseinse, chk_comp_name_legal, chk_mms_ident_legal, comp_name_legal,
    mms_ident_legal,
};
use vstd::prelude::*;
use vstd::string::StringExecFns;
use vstd::utf8::encode_utf8;

verus! {

/// Whether a text is a legal component name.
pub open spec fn name_legal(s: Seq<char>) -> bool {
    comp_name_legal(encode_utf8(s))
}

/// Tells whether a text is a legal component name.
pub fn is_name_legal(s: &str) -> (r: bool)
    ensures
        r == name_legal(s@),
{
    chk_comp_name_legal(s.as_bytes()).is_ok()
}

/// The logical device that the attributes of an `LDevice` element
/// describe; its instance name must be a legal identifier.
pub open spec fn ld_of(st: IcdParseContext2View) -> Result<SclLdView, Refusal> {
    match st.attr("inst"@) {
        None => Err(Refusal::Missing),
        Some(inst) => if mms_ident_legal(trim_ws(inst)) {
            Ok(
                SclLdView {
                    domname: seq![],
                    desc: trimmed_or_empty(st.attr("desc"@)),
                    inst: trim_ws(inst),
                    ln_vec: seq![],
                },
            )
        } else {
            Err(Refusal::Refused)
        },
    }
}

/// Reads the attributes of an `LDevice` element.
pub fn ld_read(ctx: &IcdParseContext2) -> (r: Result<SclLd, Refusal>)
    ensures
        match r {
            Ok(ld) => ld_of(ctx@) == Ok::<SclLdView, Refusal>(ld@),
            Err(e) => ld_of(ctx@) == Err::<SclLdView, Refusal>(e),
        },
{
    let desc = trim_or_empty(&ctx.opt_attr("desc"));
    match ctx.opt_attr("inst") {
        Some(txt) => {
            let inst = trimmed(txt.as_str());
            if chk_mms_ident_legal(inst.as_str()) {
                let ld = SclLd { domname: String::new(), desc, inst, ln_vec: Vec::new() };
                assert(ld@.ln_vec =~= seq![]);
                Ok(ld)
            } else {
                Err(Refusal::Refused)
            }
        },
        None => Err(Refusal::Missing),
    }
}

/// `LDevice` opens: a logical device is added to the last server.
pub open spec fn ldevice_start(st: IcdParseContext2View) -> IcdParseContext2View {
    if st.info().has_server() {
        match ld_of(st) {
            Ok(ld) => st.with_info(st.info().add_ld(ld)).pushed(seq![25usize, 26]),
            Err(e) => st.refused(e),
        }
    } else {
        st.user_error()
    }
}

/// `LDevice` closes: the last logical device gets its domain name, the
/// name of the device followed by the instance name, which must stay
/// shorter than an identifier may be.
pub open spec fn ldevice_end(st: IcdParseContext2View) -> IcdParseContext2View {
    if st.info().has_ld() {
        let name = st.info().server().iedname + st.info().ld().inst;
        if byte_len(name) < MAX_IDENT_LEN {
            st.with_info(st.info().with_ld(SclLdView { domname: name, ..st.info().ld() })).popped()
        } else {
            st.user_error()
        }
    } else {
        st.user_error()
    }
}

/// `LDevice`.
pub open spec fn ldevice_model(st: IcdParseContext2View) -> IcdParseContext2View {
    if st.reason == SX_ELEMENT_START {
        ldevice_start(st)
    } else {
        ldevice_end(st)
    }
}

/// Handles `LDevice`.
pub fn ldevice_sefun(ctx: &mut IcdParseContext2)
    ensures
        final(ctx)@ == ldevice_model(old(ctx)@),
{
    if ctx.reason == SX_ELEMENT_START {
        if has_server(&ctx.scl_dec_ctrl.sclinfo) {
            match ld_read(ctx) {
                Ok(ld) => {
                    add_ld(&mut ctx.scl_dec_ctrl.sclinfo, ld);
                    ctx.sx_push(vec![25, 26]);
                    assert(ctx@ =~~= ldevice_model(old(ctx)@));
                },
                Err(e) => {
                    ctx.refuse(e);
                },
            }
        } else {
            ctx.set_user_error();
        }
    } else {
        if has_ld(&ctx.scl_dec_ctrl.sclinfo) {
            let mut name = server_ref(&ctx.scl_dec_ctrl.sclinfo).iedname.clone();
            name.append(ld_ref(&ctx.scl_dec_ctrl.sclinfo).inst.as_str());
            if str_byte_len(name.as_str()) < MAX_IDENT_LEN {
                ld_mut(&mut ctx.scl_dec_ctrl.sclinfo).domname = name;
                ctx.sx_pop();
                assert(ctx@ =~~= ldevice_model(old(ctx)@));
            } else {
                ctx.set_user_error();
            }
        } else {
            ctx.set_user_error();
        }
    }
}

/// A setting group control block of which nothing has been read.
pub open spec fn blank_sgcb() -> SclSgcbView {
    SclSgcbView { desc: seq![], numofsgs: 0, actsg: 0 }
}

/// A logical node as it stands when its element opens.
pub open spec fn new_ln(
    desc: Seq<char>,
    prefix: Seq<char>,
    lntype: Seq<char>,
    inst: Seq<char>,
    lnclass: Seq<char>,
) -> SclLnView {
    SclLnView {
        varname: seq![],
        desc,
        lntype,
        lnclass,
        inst,
        prefix,
        dai_vec: seq![],
        dataset_vec: seq![],
        rcb_vec: seq![],
        lcb_vec: seq![],
        gcb_vec: seq![],
        svcb_vec: seq![],
        sgcb: blank_sgcb(),
        extref_vec: seq![],
        type_id: 0,
    }
}

/// Whether the last opening tag is that of an `LN0` element.
pub open spec fn is_ln0(st: IcdParseContext2View) -> bool {
    match st.op_start_tag {
        Some(tag) => eq_ignore_case(trim_ws(tag.tag), "LN0"@),
        None => false,
    }
}

/// The logical node that the attributes of an `LN` or `LN0` element
/// describe. Its instance and its class must be legal component names,
/// and the class of an `LN0` must be `LLN0` to the letter, or else the
/// walk stops.
pub open spec fn ln_of(st: IcdParseContext2View) -> Result<SclLnView, Refusal> {
    match st.attr("lnType"@) {
        None => Err(Refusal::Missing),
        Some(lntype) => match st.attr("inst"@) {
            None => Err(Refusal::Missing),
            Some(inst) => if !name_legal(trim_ws(inst)) {
                Err(Refusal::Refused)
            } else {
                match st.attr("lnClass"@) {
                    None => Err(Refusal::Missing),
                    Some(lnclass) => if !name_legal(trim_ws(lnclass)) {
                        Err(Refusal::Refused)
                    } else if is_ln0(st) && trim_ws(lnclass) != "LLN0"@ {
                        Err(Refusal::Stop)
                    } else {
                        Ok(
                            new_ln(
                                trimmed_or_empty(st.attr("desc"@)),
                                trimmed_or_empty(st.attr("prefix"@)),
                                trim_ws(lntype),
                                trim_ws(inst),
                                trim_ws(lnclass),
                            ),
                        )
                    },
                }
            },
        },
    }
}

/// Tells whether the last opening tag is that of an `LN0` element.
pub fn tag_is_ln0(ctx: &IcdParseContext2) -> (r: bool)
    ensures
        r == is_ln0(ctx@),
{
    match &ctx.op_start_tag {
        Some(tag) => check_eq_2str_incaseinse(str_trim(tag.tag.as_str()), "LN0"),
        None => false,
    }
}

/// Reads the attributes of an `LN` or `LN0` element.
pub fn ln_read(ctx: &IcdParseContext2) -> (r: Result<SclLn, Refusal>)
    ensures
        match r {
            Ok(ln) => ln_of(ctx@) == Ok::<SclLnView, Refusal>(ln@),
            Err(e) => ln_of(ctx@) == Err::<SclLnView, Refusal>(e),
        },
{
    let desc = trim_or_empty(&ctx.opt_attr("desc"));
    let prefix = trim_or_empty(&ctx.opt_attr("prefix"));
    let lntype = match ctx.opt_attr("lnType") {
        Some(txt) => trimmed(txt.as_str()),
        None => {
            return Err(Refusal::Missing);
        },
    };
    let inst = match ctx.opt_attr("inst") {
        Some(txt) => trimmed(txt.as_str()),
        None => {
            return Err(Refusal::Missing);
        },
    };
    if !is_name_legal(inst.as_str()) {
        return Err(Refusal::Refused);
    }
    let lnclass = match ctx.opt_attr("lnClass") {
        Some(txt) => trimmed(txt.as_str()),
        None => {
            return Err(Refusal::Missing);
        },
    };
    if !is_name_legal(lnclass.as_str()) {
        return Err(Refusal::Refused);
    }
    if tag_is_ln0(ctx) && !str_eq(lnclass.as_str(), "LLN0") {
        return Err(Refusal::Stop);
    }
    let scl_ln = SclLn {
        varname: String::new(),
        desc,
        lntype,
        lnclass,
        inst,
        prefix,
        dai_vec: Vec::new(),
        dataset_vec: Vec::new(),
        rcb_vec: Vec::new(),
        lcb_vec: Vec::new(),
        gcb_vec: Vec::new(),
        svcb_vec: Vec::new(),
        sgcb: Box::new(SclSgcb { desc: String::new(), numofsgs: 0, actsg: 0 }),
        extref_vec: Vec::new(),
        type_id: 0,
    };
    assert(scl_ln@ =~~= new_ln(desc@, prefix@, lntype@, inst@, lnclass@));
    Ok(scl_ln)
}

/// `LN` or `LN0` opens: a logical node is added to the last logical
/// device, and the table of its children is opened.
pub open spec fn ln_start(st: IcdParseContext2View) -> IcdParseContext2View {
    match ln_of(st) {
        Ok(ln) => st.with_info(st.info().add_ln(ln)).pushed(
            if is_ln0(st) {
                seq![27usize, 28, 29, 30, 31, 32, 33, 34]
            } else {
                seq![35usize, 36, 37, 38, 39, 40]
            },
        ),
        Err(e) => st.refused(e),
    }
}

/// The name of the variable of a logical node: prefix, class and instance.
pub open spec fn ln_varname(ln: SclLnView) -> Seq<char> {
    ln.prefix + ln.lnclass + ln.inst
}

/// Whether a logical node is named as the rules ask: a class of exactly
/// four bytes, prefix and instance of at most eleven bytes together, and a
/// variable name no longer than an identifier may be.
pub open spec fn ln_naming_ok(ln: SclLnView) -> bool {
    byte_len(ln.lnclass) == 4 && byte_len(ln.prefix) + byte_len(ln.inst) <= 11 && byte_len(
        ln_varname(ln),
    ) <= MAX_IDENT_LEN
}

/// `LN` or `LN0` closes: the last logical node gets the name of its
/// variable, if it is named as the rules ask.
pub open spec fn ln_end(st: IcdParseContext2View) -> IcdParseContext2View {
    if !st.info().has_ln() {
        st.user_error()
    } else if !ln_naming_ok(st.info().ln()) {
        st.user_error()
    } else {
        st.with_info(
            st.info().with_ln(SclLnView { varname: ln_varname(st.info().ln()), ..st.info().ln() }),
        ).popped()
    }
}

/// `LN` and `LN0`: nothing is done where no logical device is there to
/// take the node.
pub open spec fn ln_model(st: IcdParseContext2View) -> IcdParseContext2View {
    if !st.info().has_ld() {
        st.user_error()
    } else if st.reason == SX_ELEMENT_START {
        ln_start(st)
    } else {
        ln_end(st)
    }
}

/// Handles the opening of `LN` and `LN0`.
fn ln_sfun(ctx: &mut IcdParseContext2)
    requires
        old(ctx)@.info().has_ld(),
    ensures
        final(ctx)@ == ln_start(old(ctx)@),
{
    match ln_read(ctx) {
        Ok(scl_ln) => {
            let ln0 = tag_is_ln0(ctx);
            add_ln(&mut ctx.scl_dec_ctrl.sclinfo, scl_ln);
            if ln0 {
                ctx.sx_push(vec![27, 28, 29, 30, 31, 32, 33, 34]);
            } else {
                ctx.sx_push(vec![35, 36, 37, 38, 39, 40]);
            }
            assert(ctx@ =~~= ln_start(old(ctx)@));
        },
        Err(e) => {
            ctx.refuse(e);
        },
    }
}

/// Handles the closing of `LN` and `LN0`.
fn ln_efun(ctx: &mut IcdParseContext2)
    ensures
        final(ctx)@ == ln_end(old(ctx)@),
{
    if !has_ln(&ctx.scl_dec_ctrl.sclinfo) {
        ctx.set_user_error();
        return ;
    }
    let ln = ln_ref(&ctx.scl_dec_ctrl.sclinfo);
    let plen = str_byte_len(ln.prefix.as_str());
    let ilen = str_byte_len(ln.inst.as_str());
    if str_byte_len(ln.lnclass.as_str()) != 4 {
        ctx.set_user_error();
        return ;
    } else if plen > 11 || ilen > 11 - plen {
        ctx.set_user_error();
        return ;
    }
    let mut name = ln.prefix.clone();
    name.append(ln.lnclass.as_str());
    name.append(ln.inst.as_str());
    if str_byte_len(name.as_str()) > MAX_IDENT_LEN {
        ctx.set_user_error();
        return ;
    }
    ln_mut(&mut ctx.scl_dec_ctrl.sclinfo).varname = name;
    ctx.sx_pop();
    assert(ctx@ =~~= ln_end(old(ctx)@));
}

/// Handles `LN` and `LN0`.
pub fn ln_sefun(ctx: &mut IcdParseContext2)
    ensures
        final(ctx)@ == ln_model(old(ctx)@),
{
    if !has_ld(&ctx.scl_dec_ctrl.sclinfo) {
        ctx.set_user_error();
        return ;
    }
    if ctx.reason == SX_ELEMENT_START {
        ln_sfun(ctx);
    } else {
        ln_efun(ctx);
    }
}

} // verus!
