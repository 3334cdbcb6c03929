//! The handlers of the values that a logical node gives to its
//! attributes: `DOI`, `SDI` and `DAI` with their `Val` elements.

use crate::consts::{MAX_FLAT_LEN, SX_ELEMENT_START};
use crate::context::{IcdParseContext2, IcdParseContext2View, SclDecCtrlView};
use crate::cursor::{add_dai, add_dai_sgval, dai_mut, dai_ref, has_dai, has_ln};
use crate::flatname::{construct_flattened, flat_fits, flat_joined, flat_parent, flattened_parent};
use crate::model::{SclDai, SclDaiView, SclSgVal, SclSgValView};
use crate::text::{
    byte_len, number_or_else, read_number_or_else, str_byte_len, trim_or, trim_or_empty, trim_ws,
    trimmed, trimmed_or, trimmed_or_empty,
};
use vstd::prelude::*;

verus! {

impl IcdParseContext2View {
    /// The state with another flattened name.
    pub open spec fn with_flattened(self, flattened: Seq<char>) -> Self {
        self.with_dec(SclDecCtrlView { flattened, ..self.scl_dec_ctrl })
    }

    /// The state with another setting group for the `Val` that is open.
    pub open spec fn with_sgroup(self, sgrouptmp: u32) -> Self {
        self.with_dec(SclDecCtrlView { sgrouptmp, ..self.scl_dec_ctrl })
    }
}

/// `DOI`: a flattened name is begun with the name of the data object when
/// the element opens.
pub open spec fn doi_model(st: IcdParseContext2View) -> IcdParseContext2View {
    if st.reason == SX_ELEMENT_START {
        match st.attr("name"@) {
            None => st.attr_missing(),
            Some(name) => if flat_fits(
                seq![],
                MAX_FLAT_LEN as nat,
                trim_ws(name),
                trimmed_or_empty(st.attr("ix"@)),
            ) {
                st.with_flattened(
                    flat_joined(seq![], trim_ws(name), trimmed_or_empty(st.attr("ix"@))),
                ).pushed(seq![48usize, 49])
            } else {
                st.with_flattened(seq![]).user_error()
            },
        }
    } else {
        st.popped()
    }
}

/// Handles `DOI`.
pub fn doi_sefun(ctx: &mut IcdParseContext2)
    ensures
        final(ctx)@ == doi_model(old(ctx)@),
{
    if ctx.reason == SX_ELEMENT_START {
        let ix = trim_or_empty(&ctx.opt_attr("ix"));
        let name = match ctx.req_attr("name") {
            Some(txt) => trimmed(txt.as_str()),
            None => {
                return ;
            },
        };
        ctx.scl_dec_ctrl.flattened = String::new();
        match construct_flattened(
            &mut ctx.scl_dec_ctrl.flattened,
            MAX_FLAT_LEN,
            name.as_str(),
            ix.as_str(),
        ) {
            Ok(_) => {
                ctx.sx_push(vec![48, 49]);
                assert(ctx@ =~~= doi_model(old(ctx)@));
            },
            Err(_) => {
                ctx.set_user_error();
            },
        }
    } else {
        ctx.sx_pop();
    }
}

/// `SDI`: the flattened name grows by one step when the element opens and
/// loses its last step when it closes.
pub open spec fn sdi_model(st: IcdParseContext2View) -> IcdParseContext2View {
    if st.reason == SX_ELEMENT_START {
        match st.attr("name"@) {
            None => st.attr_missing(),
            Some(name) => if flat_fits(
                st.scl_dec_ctrl.flattened,
                MAX_FLAT_LEN as nat,
                trim_ws(name),
                trimmed_or_empty(st.attr("ix"@)),
            ) {
                st.with_flattened(
                    flat_joined(
                        st.scl_dec_ctrl.flattened,
                        trim_ws(name),
                        trimmed_or_empty(st.attr("ix"@)),
                    ),
                ).pushed(seq![50usize, 51])
            } else {
                st.user_error()
            },
        }
    } else {
        st.with_flattened(flat_parent(st.scl_dec_ctrl.flattened)).popped()
    }
}

/// Drops the last step of the flattened name and closes the innermost table.
fn step_out(ctx: &mut IcdParseContext2)
    ensures
        final(ctx)@ == old(ctx)@.with_flattened(
            flat_parent(old(ctx)@.scl_dec_ctrl.flattened),
        ).popped(),
{
    let parent = flattened_parent(ctx.scl_dec_ctrl.flattened.as_str());
    ctx.scl_dec_ctrl.flattened = parent;
    assert(ctx@ =~~= old(ctx)@.with_flattened(flat_parent(old(ctx)@.scl_dec_ctrl.flattened)));
    ctx.sx_pop();
}

/// Handles the opening of `SDI`.
fn sdi_sfun(ctx: &mut IcdParseContext2)
    requires
        old(ctx).reason == SX_ELEMENT_START,
    ensures
        final(ctx)@ == sdi_model(old(ctx)@),
{
    let ix = trim_or_empty(&ctx.opt_attr("ix"));
    let name = match ctx.req_attr("name") {
        Some(txt) => trimmed(txt.as_str()),
        None => {
            return ;
        },
    };
    match construct_flattened(
        &mut ctx.scl_dec_ctrl.flattened,
        MAX_FLAT_LEN,
        name.as_str(),
        ix.as_str(),
    ) {
        Ok(_) => {
            assert(ctx@ =~~= old(ctx)@.with_flattened(
                flat_joined(old(ctx)@.scl_dec_ctrl.flattened, name@, ix@),
            ));
            ctx.sx_push(vec![50, 51]);
            assert(ctx@ =~~= sdi_model(old(ctx)@));
        },
        Err(_) => {
            assert(ctx@ =~~= old(ctx)@);
            ctx.set_user_error();
        },
    }
}

/// Handles `SDI`.
pub fn sdi_sefun(ctx: &mut IcdParseContext2)
    ensures
        final(ctx)@ == sdi_model(old(ctx)@),
{
    if ctx.reason == SX_ELEMENT_START {
        sdi_sfun(ctx);
    } else {
        step_out(ctx);
    }
}

/// The attribute value that a `DAI` element begins under the path `flattened`.
pub open spec fn dai_of(st: IcdParseContext2View, flattened: Seq<char>) -> SclDaiView {
    SclDaiView {
        flattened,
        val: seq![],
        sgval_vec: seq![],
        saddr: trimmed_or_empty(st.attr("sAddr"@)),
        valkind: trimmed_or(st.attr("valKind"@), "Set"@),
    }
}

/// `DAI` opens: the flattened name grows by the name of the attribute, and
/// an attribute value with that path is added to the last logical node.
pub open spec fn dai_start(st: IcdParseContext2View) -> IcdParseContext2View {
    match st.attr("name"@) {
        None => st.attr_missing(),
        Some(name) => if flat_fits(
            st.scl_dec_ctrl.flattened,
            MAX_FLAT_LEN as nat,
            trim_ws(name),
            trimmed_or_empty(st.attr("ix"@)),
        ) {
            let path = flat_joined(
                st.scl_dec_ctrl.flattened,
                trim_ws(name),
                trimmed_or_empty(st.attr("ix"@)),
            );
            if st.info().has_ln() {
                st.with_dec(
                    SclDecCtrlView {
                        flattened: path,
                        sclinfo: st.info().add_dai(dai_of(st, path)),
                        ..st.scl_dec_ctrl
                    },
                ).pushed(seq![52usize])
            } else {
                st.with_flattened(path).user_error()
            }
        } else {
            st.user_error()
        },
    }
}

/// `DAI`: when the element closes, the flattened name loses its last step.
pub open spec fn dai_model(st: IcdParseContext2View) -> IcdParseContext2View {
    if st.reason == SX_ELEMENT_START {
        dai_start(st)
    } else {
        st.with_flattened(flat_parent(st.scl_dec_ctrl.flattened)).popped()
    }
}

/// Handles the opening of `DAI`.
fn dai_sfun(ctx: &mut IcdParseContext2)
    ensures
        final(ctx)@ == dai_start(old(ctx)@),
{
    let ix = trim_or_empty(&ctx.opt_attr("ix"));
    let saddr = trim_or_empty(&ctx.opt_attr("sAddr"));
    let valkind = trim_or(&ctx.opt_attr("valKind"), "Set");
    let name = match ctx.req_attr("name") {
        Some(txt) => trimmed(txt.as_str()),
        None => {
            return ;
        },
    };
    match construct_flattened(
        &mut ctx.scl_dec_ctrl.flattened,
        MAX_FLAT_LEN,
        name.as_str(),
        ix.as_str(),
    ) {
        Ok(_) => {},
        Err(_) => {
            ctx.set_user_error();
            return ;
        },
    }
    let scl_dai = SclDai {
        flattened: ctx.scl_dec_ctrl.flattened.clone(),
        val: String::new(),
        sgval_vec: Vec::new(),
        saddr,
        valkind,
    };
    assert(scl_dai@ =~~= dai_of(old(ctx)@, ctx.scl_dec_ctrl.flattened@));
    if !has_ln(&ctx.scl_dec_ctrl.sclinfo) {
        ctx.set_user_error();
        return ;
    }
    add_dai(&mut ctx.scl_dec_ctrl.sclinfo, scl_dai);
    ctx.sx_push(vec![52]);
    assert(ctx@ =~~= dai_start(old(ctx)@));
}

/// Handles `DAI`.
pub fn dai_sefun(ctx: &mut IcdParseContext2)
    ensures
        final(ctx)@ == dai_model(old(ctx)@),
{
    if ctx.reason == SX_ELEMENT_START {
        dai_sfun(ctx);
    } else {
        step_out(ctx);
    }
}

/// `Val` of a `DAI` closes: with a setting group, its text is one more
/// value of the last attribute value; without one, it is the value
/// itself, which may be given only once.
pub open spec fn dai_val_end(st: IcdParseContext2View) -> IcdParseContext2View {
    if !st.info().has_dai() {
        st.user_error()
    } else {
        match st.op_entry_text {
            None => st.user_error(),
            Some(txt) => if st.scl_dec_ctrl.sgrouptmp > 0 {
                st.with_info(
                    st.info().add_dai_sgval(
                        SclSgValView { sgroup: st.scl_dec_ctrl.sgrouptmp, val: trim_ws(txt) },
                    ),
                )
            } else if byte_len(st.info().dai().val) > 0 {
                st.user_error()
            } else {
                st.with_info(
                    st.info().with_dai(SclDaiView { val: trim_ws(txt), ..st.info().dai() }),
                )
            },
        }
    }
}

/// `Val` of a `DAI`: when the element opens, its setting group is kept,
/// 0 standing for none and for one that is no number.
pub open spec fn dai_val_model(st: IcdParseContext2View) -> IcdParseContext2View {
    if st.reason == SX_ELEMENT_START {
        st.with_sgroup(number_or_else(st.attr("sGroup"@), 0))
    } else {
        dai_val_end(st)
    }
}

/// Handles the closing of `Val` of a `DAI`.
fn dai_val_efun(ctx: &mut IcdParseContext2)
    ensures
        final(ctx)@ == dai_val_end(old(ctx)@),
{
    if !has_dai(&ctx.scl_dec_ctrl.sclinfo) {
        ctx.set_user_error();
        return ;
    }
    let val = match &ctx.op_entry_text {
        Some(txt) => trimmed(txt.as_str()),
        None => {
            ctx.set_user_error();
            return ;
        },
    };
    if ctx.scl_dec_ctrl.sgrouptmp > 0 {
        let sgroup = ctx.scl_dec_ctrl.sgrouptmp;
        add_dai_sgval(&mut ctx.scl_dec_ctrl.sclinfo, SclSgVal { sgroup, val });
        assert(ctx@ =~~= dai_val_end(old(ctx)@));
    } else if str_byte_len(dai_ref(&ctx.scl_dec_ctrl.sclinfo).val.as_str()) > 0 {
        ctx.set_user_error();
    } else {
        dai_mut(&mut ctx.scl_dec_ctrl.sclinfo).val = val;
        assert(ctx@ =~~= dai_val_end(old(ctx)@));
    }
}

/// Handles `Val` of a `DAI`.
pub fn dai_val_sefun(ctx: &mut IcdParseContext2)
    ensures
        final(ctx)@ == dai_val_model(old(ctx)@),
{
    if ctx.reason == SX_ELEMENT_START {
        ctx.scl_dec_ctrl.sgrouptmp = read_number_or_else(&ctx.opt_attr("sGroup"), 0);
    } else {
        dai_val_efun(ctx);
    }
}

} // verus!
