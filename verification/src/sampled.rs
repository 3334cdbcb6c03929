//! The handlers of sampled value control blocks and of their options.

use crate::bitstring::{bit_is_set, bstr_bit_get};
use crate::consts::{
    MVL61850_MAX_OBJREF_LEN, MVL61850_MAX_RPTID_LEN, SVOPT_BITNUM_DATSET, SVOPT_BITNUM_REFRTM,
    SVOPT_BITNUM_SECURITY, SVOPT_BITNUM_SMPRATE, SVOPT_BITNUM_SMPSYNCH, SX_ELEMENT_START,
};
use crate::context::{IcdParseContext2, IcdParseContext2View, Refusal};
use crate::control::{bit_on_if, set_bit_if};
use crate::cursor::{add_svcb, has_ln, has_svcb, svcb_mut};
use crate::model::{SclSvcb, SclSvcbView};
use crate::text::{
    attr_is, attr_spells, byte_len, number_or, opt_string_view, or_empty, read_number_or,
    str_byte_len, text_or_empty, trim_or_empty, trimmed_or_empty,
};
use vstd::prelude::*;

verus! {

/// How the sample rate is counted, by the `smpMod` attribute: 0 for
/// samples per period, which also stands for anything unknown, 1 for
/// samples per second, 2 for seconds per sample.
pub open spec fn smpmod_of(o: Option<Seq<char>>) -> i8 {
    if attr_is(o, "SmpPerPeriod"@) {
        0
    } else if attr_is(o, "SmpPerSec"@) {
        1
    } else if attr_is(o, "SecPerSmp"@) {
        2
    } else {
        0
    }
}

/// Reads how the sample rate is counted.
pub fn smpmod_read(o: &Option<String>) -> (r: i8)
    ensures
        r == smpmod_of(opt_string_view(*o)),
{
    if attr_spells(o, "SmpPerPeriod") {
        0
    } else if attr_spells(o, "SmpPerSec") {
        1
    } else if attr_spells(o, "SecPerSmp") {
        2
    } else {
        0
    }
}

/// The longest identifier that a sampled value control block may have in
/// an edition, in bytes.
pub open spec fn svcb_id_limit(edition: u32) -> nat {
    if edition == 2 {
        MVL61850_MAX_OBJREF_LEN as nat
    } else {
        MVL61850_MAX_RPTID_LEN as nat
    }
}

/// The sampled value control block that has all its numbers.
pub open spec fn svcb_with(
    st: IcdParseContext2View,
    smprate: u32,
    nofasdu: u32,
    confrev: u32,
) -> SclSvcbView {
    SclSvcbView {
        name: trimmed_or_empty(st.attr("name"@)),
        desc: text_or_empty(st.attr("desc"@)),
        datset: trimmed_or_empty(st.attr("datSet"@)),
        smvid: trimmed_or_empty(st.attr("smvID"@)),
        smprate,
        nofasdu,
        confrev,
        multicast: !attr_is(st.attr("multicast"@), "false"@),
        optflds: seq![0u8],
        securitypres: false,
        datarefpres: false,
        smpmod: smpmod_of(st.attr("smpMod"@)),
    }
}

/// What the attributes of a `SampledValueControl` element give: whether
/// one of `name`, `smvID`, `smpRate` and `nofASDU` was found missing
/// before the reading ended, and the control block, unless its identifier
/// is too long for the edition or one of its numbers is no number. A
/// missing attribute does not end the reading.
pub open spec fn svcb_of(st: IcdParseContext2View) -> (bool, Option<SclSvcbView>) {
    let m1 = st.attr("name"@) is None;
    if byte_len(trimmed_or_empty(st.attr("smvID"@))) > svcb_id_limit(st.info().edition) {
        (m1, None)
    } else {
        let m2 = m1 || st.attr("smvID"@) is None;
        match number_or(st.attr("smpRate"@), 0) {
            None => (m2, None),
            Some(smprate) => {
                let m3 = m2 || st.attr("smpRate"@) is None;
                match number_or(st.attr("nofASDU"@), 0) {
                    None => (m3, None),
                    Some(nofasdu) => {
                        let m4 = m3 || st.attr("nofASDU"@) is None;
                        match number_or(st.attr("confRev"@), 0) {
                            None => (m4, None),
                            Some(confrev) => (m4, Some(svcb_with(st, smprate, nofasdu, confrev))),
                        }
                    },
                }
            },
        }
    }
}

/// Reads the attributes of a `SampledValueControl` element.
pub fn svcb_read(ctx: &IcdParseContext2) -> (r: (bool, Option<SclSvcb>))
    ensures
        r.0 == svcb_of(ctx@).0,
        match r.1 {
            Some(x) => svcb_of(ctx@).1 == Some(x@),
            None => svcb_of(ctx@).1 is None,
        },
{
    let name_attr = ctx.opt_attr("name");
    let m1 = name_attr.is_none();
    let name = trim_or_empty(&name_attr);
    let smvid_attr = ctx.opt_attr("smvID");
    let smvid = trim_or_empty(&smvid_attr);
    let limit = if ctx.scl_dec_ctrl.sclinfo.edition == 2 {
        MVL61850_MAX_OBJREF_LEN
    } else {
        MVL61850_MAX_RPTID_LEN
    };
    if str_byte_len(smvid.as_str()) > limit {
        return (m1, None);
    }
    let m2 = m1 || smvid_attr.is_none();
    let smprate_attr = ctx.opt_attr("smpRate");
    let smprate = match read_number_or(&smprate_attr, 0) {
        Some(v) => v,
        None => {
            return (m2, None);
        },
    };
    let m3 = m2 || smprate_attr.is_none();
    let nofasdu_attr = ctx.opt_attr("nofASDU");
    let nofasdu = match read_number_or(&nofasdu_attr, 0) {
        Some(v) => v,
        None => {
            return (m3, None);
        },
    };
    let m4 = m3 || nofasdu_attr.is_none();
    let desc = or_empty(ctx.opt_attr("desc"));
    let datset = trim_or_empty(&ctx.opt_attr("datSet"));
    let confrev = match read_number_or(&ctx.opt_attr("confRev"), 0) {
        Some(v) => v,
        None => {
            return (m4, None);
        },
    };
    let multicast = !attr_spells(&ctx.opt_attr("multicast"), "false");
    let smpmod = smpmod_read(&ctx.opt_attr("smpMod"));
    let svcb = SclSvcb {
        name,
        desc,
        datset,
        smvid,
        smprate,
        nofasdu,
        confrev,
        multicast,
        optflds: [0u8; 1],
        securitypres: false,
        datarefpres: false,
        smpmod,
    };
    assert(svcb@.optflds =~= seq![0u8]);
    (m4, Some(svcb))
}

/// The state in which a `SampledValueControl` element goes on after its
/// attributes were read: that of a missing attribute, if one was missing.
pub open spec fn svcb_base(st: IcdParseContext2View) -> IcdParseContext2View {
    if svcb_of(st).0 {
        st.attr_missing()
    } else {
        st
    }
}

/// `SampledValueControl` opens: a sampled value control block is added to
/// the last logical node.
pub open spec fn sampledvaluecontrol_start(st: IcdParseContext2View) -> IcdParseContext2View {
    match svcb_of(st).1 {
        Some(svcb) => if st.info().has_ln() {
            svcb_base(st).with_info(st.info().add_svcb(svcb)).pushed(seq![46usize])
        } else {
            svcb_base(st).user_error()
        },
        None => svcb_base(st).user_error(),
    }
}

/// `SampledValueControl`.
pub open spec fn sampledvaluecontrol_model(st: IcdParseContext2View) -> IcdParseContext2View {
    if st.reason == SX_ELEMENT_START {
        sampledvaluecontrol_start(st)
    } else {
        st.popped()
    }
}

/// Handles the opening of `SampledValueControl`.
pub fn sampledvaluecontrol_sfun(ctx: &mut IcdParseContext2)
    ensures
        final(ctx)@ == sampledvaluecontrol_start(old(ctx)@),
{
    let (missing, node) = svcb_read(ctx);
    if missing {
        ctx.refuse(Refusal::Missing);
    }
    match node {
        Some(svcb) => {
            if has_ln(&ctx.scl_dec_ctrl.sclinfo) {
                add_svcb(&mut ctx.scl_dec_ctrl.sclinfo, svcb);
                ctx.sx_push(vec![46]);
                assert(ctx@ =~~= sampledvaluecontrol_start(old(ctx)@));
            } else {
                ctx.set_user_error();
            }
        },
        None => {
            ctx.set_user_error();
        },
    }
}

/// Handles the closing of `SampledValueControl`.
pub fn sampledvaluecontrol_efun(ctx: &mut IcdParseContext2)
    ensures
        final(ctx)@ == old(ctx)@.popped(),
{
    ctx.sx_pop();
}

/// Handles `SampledValueControl`.
pub fn sampledvaluecontrol_sefun(ctx: &mut IcdParseContext2)
    ensures
        final(ctx)@ == sampledvaluecontrol_model(old(ctx)@),
{
    if ctx.reason == SX_ELEMENT_START {
        sampledvaluecontrol_sfun(ctx);
    } else {
        sampledvaluecontrol_efun(ctx);
    }
}

/// The options that the attributes of an `SmvOpts` element ask for: one
/// bit for each attribute that says `true`. In edition 2 the samples are
/// always synchronized, and only there the data set and the security bit
/// can be on.
pub open spec fn smvopts_of(st: IcdParseContext2View) -> Seq<u8> {
    let ed2 = st.info().edition == 2;
    let b1 = bit_on_if(
        seq![0u8],
        attr_is(st.attr("sampleRate"@), "true"@),
        SVOPT_BITNUM_SMPRATE as int,
    );
    let b2 = bit_on_if(b1, attr_is(st.attr("refreshTime"@), "true"@), SVOPT_BITNUM_REFRTM as int);
    let b3 = bit_on_if(
        b2,
        attr_is(st.attr("sampleSynchronized"@), "true"@),
        SVOPT_BITNUM_SMPSYNCH as int,
    );
    let b4 = bit_on_if(
        b3,
        ed2 && !bit_is_set(b3, SVOPT_BITNUM_SMPSYNCH as int),
        SVOPT_BITNUM_SMPSYNCH as int,
    );
    let b5 = bit_on_if(
        b4,
        ed2 && attr_is(st.attr("dataSet"@), "true"@),
        SVOPT_BITNUM_DATSET as int,
    );
    bit_on_if(b5, ed2 && attr_is(st.attr("security"@), "true"@), SVOPT_BITNUM_SECURITY as int)
}

/// Reads the options that an `SmvOpts` element asks for.
pub fn smvopts_read(ctx: &IcdParseContext2) -> (r: [u8; 1])
    ensures
        r@ == smvopts_of(ctx@),
{
    let ed2 = ctx.scl_dec_ctrl.sclinfo.edition == 2;
    let mut optflds: [u8; 1] = [0u8; 1];
    assert(optflds@ =~= seq![0u8]);
    set_bit_if(
        &mut optflds,
        attr_spells(&ctx.opt_attr("sampleRate"), "true"),
        SVOPT_BITNUM_SMPRATE,
    );
    set_bit_if(
        &mut optflds,
        attr_spells(&ctx.opt_attr("refreshTime"), "true"),
        SVOPT_BITNUM_REFRTM,
    );
    set_bit_if(
        &mut optflds,
        attr_spells(&ctx.opt_attr("sampleSynchronized"), "true"),
        SVOPT_BITNUM_SMPSYNCH,
    );
    let forced = ed2 && !bstr_bit_get(&optflds, SVOPT_BITNUM_SMPSYNCH);
    set_bit_if(&mut optflds, forced, SVOPT_BITNUM_SMPSYNCH);
    let dataset = ed2 && attr_spells(&ctx.opt_attr("dataSet"), "true");
    set_bit_if(&mut optflds, dataset, SVOPT_BITNUM_DATSET);
    let security = ed2 && attr_spells(&ctx.opt_attr("security"), "true");
    set_bit_if(&mut optflds, security, SVOPT_BITNUM_SECURITY);
    optflds
}

/// `SmvOpts`: the last sampled value control block takes its options, and
/// whether security and a data reference were asked for.
pub open spec fn smvopts_model(st: IcdParseContext2View) -> IcdParseContext2View {
    if st.info().has_svcb() {
        st.with_info(
            st.info().with_svcb(
                SclSvcbView {
                    optflds: smvopts_of(st),
                    securitypres: attr_is(st.attr("security"@), "true"@),
                    datarefpres: attr_is(st.attr("dataRef"@), "true"@),
                    ..st.info().svcb()
                },
            ),
        )
    } else {
        st.user_error()
    }
}

/// Handles `SmvOpts`.
pub fn smvopts_sfun(ctx: &mut IcdParseContext2)
    ensures
        final(ctx)@ == smvopts_model(old(ctx)@),
{
    if !has_svcb(&ctx.scl_dec_ctrl.sclinfo) {
        ctx.set_user_error();
        return ;
    }
    let optflds = smvopts_read(ctx);
    let security = attr_spells(&ctx.opt_attr("security"), "true");
    let dataref = attr_spells(&ctx.opt_attr("dataRef"), "true");
    let svcb = svcb_mut(&mut ctx.scl_dec_ctrl.sclinfo);
    svcb.optflds = optflds;
    svcb.securitypres = security;
    svcb.datarefpres = dataref;
    assert(ctx@ =~~= smvopts_model(old(ctx)@));
}

} // verus!
