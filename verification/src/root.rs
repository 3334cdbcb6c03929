//! The handlers of the outermost elements: the root of the document, its
//! header, its sections, and the device and access point that are asked for.

use crate::consts::{MAX_IDENT_LEN, SCL_NAMESTRUCTURE_IEDNAME, SX_ELEMENT_START};
use crate::context::{initial_services, IcdParseContext2, IcdParseContext2View, SclDecCtrlView};
use crate::model::{
    SclHeaderView, SclInfoView, SclServOpt, SclServOptView, SclServer, SclServerView, SclServices,
};
use crate::text::{byte_len, same_name, same_text, str_byte_len, str_trim, trim_ws};
use crate::validate::{chk_mms_ident_legal, mms_ident_legal};
use vstd::prelude::*;

verus! {

impl IcdParseContext2View {
    /// The state with other things kept between elements.
    pub open spec fn with_dec(self, scl_dec_ctrl: SclDecCtrlView) -> Self {
        IcdParseContext2View { scl_dec_ctrl, ..self }
    }
}

/// The edition of a document: the one that the caller forces, which is 1
/// unless 2 is asked for, or else the one that the root element shows,
/// which is 2 exactly if it has both a version and a revision.
pub open spec fn edition_of(force: u32, version: bool, revision: bool) -> u32 {
    if force != 0 {
        if force == 1 || force == 2 {
            force
        } else {
            1
        }
    } else if version && revision {
        2
    } else {
        1
    }
}

/// `SCL`: the edition is settled when the root opens; when it closes,
/// every table is closed.
pub open spec fn scl_model(st: IcdParseContext2View) -> IcdParseContext2View {
    if st.reason == SX_ELEMENT_START {
        st.with_info(
            SclInfoView {
                edition: edition_of(
                    st.info().options.forceedition,
                    st.attr("version"@) is Some,
                    st.attr("revision"@) is Some,
                ),
                ..st.info()
            },
        ).pushed(seq![1usize, 2, 3, 4])
    } else {
        IcdParseContext2View { items: seq![], ..st }
    }
}

/// Handles `SCL`.
pub fn scl_sefun(ctx: &mut IcdParseContext2)
    ensures
        final(ctx)@ == scl_model(old(ctx)@),
{
    if ctx.reason == SX_ELEMENT_START {
        let force = ctx.scl_dec_ctrl.sclinfo.options.forceedition;
        if force != 0 {
            if force == 1 || force == 2 {
                ctx.scl_dec_ctrl.sclinfo.edition = force;
            } else {
                ctx.scl_dec_ctrl.sclinfo.edition = 1;
            }
        } else {
            let version = ctx.opt_attr("version");
            let revision = ctx.opt_attr("revision");
            if revision.is_some() && version.is_some() {
                ctx.scl_dec_ctrl.sclinfo.edition = 2;
            } else {
                ctx.scl_dec_ctrl.sclinfo.edition = 1;
            }
        }
        ctx.sx_push(vec![1, 2, 3, 4]);
        assert(ctx@ =~~= scl_model(old(ctx)@));
    } else {
        ctx.items.clear();
        assert(ctx@ =~~= scl_model(old(ctx)@));
    }
}

/// `Header`: the identifier of the document is kept unless it is longer
/// than an identifier may be.
pub open spec fn header_model(st: IcdParseContext2View) -> IcdParseContext2View {
    match st.attr("id"@) {
        None => st.attr_missing(),
        Some(id) => if byte_len(id) > MAX_IDENT_LEN {
            st
        } else {
            st.with_info(
                SclInfoView {
                    header: SclHeaderView { id, namestructure: SCL_NAMESTRUCTURE_IEDNAME },
                    ..st.info()
                },
            )
        },
    }
}

/// Handles `Header`.
pub fn header_sfun(ctx: &mut IcdParseContext2)
    ensures
        final(ctx)@ == header_model(old(ctx)@),
{
    match ctx.req_attr("id") {
        Some(id) => {
            if str_byte_len(id.as_str()) > MAX_IDENT_LEN {
                return ;
            }
            ctx.scl_dec_ctrl.sclinfo.header.id = id;
        },
        None => {
            return ;
        },
    }
    ctx.scl_dec_ctrl.sclinfo.header.namestructure = SCL_NAMESTRUCTURE_IEDNAME;
}

/// `Communication`: only opens the table of its children.
pub open spec fn communication_model(st: IcdParseContext2View) -> IcdParseContext2View {
    if st.reason == SX_ELEMENT_START {
        st.pushed(seq![5usize])
    } else {
        st.popped()
    }
}

/// Handles `Communication`.
pub fn communication_sefun(ctx: &mut IcdParseContext2)
    ensures
        final(ctx)@ == communication_model(old(ctx)@),
{
    if ctx.reason == SX_ELEMENT_START {
        ctx.sx_push(vec![5]);
        assert(ctx@ =~~= communication_model(old(ctx)@));
    } else {
        ctx.sx_pop();
    }
}

/// `DataTypeTemplates`: only opens the table of its children.
pub open spec fn datatypetemplates_model(st: IcdParseContext2View) -> IcdParseContext2View {
    if st.reason == SX_ELEMENT_START {
        st.pushed(seq![8usize, 9, 10, 11])
    } else {
        st.popped()
    }
}

/// Handles `DataTypeTemplates`.
pub fn datatypetemplates_sefun(ctx: &mut IcdParseContext2)
    ensures
        final(ctx)@ == datatypetemplates_model(old(ctx)@),
{
    if ctx.reason == SX_ELEMENT_START {
        ctx.sx_push(vec![8, 9, 10, 11]);
        assert(ctx@ =~~= datatypetemplates_model(old(ctx)@));
    } else {
        ctx.sx_pop();
    }
}

/// Sets the services of a device to what holds before its `Services`
/// element is read: none is offered, and every report setting is `Fix`.
pub fn scl_services_init(scl_services: &mut SclServices)
    ensures
        final(scl_services)@ == initial_services(),
{
    scl_services.getdirectory = false;
    scl_services.getdataobjectdefinition = false;
    scl_services.dataobjectdirectory = false;
    scl_services.getdatasetvalue = false;
    scl_services.setdatasetvalue = false;
    scl_services.datasetdirectory = false;
    scl_services.readwrite = false;
    scl_services.timeractivatedcontrol = false;
    scl_services.getcbvalues = false;
    scl_services.gsedir = false;
    scl_services.filehandling = false;
    scl_services.confldname = false;
    scl_services.conflogcontrol.enabled = false;
    scl_services.conflogcontrol.max = 0;
    scl_services.goose.enabled = false;
    scl_services.goose.max = 0;
    scl_services.gsse.enabled = false;
    scl_services.gsse.max = 0;
    scl_services.smvsc.enabled = false;
    scl_services.smvsc.max = 0;
    scl_services.supsubscription.enabled = false;
    scl_services.supsubscription.max = 0;
    scl_services.confsigref.enabled = false;
    scl_services.confsigref.max = 0;
    scl_services.reportsettings.cbname = "Fix".to_string();
    scl_services.reportsettings.datset = "Fix".to_string();
    scl_services.reportsettings.rptid = "Fix".to_string();
    scl_services.reportsettings.optfields = "Fix".to_string();
    scl_services.reportsettings.buftime = "Fix".to_string();
    scl_services.reportsettings.trgops = "Fix".to_string();
    scl_services.reportsettings.intgpd = "Fix".to_string();
    scl_services.reportsettings.resvtms = false;
    scl_services.reportsettings.owner = false;
}

/// `IED`: a device without a legal name stops the walk. The device whose
/// name is the one asked for gets fresh services and has its children
/// read; any other device is passed over. When the element closes, the
/// table of the device that was asked for is closed.
pub open spec fn ied_model(st: IcdParseContext2View) -> IcdParseContext2View {
    if st.reason == SX_ELEMENT_START {
        match st.attr("name"@) {
            None => st.user_error_stop(),
            Some(name) => if !mms_ident_legal(name) {
                st.user_error_stop()
            } else if same_name(name, st.scl_dec_ctrl.iedname) {
                st.with_dec(
                    SclDecCtrlView {
                        iednameproc: name,
                        scl_services: initial_services(),
                        iednamematched: true,
                        ..st.scl_dec_ctrl
                    },
                ).pushed(seq![6usize, 7])
            } else {
                st.with_dec(SclDecCtrlView { iednameproc: name, ..st.scl_dec_ctrl })
            },
        }
    } else if st.scl_dec_ctrl.iednamematched {
        st.with_dec(
            SclDecCtrlView { iednameproc: seq![], iednamematched: false, ..st.scl_dec_ctrl },
        ).popped()
    } else {
        st.with_dec(SclDecCtrlView { iednameproc: seq![], ..st.scl_dec_ctrl })
    }
}

/// Handles `IED`.
pub fn ied_sefun(ctx: &mut IcdParseContext2)
    ensures
        final(ctx)@ == ied_model(old(ctx)@),
{
    if ctx.reason == SX_ELEMENT_START {
        let name = match ctx.req_attr("name") {
            Some(name) => name,
            None => {
                ctx.set_user_error();
                ctx.termflag = true;
                return ;
            },
        };
        if !chk_mms_ident_legal(name.as_str()) {
            ctx.set_user_error();
            ctx.termflag = true;
            return ;
        }
        let match_found = same_text(name.as_str(), ctx.scl_dec_ctrl.iedname.as_str());
        ctx.scl_dec_ctrl.iednameproc = name;
        if match_found {
            scl_services_init(&mut ctx.scl_dec_ctrl.scl_services);
            ctx.scl_dec_ctrl.iednamematched = true;
            ctx.sx_push(vec![6, 7]);
            assert(ctx@ =~~= ied_model(old(ctx)@));
        }
    } else {
        ctx.scl_dec_ctrl.iednameproc = String::new();
        if ctx.scl_dec_ctrl.iednamematched {
            ctx.scl_dec_ctrl.iednamematched = false;
            ctx.sx_pop();
        }
    }
}

/// The options of a server that no document sets.
pub open spec fn blank_serv_opt() -> SclServOptView {
    SclServOptView { reportscanratems: 0, brcb_bufsize: 0, logscanratems: 0, logmaxentries: 0 }
}

/// Whether an access point is the one asked for: its name, without the
/// white space around it, is the name that the caller gave.
pub open spec fn accesspoint_matches(st: IcdParseContext2View, name: Seq<char>) -> bool {
    same_name(trim_ws(name), st.scl_dec_ctrl.accesspointname)
}

/// `AccessPoint`: the access point that is asked for gets a server, which
/// takes the name of the device and its services as they stand, and has
/// its children read; any other access point is passed over. When the
/// element closes, the table of the access point that was asked for is
/// closed.
pub open spec fn accesspoint_model(st: IcdParseContext2View) -> IcdParseContext2View {
    if st.reason == SX_ELEMENT_START {
        match st.attr("name"@) {
            None => st.attr_missing(),
            Some(name) => if accesspoint_matches(st, name) {
                st.with_dec(
                    SclDecCtrlView {
                        accesspointfound: true,
                        accesspointmatched: true,
                        sclinfo: SclInfoView {
                            server_vec: st.info().server_vec.push(
                                SclServerView {
                                    serv_opt: blank_serv_opt(),
                                    ld_vec: seq![],
                                    iedname: st.scl_dec_ctrl.iednameproc,
                                    apname: name,
                                    scl_services: st.scl_dec_ctrl.scl_services,
                                },
                            ),
                            ..st.info()
                        },
                        ..st.scl_dec_ctrl
                    },
                ).pushed(seq![23usize])
            } else {
                st
            },
        }
    } else if st.scl_dec_ctrl.accesspointmatched {
        st.with_dec(SclDecCtrlView { accesspointmatched: false, ..st.scl_dec_ctrl }).popped()
    } else {
        st
    }
}

/// Handles `AccessPoint`.
pub fn accesspoint_sefun(ctx: &mut IcdParseContext2)
    ensures
        final(ctx)@ == accesspoint_model(old(ctx)@),
{
    if ctx.reason == SX_ELEMENT_START {
        let name = match ctx.req_attr("name") {
            Some(name) => name,
            None => {
                return ;
            },
        };
        let match_found = same_text(
            str_trim(name.as_str()),
            ctx.scl_dec_ctrl.accesspointname.as_str(),
        );
        if match_found {
            let scl_server = SclServer {
                serv_opt: SclServOpt {
                    reportscanratems: 0,
                    brcb_bufsize: 0,
                    logscanratems: 0,
                    logmaxentries: 0,
                },
                ld_vec: Vec::new(),
                iedname: ctx.scl_dec_ctrl.iednameproc.clone(),
                apname: name,
                scl_services: ctx.scl_dec_ctrl.scl_services.clone(),
            };
            ctx.scl_dec_ctrl.accesspointfound = true;
            ctx.scl_dec_ctrl.accesspointmatched = true;
            ctx.scl_dec_ctrl.sclinfo.server_vec.push(scl_server);
            ctx.sx_push(vec![23]);
            assert(ctx@ =~~= accesspoint_model(old(ctx)@));
        }
    } else {
        if ctx.scl_dec_ctrl.accesspointmatched {
            ctx.scl_dec_ctrl.accesspointmatched = false;
            ctx.sx_pop();
        }
    }
}

/// `Server`: only opens the table of its children.
pub open spec fn server_model(st: IcdParseContext2View) -> IcdParseContext2View {
    if st.reason == SX_ELEMENT_START {
        st.pushed(seq![24usize])
    } else {
        st.popped()
    }
}

/// Handles `Server`.
pub fn server_sefun(ctx: &mut IcdParseContext2)
    ensures
        final(ctx)@ == server_model(old(ctx)@),
{
    if ctx.reason == SX_ELEMENT_START {
        ctx.sx_push(vec![24]);
        assert(ctx@ =~~= server_model(old(ctx)@));
    } else {
        ctx.sx_pop();
    }
}

} // verus!
