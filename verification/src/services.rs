//! The handlers of the `Services` section: what a device declares that it
//! offers.

use crate::consts::SX_ELEMENT_START;
use crate::context::{IcdParseContext2, IcdParseContext2View, SclDecCtrlView};
use crate::model::{
    SclReportsettings, SclReportsettingsView, SclServiceWithMaxView, SclServices, SclServicesView,
};
use crate::text::{attr_is, attr_spells, opt_string_view, parse_u32, str_parse_u32};
use vstd::prelude::*;

verus! {

impl IcdParseContext2View {
    /// The state with other services of the device.
    pub open spec fn with_services(self, scl_services: SclServicesView) -> Self {
        self.with_dec(SclDecCtrlView { scl_services, ..self.scl_dec_ctrl })
    }

    /// The services of the device as they stand.
    pub open spec fn services(self) -> SclServicesView {
        self.scl_dec_ctrl.scl_services
    }
}

/// The positions of the children of `Services` in the list of all tables.
pub open spec fn services_children() -> Seq<usize> {
    seq![60usize, 61, 62, 63, 64, 65, 66, 67, 68, 69, 70, 71, 72, 73, 74, 75, 76, 77, 78]
}

/// `Services`: only opens the table of its children.
pub open spec fn services_model(st: IcdParseContext2View) -> IcdParseContext2View {
    if st.reason == SX_ELEMENT_START {
        st.pushed(services_children())
    } else {
        st.popped()
    }
}

/// Handles `Services`.
pub fn services_sefun(ctx: &mut IcdParseContext2)
    ensures
        final(ctx)@ == services_model(old(ctx)@),
{
    if ctx.reason == SX_ELEMENT_START {
        ctx.sx_push(
            vec![60, 61, 62, 63, 64, 65, 66, 67, 68, 69, 70, 71, 72, 73, 74, 75, 76, 77, 78],
        );
        assert(ctx@ =~~= services_model(old(ctx)@));
    } else {
        ctx.sx_pop();
    }
}

/// The limit that the `max` attribute of a service gives.
pub open spec fn service_max(st: IcdParseContext2View) -> Option<u32> {
    match st.attr("max"@) {
        Some(txt) => parse_u32(txt),
        None => None,
    }
}

/// A service that is offered up to `max`.
pub open spec fn up_to(max: u32) -> SclServiceWithMaxView {
    SclServiceWithMaxView { enabled: true, max }
}

/// The state after a service with a limit was read: a missing limit and
/// a limit that is no number are refused; else the device offers the
/// service as `offered` says.
pub open spec fn limited_service(
    st: IcdParseContext2View,
    offered: SclServicesView,
) -> IcdParseContext2View {
    match st.attr("max"@) {
        None => st.attr_missing(),
        Some(txt) => if parse_u32(txt) is Some {
            st.with_services(offered)
        } else {
            st.user_error()
        },
    }
}

/// Reads the limit of a service; records a missing limit and a limit
/// that is no number.
fn read_service_max(ctx: &mut IcdParseContext2) -> (r: Option<u32>)
    ensures
        r == service_max(old(ctx)@),
        r is Some ==> final(ctx)@ == old(ctx)@,
        r is None ==> final(ctx)@ == limited_service(old(ctx)@, old(ctx)@.services()),
{
    match ctx.req_attr("max") {
        Some(txt) => match str_parse_u32(txt.as_str()) {
            Some(max) => Some(max),
            None => {
                ctx.set_user_error();
                None
            },
        },
        None => None,
    }
}

/// `GetDirectory`: the device offers this service.
pub open spec fn getdirectory_model(st: IcdParseContext2View) -> IcdParseContext2View {
    st.with_services(SclServicesView { getdirectory: true, ..st.services() })
}

/// Records that the device offers `GetDirectory`.
fn offer_getdirectory(s: &mut SclServices)
    ensures
        final(s)@ == (SclServicesView { getdirectory: true, ..old(s)@ }),
{
    s.getdirectory = true;
}

/// Handles `GetDirectory`.
pub fn getdirectory_sfun(ctx: &mut IcdParseContext2)
    ensures
        final(ctx)@ == getdirectory_model(old(ctx)@),
{
    offer_getdirectory(&mut ctx.scl_dec_ctrl.scl_services);
}

/// `GetDataObjectDefinition`: the device offers this service.
pub open spec fn getdataobjectdefinition_model(st: IcdParseContext2View) -> IcdParseContext2View {
    st.with_services(SclServicesView { getdataobjectdefinition: true, ..st.services() })
}

/// Records that the device offers `GetDataObjectDefinition`.
fn offer_getdataobjectdefinition(s: &mut SclServices)
    ensures
        final(s)@ == (SclServicesView { getdataobjectdefinition: true, ..old(s)@ }),
{
    s.getdataobjectdefinition = true;
}

/// Handles `GetDataObjectDefinition`.
pub fn getdataobjectdefinition_sfun(ctx: &mut IcdParseContext2)
    ensures
        final(ctx)@ == getdataobjectdefinition_model(old(ctx)@),
{
    offer_getdataobjectdefinition(&mut ctx.scl_dec_ctrl.scl_services);
}

/// `DataObjectDirectory`: the device offers this service.
pub open spec fn dataobjectdirectory_model(st: IcdParseContext2View) -> IcdParseContext2View {
    st.with_services(SclServicesView { dataobjectdirectory: true, ..st.services() })
}

/// Records that the device offers `DataObjectDirectory`.
fn offer_dataobjectdirectory(s: &mut SclServices)
    ensures
        final(s)@ == (SclServicesView { dataobjectdirectory: true, ..old(s)@ }),
{
    s.dataobjectdirectory = true;
}

/// Handles `DataObjectDirectory`.
pub fn dataobjectdirectory_sfun(ctx: &mut IcdParseContext2)
    ensures
        final(ctx)@ == dataobjectdirectory_model(old(ctx)@),
{
    offer_dataobjectdirectory(&mut ctx.scl_dec_ctrl.scl_services);
}

/// `GetDataSetValue`: the device offers this service.
pub open spec fn getdatasetvalue_model(st: IcdParseContext2View) -> IcdParseContext2View {
    st.with_services(SclServicesView { getdatasetvalue: true, ..st.services() })
}

/// Records that the device offers `GetDataSetValue`.
fn offer_getdatasetvalue(s: &mut SclServices)
    ensures
        final(s)@ == (SclServicesView { getdatasetvalue: true, ..old(s)@ }),
{
    s.getdatasetvalue = true;
}

/// Handles `GetDataSetValue`.
pub fn getdatasetvalue_sfun(ctx: &mut IcdParseContext2)
    ensures
        final(ctx)@ == getdatasetvalue_model(old(ctx)@),
{
    offer_getdatasetvalue(&mut ctx.scl_dec_ctrl.scl_services);
}

/// `SetDataSetValue`: the device offers this service.
pub open spec fn setdatasetvalue_model(st: IcdParseContext2View) -> IcdParseContext2View {
    st.with_services(SclServicesView { setdatasetvalue: true, ..st.services() })
}

/// Records that the device offers `SetDataSetValue`.
fn offer_setdatasetvalue(s: &mut SclServices)
    ensures
        final(s)@ == (SclServicesView { setdatasetvalue: true, ..old(s)@ }),
{
    s.setdatasetvalue = true;
}

/// Handles `SetDataSetValue`.
pub fn setdatasetvalue_sfun(ctx: &mut IcdParseContext2)
    ensures
        final(ctx)@ == setdatasetvalue_model(old(ctx)@),
{
    offer_setdatasetvalue(&mut ctx.scl_dec_ctrl.scl_services);
}

/// `DataSetDirectory`: the device offers this service.
pub open spec fn datasetdirectory_model(st: IcdParseContext2View) -> IcdParseContext2View {
    st.with_services(SclServicesView { datasetdirectory: true, ..st.services() })
}

/// Records that the device offers `DataSetDirectory`.
fn offer_datasetdirectory(s: &mut SclServices)
    ensures
        final(s)@ == (SclServicesView { datasetdirectory: true, ..old(s)@ }),
{
    s.datasetdirectory = true;
}

/// Handles `DataSetDirectory`.
pub fn datasetdirectory_sfun(ctx: &mut IcdParseContext2)
    ensures
        final(ctx)@ == datasetdirectory_model(old(ctx)@),
{
    offer_datasetdirectory(&mut ctx.scl_dec_ctrl.scl_services);
}

/// `ReadWrite`: the device offers this service.
pub open spec fn readwrite_model(st: IcdParseContext2View) -> IcdParseContext2View {
    st.with_services(SclServicesView { readwrite: true, ..st.services() })
}

/// Records that the device offers `ReadWrite`.
fn offer_readwrite(s: &mut SclServices)
    ensures
        final(s)@ == (SclServicesView { readwrite: true, ..old(s)@ }),
{
    s.readwrite = true;
}

/// Handles `ReadWrite`.
pub fn readwrite_sfun(ctx: &mut IcdParseContext2)
    ensures
        final(ctx)@ == readwrite_model(old(ctx)@),
{
    offer_readwrite(&mut ctx.scl_dec_ctrl.scl_services);
}

/// `TimerActivatedControl`: the device offers this service.
pub open spec fn timeractivatedcontrol_model(st: IcdParseContext2View) -> IcdParseContext2View {
    st.with_services(SclServicesView { timeractivatedcontrol: true, ..st.services() })
}

/// Records that the device offers `TimerActivatedControl`.
fn offer_timeractivatedcontrol(s: &mut SclServices)
    ensures
        final(s)@ == (SclServicesView { timeractivatedcontrol: true, ..old(s)@ }),
{
    s.timeractivatedcontrol = true;
}

/// Handles `TimerActivatedControl`.
pub fn timeractivatedcontrol_sfun(ctx: &mut IcdParseContext2)
    ensures
        final(ctx)@ == timeractivatedcontrol_model(old(ctx)@),
{
    offer_timeractivatedcontrol(&mut ctx.scl_dec_ctrl.scl_services);
}

/// `GetCBValues`: the device offers this service.
pub open spec fn getcbvalues_model(st: IcdParseContext2View) -> IcdParseContext2View {
    st.with_services(SclServicesView { getcbvalues: true, ..st.services() })
}

/// Records that the device offers `GetCBValues`.
fn offer_getcbvalues(s: &mut SclServices)
    ensures
        final(s)@ == (SclServicesView { getcbvalues: true, ..old(s)@ }),
{
    s.getcbvalues = true;
}

/// Handles `GetCBValues`.
pub fn getcbvalues_sfun(ctx: &mut IcdParseContext2)
    ensures
        final(ctx)@ == getcbvalues_model(old(ctx)@),
{
    offer_getcbvalues(&mut ctx.scl_dec_ctrl.scl_services);
}

/// `GSEDir`: the device offers this service.
pub open spec fn gsedir_model(st: IcdParseContext2View) -> IcdParseContext2View {
    st.with_services(SclServicesView { gsedir: true, ..st.services() })
}

/// Records that the device offers `GSEDir`.
fn offer_gsedir(s: &mut SclServices)
    ensures
        final(s)@ == (SclServicesView { gsedir: true, ..old(s)@ }),
{
    s.gsedir = true;
}

/// Handles `GSEDir`.
pub fn gsedir_sfun(ctx: &mut IcdParseContext2)
    ensures
        final(ctx)@ == gsedir_model(old(ctx)@),
{
    offer_gsedir(&mut ctx.scl_dec_ctrl.scl_services);
}

/// `FileHandling`: the device offers this service.
pub open spec fn filehandling_model(st: IcdParseContext2View) -> IcdParseContext2View {
    st.with_services(SclServicesView { filehandling: true, ..st.services() })
}

/// Records that the device offers `FileHandling`.
fn offer_filehandling(s: &mut SclServices)
    ensures
        final(s)@ == (SclServicesView { filehandling: true, ..old(s)@ }),
{
    s.filehandling = true;
}

/// Handles `FileHandling`.
pub fn filehandling_sfun(ctx: &mut IcdParseContext2)
    ensures
        final(ctx)@ == filehandling_model(old(ctx)@),
{
    offer_filehandling(&mut ctx.scl_dec_ctrl.scl_services);
}

/// `ConfLdName`: the device offers this service.
pub open spec fn confldname_model(st: IcdParseContext2View) -> IcdParseContext2View {
    st.with_services(SclServicesView { confldname: true, ..st.services() })
}

/// Records that the device offers `ConfLdName`.
fn offer_confldname(s: &mut SclServices)
    ensures
        final(s)@ == (SclServicesView { confldname: true, ..old(s)@ }),
{
    s.confldname = true;
}

/// Handles `ConfLdName`.
pub fn confldname_sfun(ctx: &mut IcdParseContext2)
    ensures
        final(ctx)@ == confldname_model(old(ctx)@),
{
    offer_confldname(&mut ctx.scl_dec_ctrl.scl_services);
}

/// `ConfLogControl`: the device offers this service up to the limit that `max` gives.
pub open spec fn conflogcontrol_model(st: IcdParseContext2View) -> IcdParseContext2View {
    limited_service(
        st,
        SclServicesView { conflogcontrol: up_to(service_max(st).unwrap_or(0)), ..st.services() },
    )
}

/// Records that the device offers `ConfLogControl` up to `max`.
fn offer_conflogcontrol(s: &mut SclServices, max: u32)
    ensures
        final(s)@ == (SclServicesView { conflogcontrol: up_to(max), ..old(s)@ }),
{
    s.conflogcontrol.max = max;
    s.conflogcontrol.enabled = true;
}

/// Handles `ConfLogControl`.
pub fn conflogcontrol_sfun(ctx: &mut IcdParseContext2)
    ensures
        final(ctx)@ == conflogcontrol_model(old(ctx)@),
{
    match read_service_max(ctx) {
        Some(max) => {
            offer_conflogcontrol(&mut ctx.scl_dec_ctrl.scl_services, max);
        },
        None => {},
    }
}

/// `GOOSE`: the device offers this service up to the limit that `max` gives.
pub open spec fn goose_model(st: IcdParseContext2View) -> IcdParseContext2View {
    limited_service(
        st,
        SclServicesView { goose: up_to(service_max(st).unwrap_or(0)), ..st.services() },
    )
}

/// Records that the device offers `GOOSE` up to `max`.
fn offer_goose(s: &mut SclServices, max: u32)
    ensures
        final(s)@ == (SclServicesView { goose: up_to(max), ..old(s)@ }),
{
    s.goose.max = max;
    s.goose.enabled = true;
}

/// Handles `GOOSE`.
pub fn goose_sfun(ctx: &mut IcdParseContext2)
    ensures
        final(ctx)@ == goose_model(old(ctx)@),
{
    match read_service_max(ctx) {
        Some(max) => {
            offer_goose(&mut ctx.scl_dec_ctrl.scl_services, max);
        },
        None => {},
    }
}

/// `GSSE`: the device offers this service up to the limit that `max` gives.
pub open spec fn gsse_model(st: IcdParseContext2View) -> IcdParseContext2View {
    limited_service(
        st,
        SclServicesView { gsse: up_to(service_max(st).unwrap_or(0)), ..st.services() },
    )
}

/// Records that the device offers `GSSE` up to `max`.
fn offer_gsse(s: &mut SclServices, max: u32)
    ensures
        final(s)@ == (SclServicesView { gsse: up_to(max), ..old(s)@ }),
{
    s.gsse.max = max;
    s.gsse.enabled = true;
}

/// Handles `GSSE`.
pub fn gsse_sfun(ctx: &mut IcdParseContext2)
    ensures
        final(ctx)@ == gsse_model(old(ctx)@),
{
    match read_service_max(ctx) {
        Some(max) => {
            offer_gsse(&mut ctx.scl_dec_ctrl.scl_services, max);
        },
        None => {},
    }
}

/// `SMVsc`: the device offers this service up to the limit that `max` gives.
pub open spec fn smvsc_model(st: IcdParseContext2View) -> IcdParseContext2View {
    limited_service(
        st,
        SclServicesView { smvsc: up_to(service_max(st).unwrap_or(0)), ..st.services() },
    )
}

/// Records that the device offers `SMVsc` up to `max`.
fn offer_smvsc(s: &mut SclServices, max: u32)
    ensures
        final(s)@ == (SclServicesView { smvsc: up_to(max), ..old(s)@ }),
{
    s.smvsc.max = max;
    s.smvsc.enabled = true;
}

/// Handles `SMVsc`.
pub fn smvsc_sfun(ctx: &mut IcdParseContext2)
    ensures
        final(ctx)@ == smvsc_model(old(ctx)@),
{
    match read_service_max(ctx) {
        Some(max) => {
            offer_smvsc(&mut ctx.scl_dec_ctrl.scl_services, max);
        },
        None => {},
    }
}

/// `SupSubscription`: the device offers this service up to the limit that `max` gives.
pub open spec fn supsubscription_model(st: IcdParseContext2View) -> IcdParseContext2View {
    limited_service(
        st,
        SclServicesView { supsubscription: up_to(service_max(st).unwrap_or(0)), ..st.services() },
    )
}

/// Records that the device offers `SupSubscription` up to `max`.
fn offer_supsubscription(s: &mut SclServices, max: u32)
    ensures
        final(s)@ == (SclServicesView { supsubscription: up_to(max), ..old(s)@ }),
{
    s.supsubscription.max = max;
    s.supsubscription.enabled = true;
}

/// Handles `SupSubscription`.
pub fn supsubscription_sfun(ctx: &mut IcdParseContext2)
    ensures
        final(ctx)@ == supsubscription_model(old(ctx)@),
{
    match read_service_max(ctx) {
        Some(max) => {
            offer_supsubscription(&mut ctx.scl_dec_ctrl.scl_services, max);
        },
        None => {},
    }
}

/// `ConfSigRef`: the device offers this service up to the limit that `max` gives.
pub open spec fn confsigref_model(st: IcdParseContext2View) -> IcdParseContext2View {
    limited_service(
        st,
        SclServicesView { confsigref: up_to(service_max(st).unwrap_or(0)), ..st.services() },
    )
}

/// Records that the device offers `ConfSigRef` up to `max`.
fn offer_confsigref(s: &mut SclServices, max: u32)
    ensures
        final(s)@ == (SclServicesView { confsigref: up_to(max), ..old(s)@ }),
{
    s.confsigref.max = max;
    s.confsigref.enabled = true;
}

/// Handles `ConfSigRef`.
pub fn confsigref_sfun(ctx: &mut IcdParseContext2)
    ensures
        final(ctx)@ == confsigref_model(old(ctx)@),
{
    match read_service_max(ctx) {
        Some(max) => {
            offer_confsigref(&mut ctx.scl_dec_ctrl.scl_services, max);
        },
        None => {},
    }
}

/// One report setting: what its attribute says, or what held before where
/// the attribute is absent.
pub open spec fn setting_or(o: Option<Seq<char>>, before: Seq<char>) -> Seq<char> {
    match o {
        Some(t) => t,
        None => before,
    }
}

/// Sets one report setting where its attribute is present.
fn set_setting(setting: &mut String, o: Option<String>)
    ensures
        final(setting)@ == setting_or(opt_string_view(o), old(setting)@),
{
    match o {
        Some(txt) => {
            *setting = txt;
        },
        None => {},
    }
}

/// The report settings after a `ReportSettings` element was read. The
/// reservation time is on where `resvTms` or `owner` says `true`, and it
/// stays on where it was on before.
pub open spec fn reportsettings_of(
    st: IcdParseContext2View,
    before: SclReportsettingsView,
) -> SclReportsettingsView {
    SclReportsettingsView {
        cbname: setting_or(st.attr("cbName"@), before.cbname),
        datset: setting_or(st.attr("datSet"@), before.datset),
        rptid: setting_or(st.attr("rptID"@), before.rptid),
        optfields: setting_or(st.attr("optFields"@), before.optfields),
        buftime: setting_or(st.attr("bufTime"@), before.buftime),
        trgops: setting_or(st.attr("trgOps"@), before.trgops),
        intgpd: setting_or(st.attr("intgPd"@), before.intgpd),
        resvtms: before.resvtms || attr_is(st.attr("resvTms"@), "true"@) || attr_is(
            st.attr("owner"@),
            "true"@,
        ),
        owner: before.owner,
    }
}

/// Reads the attributes of a `ReportSettings` element into the settings.
fn reportsettings_read(ctx: &IcdParseContext2, settings: &mut SclReportsettings)
    ensures
        final(settings)@ == reportsettings_of(ctx@, old(settings)@),
{
    set_setting(&mut settings.cbname, ctx.opt_attr("cbName"));
    set_setting(&mut settings.datset, ctx.opt_attr("datSet"));
    set_setting(&mut settings.rptid, ctx.opt_attr("rptID"));
    set_setting(&mut settings.optfields, ctx.opt_attr("optFields"));
    set_setting(&mut settings.buftime, ctx.opt_attr("bufTime"));
    set_setting(&mut settings.trgops, ctx.opt_attr("trgOps"));
    set_setting(&mut settings.intgpd, ctx.opt_attr("intgPd"));
    if attr_spells(&ctx.opt_attr("resvTms"), "true") {
        settings.resvtms = true;
    }
    if attr_spells(&ctx.opt_attr("owner"), "true") {
        settings.resvtms = true;
    }
}

/// `ReportSettings`: the report settings of the device are set.
pub open spec fn reportsettings_model(st: IcdParseContext2View) -> IcdParseContext2View {
    st.with_services(
        SclServicesView {
            reportsettings: reportsettings_of(st, st.services().reportsettings),
            ..st.services()
        },
    )
}

/// Stores the report settings of a device.
fn set_reportsettings(s: &mut SclServices, settings: SclReportsettings)
    ensures
        final(s)@ == (SclServicesView { reportsettings: settings@, ..old(s)@ }),
{
    s.reportsettings = settings;
}

/// Handles `ReportSettings`.
pub fn reportsettings_sfun(ctx: &mut IcdParseContext2)
    ensures
        final(ctx)@ == reportsettings_model(old(ctx)@),
{
    let mut settings = ctx.scl_dec_ctrl.scl_services.reportsettings.clone();
    reportsettings_read(ctx, &mut settings);
    set_reportsettings(&mut ctx.scl_dec_ctrl.scl_services, settings);
}

} // verus!
