//! From the name of a handler to the handler.

use crate::context::{IcdParseContext2, IcdParseContext2View};
use crate::table::HandlerId;
use crate::{comm, control, lnode, root, sampled, services, templates, values};
use vstd::prelude::*;

verus! {

/// Whether `handler` names a handler of the root, its sections and the access point.
pub open spec fn is_root_handler(handler: HandlerId) -> bool {
    match handler {
        HandlerId::Scl
        | HandlerId::Header
        | HandlerId::Communication
        | HandlerId::Ied
        | HandlerId::DataTypeTemplates
        | HandlerId::AccessPoint
        | HandlerId::Server => true,
        _ => false,
    }
}

/// What a handler of the root, its sections and the access point makes of a
/// state; any other name changes nothing.
#[verifier::opaque]
pub open spec fn root_handler_model(
    handler: HandlerId,
    st: IcdParseContext2View,
) -> IcdParseContext2View {
    match handler {
        HandlerId::Scl => root::scl_model(st),
        HandlerId::Header => root::header_model(st),
        HandlerId::Communication => root::communication_model(st),
        HandlerId::Ied => root::ied_model(st),
        HandlerId::DataTypeTemplates => root::datatypetemplates_model(st),
        HandlerId::AccessPoint => root::accesspoint_model(st),
        HandlerId::Server => root::server_model(st),
        _ => st,
    }
}

/// Runs a handler of the root, its sections and the access point.
fn root_dispatch(ctx: &mut IcdParseContext2, handler: HandlerId)
    ensures
        final(ctx)@ == root_handler_model(handler, old(ctx)@),
{
    proof {
        reveal(root_handler_model);
    }
    match handler {
        HandlerId::Scl => root::scl_sefun(ctx),
        HandlerId::Header => root::header_sfun(ctx),
        HandlerId::Communication => root::communication_sefun(ctx),
        HandlerId::Ied => root::ied_sefun(ctx),
        HandlerId::DataTypeTemplates => root::datatypetemplates_sefun(ctx),
        HandlerId::AccessPoint => root::accesspoint_sefun(ctx),
        HandlerId::Server => root::server_sefun(ctx),
        _ => {},
    }
}

/// Whether `handler` names a handler of the `Communication` section.
pub open spec fn is_comm_handler(handler: HandlerId) -> bool {
    match handler {
        HandlerId::SubNetwork
        | HandlerId::ConnectedAp
        | HandlerId::Address
        | HandlerId::AddressP
        | HandlerId::Gse
        | HandlerId::Smv
        | HandlerId::GseAddress
        | HandlerId::GseMinTime
        | HandlerId::GseMaxTime
        | HandlerId::GseAddressP
        | HandlerId::SmvAddress
        | HandlerId::SmvAddressP => true,
        _ => false,
    }
}

/// What a handler of the `Communication` section makes of a state; any other name changes nothing.
#[verifier::opaque]
pub open spec fn comm_handler_model(
    handler: HandlerId,
    st: IcdParseContext2View,
) -> IcdParseContext2View {
    match handler {
        HandlerId::SubNetwork => comm::subnetwork_model(st),
        HandlerId::ConnectedAp => comm::connectedap_model(st),
        HandlerId::Address => comm::address_model(st),
        HandlerId::AddressP => comm::address_p_model(st),
        HandlerId::Gse => comm::gse_model(st),
        HandlerId::Smv => comm::smv_model(st),
        HandlerId::GseAddress => comm::gse_address_model(st),
        HandlerId::GseMinTime => comm::gse_mintime_model(st),
        HandlerId::GseMaxTime => comm::gse_maxtime_model(st),
        HandlerId::GseAddressP => comm::gse_address_p_model(st),
        HandlerId::SmvAddress => comm::smv_address_model(st),
        HandlerId::SmvAddressP => comm::smv_address_p_model(st),
        _ => st,
    }
}

/// Runs a handler of the `Communication` section.
fn comm_dispatch(ctx: &mut IcdParseContext2, handler: HandlerId)
    ensures
        final(ctx)@ == comm_handler_model(handler, old(ctx)@),
{
    proof {
        reveal(comm_handler_model);
    }
    match handler {
        HandlerId::SubNetwork => comm::subnetwork_sefun(ctx),
        HandlerId::ConnectedAp => comm::connectedap_sefun(ctx),
        HandlerId::Address => comm::address_sefun(ctx),
        HandlerId::AddressP => comm::address_p_sefun(ctx),
        HandlerId::Gse => comm::gse_sefun(ctx),
        HandlerId::Smv => comm::smv_sefun(ctx),
        HandlerId::GseAddress => comm::gse_address_sefun(ctx),
        HandlerId::GseMinTime => comm::gse_mintime_sefun(ctx),
        HandlerId::GseMaxTime => comm::gse_maxtime_sefun(ctx),
        HandlerId::GseAddressP => comm::gse_address_p_sefun(ctx),
        HandlerId::SmvAddress => comm::smv_address_sefun(ctx),
        HandlerId::SmvAddressP => comm::smv_address_p_sefun(ctx),
        _ => {},
    }
}

/// Whether `handler` names a handler of logical devices, logical nodes and their control blocks.
pub open spec fn is_node_handler(handler: HandlerId) -> bool {
    match handler {
        HandlerId::LDevice
        | HandlerId::Ln
        | HandlerId::DataSet
        | HandlerId::ReportControl
        | HandlerId::SampledValueControl
        | HandlerId::LogControl
        | HandlerId::SettingControl
        | HandlerId::GseControl
        | HandlerId::Inputs
        | HandlerId::Fcda
        | HandlerId::TrgOps
        | HandlerId::OptFlds
        | HandlerId::RptEnabled
        | HandlerId::SmvOpts
        | HandlerId::ExtRef => true,
        _ => false,
    }
}

/// What a handler of logical devices, logical nodes and their control blocks
/// makes of a state; any other name changes nothing.
#[verifier::opaque]
pub open spec fn node_handler_model(
    handler: HandlerId,
    st: IcdParseContext2View,
) -> IcdParseContext2View {
    match handler {
        HandlerId::LDevice => lnode::ldevice_model(st),
        HandlerId::Ln => lnode::ln_model(st),
        HandlerId::DataSet => control::dataset_model(st),
        HandlerId::ReportControl => control::reportcontrol_model(st),
        HandlerId::SampledValueControl => sampled::sampledvaluecontrol_model(st),
        HandlerId::LogControl => control::logcontrol_model(st),
        HandlerId::SettingControl => control::settingcontrol_model(st),
        HandlerId::GseControl => control::gsecontrol_model(st),
        HandlerId::Inputs => control::inputs_model(st),
        HandlerId::Fcda => control::fcda_model(st),
        HandlerId::TrgOps => control::trgops_model(st),
        HandlerId::OptFlds => control::optflds_model(st),
        HandlerId::RptEnabled => control::rptenabled_model(st),
        HandlerId::SmvOpts => sampled::smvopts_model(st),
        HandlerId::ExtRef => control::extref_model(st),
        _ => st,
    }
}

/// Runs a handler of logical devices, logical nodes and their control blocks.
fn node_dispatch(ctx: &mut IcdParseContext2, handler: HandlerId)
    ensures
        final(ctx)@ == node_handler_model(handler, old(ctx)@),
{
    proof {
        reveal(node_handler_model);
    }
    match handler {
        HandlerId::LDevice => lnode::ldevice_sefun(ctx),
        HandlerId::Ln => lnode::ln_sefun(ctx),
        HandlerId::DataSet => control::dataset_sefun(ctx),
        HandlerId::ReportControl => control::reportcontrol_sefun(ctx),
        HandlerId::SampledValueControl => sampled::sampledvaluecontrol_sefun(ctx),
        HandlerId::LogControl => control::logcontrol_sefun(ctx),
        HandlerId::SettingControl => control::settingcontrol_sfun(ctx),
        HandlerId::GseControl => control::gsecontrol_sfun(ctx),
        HandlerId::Inputs => control::inputs_sefun(ctx),
        HandlerId::Fcda => control::fcda_sfun(ctx),
        HandlerId::TrgOps => control::trgops_sfun(ctx),
        HandlerId::OptFlds => control::optflds_sfun(ctx),
        HandlerId::RptEnabled => control::rptenabled_sfun(ctx),
        HandlerId::SmvOpts => sampled::smvopts_sfun(ctx),
        HandlerId::ExtRef => control::extref_sfun(ctx),
        _ => {},
    }
}

/// Whether `handler` names a handler of attribute values and type templates.
pub open spec fn is_data_handler(handler: HandlerId) -> bool {
    match handler {
        HandlerId::Doi
        | HandlerId::Sdi
        | HandlerId::Dai
        | HandlerId::DaiVal
        | HandlerId::LNodeType
        | HandlerId::Do
        | HandlerId::DoType
        | HandlerId::Da
        | HandlerId::Sdo
        | HandlerId::DaVal
        | HandlerId::DaType
        | HandlerId::Bda
        | HandlerId::BdaVal
        | HandlerId::EnumType
        | HandlerId::EnumVal => true,
        _ => false,
    }
}

/// What a handler of attribute values and type templates makes of a state; any
/// other name changes nothing.
#[verifier::opaque]
pub open spec fn data_handler_model(
    handler: HandlerId,
    st: IcdParseContext2View,
) -> IcdParseContext2View {
    match handler {
        HandlerId::Doi => values::doi_model(st),
        HandlerId::Sdi => values::sdi_model(st),
        HandlerId::Dai => values::dai_model(st),
        HandlerId::DaiVal => values::dai_val_model(st),
        HandlerId::LNodeType => templates::lnodetype_model(st),
        HandlerId::Do => templates::do_model(st),
        HandlerId::DoType => templates::dotype_model(st),
        HandlerId::Da => templates::da_model(st),
        HandlerId::Sdo => templates::sdo_model(st),
        HandlerId::DaVal => templates::da_val_model(st),
        HandlerId::DaType => templates::datype_model(st),
        HandlerId::Bda => templates::bda_model(st),
        HandlerId::BdaVal => templates::bda_val_model(st),
        HandlerId::EnumType => templates::enumtype_model(st),
        HandlerId::EnumVal => templates::enumval_model(st),
        _ => st,
    }
}

/// Runs a handler of attribute values and type templates.
fn data_dispatch(ctx: &mut IcdParseContext2, handler: HandlerId)
    ensures
        final(ctx)@ == data_handler_model(handler, old(ctx)@),
{
    proof {
        reveal(data_handler_model);
    }
    match handler {
        HandlerId::Doi => values::doi_sefun(ctx),
        HandlerId::Sdi => values::sdi_sefun(ctx),
        HandlerId::Dai => values::dai_sefun(ctx),
        HandlerId::DaiVal => values::dai_val_sefun(ctx),
        HandlerId::LNodeType => templates::lnodetype_sefun(ctx),
        HandlerId::Do => templates::do_sfun(ctx),
        HandlerId::DoType => templates::dotype_sefun(ctx),
        HandlerId::Da => templates::da_sefun(ctx),
        HandlerId::Sdo => templates::sdo_sfun(ctx),
        HandlerId::DaVal => templates::da_val_sefun(ctx),
        HandlerId::DaType => templates::datype_sefun(ctx),
        HandlerId::Bda => templates::bda_sefun(ctx),
        HandlerId::BdaVal => templates::bda_val_sefun(ctx),
        HandlerId::EnumType => templates::enumtype_sefun(ctx),
        HandlerId::EnumVal => templates::enumval_sefun(ctx),
        _ => {},
    }
}

/// Whether `handler` names a handler of the `Services` section.
pub open spec fn is_service_handler(handler: HandlerId) -> bool {
    match handler {
        HandlerId::Services
        | HandlerId::GetDirectory
        | HandlerId::GetDataObjectDefinition
        | HandlerId::DataObjectDirectory
        | HandlerId::GetDataSetValue
        | HandlerId::SetDataSetValue
        | HandlerId::DataSetDirectory
        | HandlerId::ReadWrite
        | HandlerId::TimerActivatedControl
        | HandlerId::GetCbValues
        | HandlerId::GseDir
        | HandlerId::FileHandling
        | HandlerId::ConfLdName
        | HandlerId::ConfLogControl
        | HandlerId::Goose
        | HandlerId::Gsse
        | HandlerId::SmvSc
        | HandlerId::SupSubscription
        | HandlerId::ConfSigRef
        | HandlerId::ReportSettings => true,
        _ => false,
    }
}

/// What a handler of the `Services` section makes of a state; any other name changes nothing.
#[verifier::opaque]
pub open spec fn service_handler_model(
    handler: HandlerId,
    st: IcdParseContext2View,
) -> IcdParseContext2View {
    match handler {
        HandlerId::Services => services::services_model(st),
        HandlerId::GetDirectory => services::getdirectory_model(st),
        HandlerId::GetDataObjectDefinition => services::getdataobjectdefinition_model(st),
        HandlerId::DataObjectDirectory => services::dataobjectdirectory_model(st),
        HandlerId::GetDataSetValue => services::getdatasetvalue_model(st),
        HandlerId::SetDataSetValue => services::setdatasetvalue_model(st),
        HandlerId::DataSetDirectory => services::datasetdirectory_model(st),
        HandlerId::ReadWrite => services::readwrite_model(st),
        HandlerId::TimerActivatedControl => services::timeractivatedcontrol_model(st),
        HandlerId::GetCbValues => services::getcbvalues_model(st),
        HandlerId::GseDir => services::gsedir_model(st),
        HandlerId::FileHandling => services::filehandling_model(st),
        HandlerId::ConfLdName => services::confldname_model(st),
        HandlerId::ConfLogControl => services::conflogcontrol_model(st),
        HandlerId::Goose => services::goose_model(st),
        HandlerId::Gsse => services::gsse_model(st),
        HandlerId::SmvSc => services::smvsc_model(st),
        HandlerId::SupSubscription => services::supsubscription_model(st),
        HandlerId::ConfSigRef => services::confsigref_model(st),
        HandlerId::ReportSettings => services::reportsettings_model(st),
        _ => st,
    }
}

/// Runs a handler of the `Services` section.
fn service_dispatch(ctx: &mut IcdParseContext2, handler: HandlerId)
    ensures
        final(ctx)@ == service_handler_model(handler, old(ctx)@),
{
    proof {
        reveal(service_handler_model);
    }
    match handler {
        HandlerId::Services => services::services_sefun(ctx),
        HandlerId::GetDirectory => services::getdirectory_sfun(ctx),
        HandlerId::GetDataObjectDefinition => services::getdataobjectdefinition_sfun(ctx),
        HandlerId::DataObjectDirectory => services::dataobjectdirectory_sfun(ctx),
        HandlerId::GetDataSetValue => services::getdatasetvalue_sfun(ctx),
        HandlerId::SetDataSetValue => services::setdatasetvalue_sfun(ctx),
        HandlerId::DataSetDirectory => services::datasetdirectory_sfun(ctx),
        HandlerId::ReadWrite => services::readwrite_sfun(ctx),
        HandlerId::TimerActivatedControl => services::timeractivatedcontrol_sfun(ctx),
        HandlerId::GetCbValues => services::getcbvalues_sfun(ctx),
        HandlerId::GseDir => services::gsedir_sfun(ctx),
        HandlerId::FileHandling => services::filehandling_sfun(ctx),
        HandlerId::ConfLdName => services::confldname_sfun(ctx),
        HandlerId::ConfLogControl => services::conflogcontrol_sfun(ctx),
        HandlerId::Goose => services::goose_sfun(ctx),
        HandlerId::Gsse => services::gsse_sfun(ctx),
        HandlerId::SmvSc => services::smvsc_sfun(ctx),
        HandlerId::SupSubscription => services::supsubscription_sfun(ctx),
        HandlerId::ConfSigRef => services::confsigref_sfun(ctx),
        HandlerId::ReportSettings => services::reportsettings_sfun(ctx),
        _ => {},
    }
}

/// What the handler named `handler` makes of a state.
pub open spec fn handler_model(
    handler: HandlerId,
    st: IcdParseContext2View,
) -> IcdParseContext2View {
    if is_root_handler(handler) {
        root_handler_model(handler, st)
    } else if is_comm_handler(handler) {
        comm_handler_model(handler, st)
    } else if is_node_handler(handler) {
        node_handler_model(handler, st)
    } else if is_data_handler(handler) {
        data_handler_model(handler, st)
    } else {
        service_handler_model(handler, st)
    }
}

/// Runs the handler named `handler`.
pub fn dispatch(ctx: &mut IcdParseContext2, handler: HandlerId)
    ensures
        final(ctx)@ == handler_model(handler, old(ctx)@),
{
    match handler {
        HandlerId::Scl
        | HandlerId::Header
        | HandlerId::Communication
        | HandlerId::Ied
        | HandlerId::DataTypeTemplates
        | HandlerId::AccessPoint
        | HandlerId::Server => root_dispatch(ctx, handler),
        HandlerId::SubNetwork
        | HandlerId::ConnectedAp
        | HandlerId::Address
        | HandlerId::AddressP
        | HandlerId::Gse
        | HandlerId::Smv
        | HandlerId::GseAddress
        | HandlerId::GseMinTime
        | HandlerId::GseMaxTime
        | HandlerId::GseAddressP
        | HandlerId::SmvAddress
        | HandlerId::SmvAddressP => comm_dispatch(ctx, handler),
        HandlerId::LDevice
        | HandlerId::Ln
        | HandlerId::DataSet
        | HandlerId::ReportControl
        | HandlerId::SampledValueControl
        | HandlerId::LogControl
        | HandlerId::SettingControl
        | HandlerId::GseControl
        | HandlerId::Inputs
        | HandlerId::Fcda
        | HandlerId::TrgOps
        | HandlerId::OptFlds
        | HandlerId::RptEnabled
        | HandlerId::SmvOpts
        | HandlerId::ExtRef => node_dispatch(ctx, handler),
        HandlerId::Doi
        | HandlerId::Sdi
        | HandlerId::Dai
        | HandlerId::DaiVal
        | HandlerId::LNodeType
        | HandlerId::Do
        | HandlerId::DoType
        | HandlerId::Da
        | HandlerId::Sdo
        | HandlerId::DaVal
        | HandlerId::DaType
        | HandlerId::Bda
        | HandlerId::BdaVal
        | HandlerId::EnumType
        | HandlerId::EnumVal => data_dispatch(ctx, handler),
        HandlerId::Services
        | HandlerId::GetDirectory
        | HandlerId::GetDataObjectDefinition
        | HandlerId::DataObjectDirectory
        | HandlerId::GetDataSetValue
        | HandlerId::SetDataSetValue
        | HandlerId::DataSetDirectory
        | HandlerId::ReadWrite
        | HandlerId::TimerActivatedControl
        | HandlerId::GetCbValues
        | HandlerId::GseDir
        | HandlerId::FileHandling
        | HandlerId::ConfLdName
        | HandlerId::ConfLogControl
        | HandlerId::Goose
        | HandlerId::Gsse
        | HandlerId::SmvSc
        | HandlerId::SupSubscription
        | HandlerId::ConfSigRef
        | HandlerId::ReportSettings => service_dispatch(ctx, handler),
    }
}

} // verus!
