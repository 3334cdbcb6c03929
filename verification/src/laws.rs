//! What holds of the reader as a whole, proved from the models of its
//! handlers and of its walk.

use crate::bitstring::{bit_byte, bit_is_set, lemma_set_on_then_get, with_bit_on};
use crate::consts::{
    SD_SUCCESS, SX_DUPLICATE_NOT_ALLOWED, SX_ELEMENT_END, SX_ELEMENT_START, SX_ELF_CEND,
    SX_ELF_CSTART,
    SX_ELF_RPT, SX_MAX_ITEMS_PER_TABLE, SX_MAX_STACK_LEVEL, SX_MAX_XML_NEST, SX_USER_ERROR,
};
use crate::context::{attr_value, find_slot, IcdParseContext2View, TagInfoView};
use crate::control::{bit_on_if, trgops_of};
use crate::dispatch::{
    comm_handler_model, data_handler_model, handler_model, is_comm_handler, is_data_handler,
    is_node_handler, is_root_handler, node_handler_model, root_handler_model,
    service_handler_model,
};
use crate::engine::{scl_parse_model, walk_start, XmlEventView};
use crate::error::SclError;
use crate::flatname::{flat_joined, flat_parent, last_dollar};
use crate::lnode::{is_ln0, ln_model, ln_naming_ok, ln_of};
use crate::model::{SclInfoView, SclOptionsView};
use crate::root::{accesspoint_matches, accesspoint_model, edition_of, scl_model};
use crate::table::{
    element_table, ldeviceelements_tb, scl_tb, sub_scl_tb, HandlerId, SxElementView,
};
use crate::text::{attr_is, byte_len, lemma_bytes_tell_texts_apart, same_name, trim_ws};
use crate::validate::mms_ident_legal;
use crate::xml::{events_of, text_model, xml_pieces};
use crate::{comm, control, lnode, root, sampled, services, templates, values};
use vstd::prelude::*;

verus! {

/// How many servers a state holds.
pub open spec fn servers(st: IcdParseContext2View) -> nat {
    st.info().server_vec.len()
}

/// Whether the handler of `AccessPoint` makes a server in this state: it
/// runs for an opening tag whose name is the one asked for.
pub open spec fn makes_server(st: IcdParseContext2View) -> bool {
    st.reason == SX_ELEMENT_START && match st.attr("name"@) {
        Some(name) => accesspoint_matches(st, name),
        None => false,
    }
}

/// The handler of `AccessPoint` adds one server for an access point that
/// is asked for, and none for any other. It keeps the element tables and
/// the nesting of the open elements as they are, and opens no more tables
/// than may be open at once.
pub proof fn law_accesspoint_adds_one_server(st: IcdParseContext2View)
    ensures
        servers(accesspoint_model(st)) == servers(st) + if makes_server(st) {
            1nat
        } else {
            0nat
        },
        accesspoint_model(st).opr_tb == st.opr_tb,
        accesspoint_model(st).eltbl == st.eltbl,
        accesspoint_model(st).items.len() <= st.items.len() || accesspoint_model(st).items.len()
            <= SX_MAX_STACK_LEVEL,
{
}

/// The handlers of the root and of its sections are local: they keep the
/// servers, the element tables and the nesting of the open elements as
/// they are, and open no more tables than may be open at once.
pub proof fn law_root_handlers_are_local(st: IcdParseContext2View)
    ensures
        servers(root::scl_model(st)) == servers(st),
        root::scl_model(st).opr_tb == st.opr_tb,
        root::scl_model(st).eltbl == st.eltbl,
        root::scl_model(st).items.len() <= st.items.len()
            || root::scl_model(st).items.len() <= SX_MAX_STACK_LEVEL,
        servers(root::header_model(st)) == servers(st),
        root::header_model(st).opr_tb == st.opr_tb,
        root::header_model(st).eltbl == st.eltbl,
        root::header_model(st).items.len() <= st.items.len()
            || root::header_model(st).items.len() <= SX_MAX_STACK_LEVEL,
        servers(root::communication_model(st)) == servers(st),
        root::communication_model(st).opr_tb == st.opr_tb,
        root::communication_model(st).eltbl == st.eltbl,
        root::communication_model(st).items.len() <= st.items.len()
            || root::communication_model(st).items.len() <= SX_MAX_STACK_LEVEL,
        servers(root::ied_model(st)) == servers(st),
        root::ied_model(st).opr_tb == st.opr_tb,
        root::ied_model(st).eltbl == st.eltbl,
        root::ied_model(st).items.len() <= st.items.len()
            || root::ied_model(st).items.len() <= SX_MAX_STACK_LEVEL,
        servers(root::datatypetemplates_model(st)) == servers(st),
        root::datatypetemplates_model(st).opr_tb == st.opr_tb,
        root::datatypetemplates_model(st).eltbl == st.eltbl,
        root::datatypetemplates_model(st).items.len() <= st.items.len()
            || root::datatypetemplates_model(st).items.len() <= SX_MAX_STACK_LEVEL,
        servers(root::server_model(st)) == servers(st),
        root::server_model(st).opr_tb == st.opr_tb,
        root::server_model(st).eltbl == st.eltbl,
        root::server_model(st).items.len() <= st.items.len()
            || root::server_model(st).items.len() <= SX_MAX_STACK_LEVEL,
{
}

/// The handlers of the `Communication` section are local: they keep the
/// servers, the element tables and the nesting of the open elements as
/// they are, and open no more tables than may be open at once.
pub proof fn law_comm_handlers_are_local(st: IcdParseContext2View)
    ensures
        servers(comm::subnetwork_model(st)) == servers(st),
        comm::subnetwork_model(st).opr_tb == st.opr_tb,
        comm::subnetwork_model(st).eltbl == st.eltbl,
        comm::subnetwork_model(st).items.len() <= st.items.len()
            || comm::subnetwork_model(st).items.len() <= SX_MAX_STACK_LEVEL,
        servers(comm::connectedap_model(st)) == servers(st),
        comm::connectedap_model(st).opr_tb == st.opr_tb,
        comm::connectedap_model(st).eltbl == st.eltbl,
        comm::connectedap_model(st).items.len() <= st.items.len()
            || comm::connectedap_model(st).items.len() <= SX_MAX_STACK_LEVEL,
        servers(comm::address_model(st)) == servers(st),
        comm::address_model(st).opr_tb == st.opr_tb,
        comm::address_model(st).eltbl == st.eltbl,
        comm::address_model(st).items.len() <= st.items.len()
            || comm::address_model(st).items.len() <= SX_MAX_STACK_LEVEL,
        servers(comm::address_p_model(st)) == servers(st),
        comm::address_p_model(st).opr_tb == st.opr_tb,
        comm::address_p_model(st).eltbl == st.eltbl,
        comm::address_p_model(st).items.len() <= st.items.len()
            || comm::address_p_model(st).items.len() <= SX_MAX_STACK_LEVEL,
        servers(comm::gse_model(st)) == servers(st),
        comm::gse_model(st).opr_tb == st.opr_tb,
        comm::gse_model(st).eltbl == st.eltbl,
        comm::gse_model(st).items.len() <= st.items.len()
            || comm::gse_model(st).items.len() <= SX_MAX_STACK_LEVEL,
        servers(comm::smv_model(st)) == servers(st),
        comm::smv_model(st).opr_tb == st.opr_tb,
        comm::smv_model(st).eltbl == st.eltbl,
        comm::smv_model(st).items.len() <= st.items.len()
            || comm::smv_model(st).items.len() <= SX_MAX_STACK_LEVEL,
        servers(comm::gse_address_model(st)) == servers(st),
        comm::gse_address_model(st).opr_tb == st.opr_tb,
        comm::gse_address_model(st).eltbl == st.eltbl,
        comm::gse_address_model(st).items.len() <= st.items.len()
            || comm::gse_address_model(st).items.len() <= SX_MAX_STACK_LEVEL,
        servers(comm::gse_mintime_model(st)) == servers(st),
        comm::gse_mintime_model(st).opr_tb == st.opr_tb,
        comm::gse_mintime_model(st).eltbl == st.eltbl,
        comm::gse_mintime_model(st).items.len() <= st.items.len()
            || comm::gse_mintime_model(st).items.len() <= SX_MAX_STACK_LEVEL,
        servers(comm::gse_maxtime_model(st)) == servers(st),
        comm::gse_maxtime_model(st).opr_tb == st.opr_tb,
        comm::gse_maxtime_model(st).eltbl == st.eltbl,
        comm::gse_maxtime_model(st).items.len() <= st.items.len()
            || comm::gse_maxtime_model(st).items.len() <= SX_MAX_STACK_LEVEL,
        servers(comm::gse_address_p_model(st)) == servers(st),
        comm::gse_address_p_model(st).opr_tb == st.opr_tb,
        comm::gse_address_p_model(st).eltbl == st.eltbl,
        comm::gse_address_p_model(st).items.len() <= st.items.len()
            || comm::gse_address_p_model(st).items.len() <= SX_MAX_STACK_LEVEL,
        servers(comm::smv_address_model(st)) == servers(st),
        comm::smv_address_model(st).opr_tb == st.opr_tb,
        comm::smv_address_model(st).eltbl == st.eltbl,
        comm::smv_address_model(st).items.len() <= st.items.len()
            || comm::smv_address_model(st).items.len() <= SX_MAX_STACK_LEVEL,
        servers(comm::smv_address_p_model(st)) == servers(st),
        comm::smv_address_p_model(st).opr_tb == st.opr_tb,
        comm::smv_address_p_model(st).eltbl == st.eltbl,
        comm::smv_address_p_model(st).items.len() <= st.items.len()
            || comm::smv_address_p_model(st).items.len() <= SX_MAX_STACK_LEVEL,
{
}

/// The handlers of logical devices and nodes are local: they keep the
/// servers, the element tables and the nesting of the open elements as
/// they are, and open no more tables than may be open at once.
pub proof fn law_lnode_handlers_are_local(st: IcdParseContext2View)
    ensures
        servers(lnode::ldevice_model(st)) == servers(st),
        lnode::ldevice_model(st).opr_tb == st.opr_tb,
        lnode::ldevice_model(st).eltbl == st.eltbl,
        lnode::ldevice_model(st).items.len() <= st.items.len()
            || lnode::ldevice_model(st).items.len() <= SX_MAX_STACK_LEVEL,
        servers(lnode::ln_model(st)) == servers(st),
        lnode::ln_model(st).opr_tb == st.opr_tb,
        lnode::ln_model(st).eltbl == st.eltbl,
        lnode::ln_model(st).items.len() <= st.items.len()
            || lnode::ln_model(st).items.len() <= SX_MAX_STACK_LEVEL,
{
}

/// The handlers of data sets and control blocks are local: they keep the
/// servers, the element tables and the nesting of the open elements as
/// they are, and open no more tables than may be open at once.
pub proof fn law_control_handlers_are_local(st: IcdParseContext2View)
    ensures
        servers(control::dataset_model(st)) == servers(st),
        control::dataset_model(st).opr_tb == st.opr_tb,
        control::dataset_model(st).eltbl == st.eltbl,
        control::dataset_model(st).items.len() <= st.items.len()
            || control::dataset_model(st).items.len() <= SX_MAX_STACK_LEVEL,
        servers(control::fcda_model(st)) == servers(st),
        control::fcda_model(st).opr_tb == st.opr_tb,
        control::fcda_model(st).eltbl == st.eltbl,
        control::fcda_model(st).items.len() <= st.items.len()
            || control::fcda_model(st).items.len() <= SX_MAX_STACK_LEVEL,
        servers(control::reportcontrol_model(st)) == servers(st),
        control::reportcontrol_model(st).opr_tb == st.opr_tb,
        control::reportcontrol_model(st).eltbl == st.eltbl,
        control::reportcontrol_model(st).items.len() <= st.items.len()
            || control::reportcontrol_model(st).items.len() <= SX_MAX_STACK_LEVEL,
        servers(control::trgops_model(st)) == servers(st),
        control::trgops_model(st).opr_tb == st.opr_tb,
        control::trgops_model(st).eltbl == st.eltbl,
        control::trgops_model(st).items.len() <= st.items.len()
            || control::trgops_model(st).items.len() <= SX_MAX_STACK_LEVEL,
        servers(control::optflds_model(st)) == servers(st),
        control::optflds_model(st).opr_tb == st.opr_tb,
        control::optflds_model(st).eltbl == st.eltbl,
        control::optflds_model(st).items.len() <= st.items.len()
            || control::optflds_model(st).items.len() <= SX_MAX_STACK_LEVEL,
        servers(control::rptenabled_model(st)) == servers(st),
        control::rptenabled_model(st).opr_tb == st.opr_tb,
        control::rptenabled_model(st).eltbl == st.eltbl,
        control::rptenabled_model(st).items.len() <= st.items.len()
            || control::rptenabled_model(st).items.len() <= SX_MAX_STACK_LEVEL,
        servers(control::logcontrol_model(st)) == servers(st),
        control::logcontrol_model(st).opr_tb == st.opr_tb,
        control::logcontrol_model(st).eltbl == st.eltbl,
        control::logcontrol_model(st).items.len() <= st.items.len()
            || control::logcontrol_model(st).items.len() <= SX_MAX_STACK_LEVEL,
        servers(control::settingcontrol_model(st)) == servers(st),
        control::settingcontrol_model(st).opr_tb == st.opr_tb,
        control::settingcontrol_model(st).eltbl == st.eltbl,
        control::settingcontrol_model(st).items.len() <= st.items.len()
            || control::settingcontrol_model(st).items.len() <= SX_MAX_STACK_LEVEL,
        servers(control::gsecontrol_model(st)) == servers(st),
        control::gsecontrol_model(st).opr_tb == st.opr_tb,
        control::gsecontrol_model(st).eltbl == st.eltbl,
        control::gsecontrol_model(st).items.len() <= st.items.len()
            || control::gsecontrol_model(st).items.len() <= SX_MAX_STACK_LEVEL,
        servers(control::inputs_model(st)) == servers(st),
        control::inputs_model(st).opr_tb == st.opr_tb,
        control::inputs_model(st).eltbl == st.eltbl,
        control::inputs_model(st).items.len() <= st.items.len()
            || control::inputs_model(st).items.len() <= SX_MAX_STACK_LEVEL,
        servers(control::extref_model(st)) == servers(st),
        control::extref_model(st).opr_tb == st.opr_tb,
        control::extref_model(st).eltbl == st.eltbl,
        control::extref_model(st).items.len() <= st.items.len()
            || control::extref_model(st).items.len() <= SX_MAX_STACK_LEVEL,
        servers(sampled::sampledvaluecontrol_model(st)) == servers(st),
        sampled::sampledvaluecontrol_model(st).opr_tb == st.opr_tb,
        sampled::sampledvaluecontrol_model(st).eltbl == st.eltbl,
        sampled::sampledvaluecontrol_model(st).items.len() <= st.items.len()
            || sampled::sampledvaluecontrol_model(st).items.len() <= SX_MAX_STACK_LEVEL,
        servers(sampled::smvopts_model(st)) == servers(st),
        sampled::smvopts_model(st).opr_tb == st.opr_tb,
        sampled::smvopts_model(st).eltbl == st.eltbl,
        sampled::smvopts_model(st).items.len() <= st.items.len()
            || sampled::smvopts_model(st).items.len() <= SX_MAX_STACK_LEVEL,
{
}

/// The handlers of attribute values are local: they keep the
/// servers, the element tables and the nesting of the open elements as
/// they are, and open no more tables than may be open at once.
pub proof fn law_value_handlers_are_local(st: IcdParseContext2View)
    ensures
        servers(values::doi_model(st)) == servers(st),
        values::doi_model(st).opr_tb == st.opr_tb,
        values::doi_model(st).eltbl == st.eltbl,
        values::doi_model(st).items.len() <= st.items.len()
            || values::doi_model(st).items.len() <= SX_MAX_STACK_LEVEL,
        servers(values::sdi_model(st)) == servers(st),
        values::sdi_model(st).opr_tb == st.opr_tb,
        values::sdi_model(st).eltbl == st.eltbl,
        values::sdi_model(st).items.len() <= st.items.len()
            || values::sdi_model(st).items.len() <= SX_MAX_STACK_LEVEL,
        servers(values::dai_model(st)) == servers(st),
        values::dai_model(st).opr_tb == st.opr_tb,
        values::dai_model(st).eltbl == st.eltbl,
        values::dai_model(st).items.len() <= st.items.len()
            || values::dai_model(st).items.len() <= SX_MAX_STACK_LEVEL,
        servers(values::dai_val_model(st)) == servers(st),
        values::dai_val_model(st).opr_tb == st.opr_tb,
        values::dai_val_model(st).eltbl == st.eltbl,
        values::dai_val_model(st).items.len() <= st.items.len()
            || values::dai_val_model(st).items.len() <= SX_MAX_STACK_LEVEL,
{
}

/// The handlers of the type templates are local: they keep the
/// servers, the element tables and the nesting of the open elements as
/// they are, and open no more tables than may be open at once.
pub proof fn law_template_handlers_are_local(st: IcdParseContext2View)
    ensures
        servers(templates::lnodetype_model(st)) == servers(st),
        templates::lnodetype_model(st).opr_tb == st.opr_tb,
        templates::lnodetype_model(st).eltbl == st.eltbl,
        templates::lnodetype_model(st).items.len() <= st.items.len()
            || templates::lnodetype_model(st).items.len() <= SX_MAX_STACK_LEVEL,
        servers(templates::do_model(st)) == servers(st),
        templates::do_model(st).opr_tb == st.opr_tb,
        templates::do_model(st).eltbl == st.eltbl,
        templates::do_model(st).items.len() <= st.items.len()
            || templates::do_model(st).items.len() <= SX_MAX_STACK_LEVEL,
        servers(templates::dotype_model(st)) == servers(st),
        templates::dotype_model(st).opr_tb == st.opr_tb,
        templates::dotype_model(st).eltbl == st.eltbl,
        templates::dotype_model(st).items.len() <= st.items.len()
            || templates::dotype_model(st).items.len() <= SX_MAX_STACK_LEVEL,
        servers(templates::da_model(st)) == servers(st),
        templates::da_model(st).opr_tb == st.opr_tb,
        templates::da_model(st).eltbl == st.eltbl,
        templates::da_model(st).items.len() <= st.items.len()
            || templates::da_model(st).items.len() <= SX_MAX_STACK_LEVEL,
        servers(templates::sdo_model(st)) == servers(st),
        templates::sdo_model(st).opr_tb == st.opr_tb,
        templates::sdo_model(st).eltbl == st.eltbl,
        templates::sdo_model(st).items.len() <= st.items.len()
            || templates::sdo_model(st).items.len() <= SX_MAX_STACK_LEVEL,
        servers(templates::da_val_model(st)) == servers(st),
        templates::da_val_model(st).opr_tb == st.opr_tb,
        templates::da_val_model(st).eltbl == st.eltbl,
        templates::da_val_model(st).items.len() <= st.items.len()
            || templates::da_val_model(st).items.len() <= SX_MAX_STACK_LEVEL,
        servers(templates::datype_model(st)) == servers(st),
        templates::datype_model(st).opr_tb == st.opr_tb,
        templates::datype_model(st).eltbl == st.eltbl,
        templates::datype_model(st).items.len() <= st.items.len()
            || templates::datype_model(st).items.len() <= SX_MAX_STACK_LEVEL,
        servers(templates::bda_model(st)) == servers(st),
        templates::bda_model(st).opr_tb == st.opr_tb,
        templates::bda_model(st).eltbl == st.eltbl,
        templates::bda_model(st).items.len() <= st.items.len()
            || templates::bda_model(st).items.len() <= SX_MAX_STACK_LEVEL,
        servers(templates::bda_val_model(st)) == servers(st),
        templates::bda_val_model(st).opr_tb == st.opr_tb,
        templates::bda_val_model(st).eltbl == st.eltbl,
        templates::bda_val_model(st).items.len() <= st.items.len()
            || templates::bda_val_model(st).items.len() <= SX_MAX_STACK_LEVEL,
        servers(templates::enumtype_model(st)) == servers(st),
        templates::enumtype_model(st).opr_tb == st.opr_tb,
        templates::enumtype_model(st).eltbl == st.eltbl,
        templates::enumtype_model(st).items.len() <= st.items.len()
            || templates::enumtype_model(st).items.len() <= SX_MAX_STACK_LEVEL,
        servers(templates::enumval_model(st)) == servers(st),
        templates::enumval_model(st).opr_tb == st.opr_tb,
        templates::enumval_model(st).eltbl == st.eltbl,
        templates::enumval_model(st).items.len() <= st.items.len()
            || templates::enumval_model(st).items.len() <= SX_MAX_STACK_LEVEL,
{
}

/// The handlers of the `Services` section are local: they keep the
/// servers, the element tables and the nesting of the open elements as
/// they are, and open no more tables than may be open at once.
pub proof fn law_service_handlers_are_local(st: IcdParseContext2View)
    ensures
        servers(services::services_model(st)) == servers(st),
        services::services_model(st).opr_tb == st.opr_tb,
        services::services_model(st).eltbl == st.eltbl,
        services::services_model(st).items.len() <= st.items.len()
            || services::services_model(st).items.len() <= SX_MAX_STACK_LEVEL,
        servers(services::getdirectory_model(st)) == servers(st),
        services::getdirectory_model(st).opr_tb == st.opr_tb,
        services::getdirectory_model(st).eltbl == st.eltbl,
        services::getdirectory_model(st).items.len() <= st.items.len()
            || services::getdirectory_model(st).items.len() <= SX_MAX_STACK_LEVEL,
        servers(services::getdataobjectdefinition_model(st)) == servers(st),
        services::getdataobjectdefinition_model(st).opr_tb == st.opr_tb,
        services::getdataobjectdefinition_model(st).eltbl == st.eltbl,
        services::getdataobjectdefinition_model(st).items.len() <= st.items.len()
            || services::getdataobjectdefinition_model(st).items.len() <= SX_MAX_STACK_LEVEL,
        servers(services::dataobjectdirectory_model(st)) == servers(st),
        services::dataobjectdirectory_model(st).opr_tb == st.opr_tb,
        services::dataobjectdirectory_model(st).eltbl == st.eltbl,
        services::dataobjectdirectory_model(st).items.len() <= st.items.len()
            || services::dataobjectdirectory_model(st).items.len() <= SX_MAX_STACK_LEVEL,
        servers(services::getdatasetvalue_model(st)) == servers(st),
        services::getdatasetvalue_model(st).opr_tb == st.opr_tb,
        services::getdatasetvalue_model(st).eltbl == st.eltbl,
        services::getdatasetvalue_model(st).items.len() <= st.items.len()
            || services::getdatasetvalue_model(st).items.len() <= SX_MAX_STACK_LEVEL,
        servers(services::setdatasetvalue_model(st)) == servers(st),
        services::setdatasetvalue_model(st).opr_tb == st.opr_tb,
        services::setdatasetvalue_model(st).eltbl == st.eltbl,
        services::setdatasetvalue_model(st).items.len() <= st.items.len()
            || services::setdatasetvalue_model(st).items.len() <= SX_MAX_STACK_LEVEL,
        servers(services::datasetdirectory_model(st)) == servers(st),
        services::datasetdirectory_model(st).opr_tb == st.opr_tb,
        services::datasetdirectory_model(st).eltbl == st.eltbl,
        services::datasetdirectory_model(st).items.len() <= st.items.len()
            || services::datasetdirectory_model(st).items.len() <= SX_MAX_STACK_LEVEL,
        servers(services::readwrite_model(st)) == servers(st),
        services::readwrite_model(st).opr_tb == st.opr_tb,
        services::readwrite_model(st).eltbl == st.eltbl,
        services::readwrite_model(st).items.len() <= st.items.len()
            || services::readwrite_model(st).items.len() <= SX_MAX_STACK_LEVEL,
        servers(services::timeractivatedcontrol_model(st)) == servers(st),
        services::timeractivatedcontrol_model(st).opr_tb == st.opr_tb,
        services::timeractivatedcontrol_model(st).eltbl == st.eltbl,
        services::timeractivatedcontrol_model(st).items.len() <= st.items.len()
            || services::timeractivatedcontrol_model(st).items.len() <= SX_MAX_STACK_LEVEL,
        servers(services::getcbvalues_model(st)) == servers(st),
        services::getcbvalues_model(st).opr_tb == st.opr_tb,
        services::getcbvalues_model(st).eltbl == st.eltbl,
        services::getcbvalues_model(st).items.len() <= st.items.len()
            || services::getcbvalues_model(st).items.len() <= SX_MAX_STACK_LEVEL,
        servers(services::gsedir_model(st)) == servers(st),
        services::gsedir_model(st).opr_tb == st.opr_tb,
        services::gsedir_model(st).eltbl == st.eltbl,
        services::gsedir_model(st).items.len() <= st.items.len()
            || services::gsedir_model(st).items.len() <= SX_MAX_STACK_LEVEL,
        servers(services::filehandling_model(st)) == servers(st),
        services::filehandling_model(st).opr_tb == st.opr_tb,
        services::filehandling_model(st).eltbl == st.eltbl,
        services::filehandling_model(st).items.len() <= st.items.len()
            || services::filehandling_model(st).items.len() <= SX_MAX_STACK_LEVEL,
        servers(services::confldname_model(st)) == servers(st),
        services::confldname_model(st).opr_tb == st.opr_tb,
        services::confldname_model(st).eltbl == st.eltbl,
        services::confldname_model(st).items.len() <= st.items.len()
            || services::confldname_model(st).items.len() <= SX_MAX_STACK_LEVEL,
        servers(services::conflogcontrol_model(st)) == servers(st),
        services::conflogcontrol_model(st).opr_tb == st.opr_tb,
        services::conflogcontrol_model(st).eltbl == st.eltbl,
        services::conflogcontrol_model(st).items.len() <= st.items.len()
            || services::conflogcontrol_model(st).items.len() <= SX_MAX_STACK_LEVEL,
        servers(services::goose_model(st)) == servers(st),
        services::goose_model(st).opr_tb == st.opr_tb,
        services::goose_model(st).eltbl == st.eltbl,
        services::goose_model(st).items.len() <= st.items.len()
            || services::goose_model(st).items.len() <= SX_MAX_STACK_LEVEL,
        servers(services::gsse_model(st)) == servers(st),
        services::gsse_model(st).opr_tb == st.opr_tb,
        services::gsse_model(st).eltbl == st.eltbl,
        services::gsse_model(st).items.len() <= st.items.len()
            || services::gsse_model(st).items.len() <= SX_MAX_STACK_LEVEL,
        servers(services::smvsc_model(st)) == servers(st),
        services::smvsc_model(st).opr_tb == st.opr_tb,
        services::smvsc_model(st).eltbl == st.eltbl,
        services::smvsc_model(st).items.len() <= st.items.len()
            || services::smvsc_model(st).items.len() <= SX_MAX_STACK_LEVEL,
        servers(services::supsubscription_model(st)) == servers(st),
        services::supsubscription_model(st).opr_tb == st.opr_tb,
        services::supsubscription_model(st).eltbl == st.eltbl,
        services::supsubscription_model(st).items.len() <= st.items.len()
            || services::supsubscription_model(st).items.len() <= SX_MAX_STACK_LEVEL,
        servers(services::confsigref_model(st)) == servers(st),
        services::confsigref_model(st).opr_tb == st.opr_tb,
        services::confsigref_model(st).eltbl == st.eltbl,
        services::confsigref_model(st).items.len() <= st.items.len()
            || services::confsigref_model(st).items.len() <= SX_MAX_STACK_LEVEL,
        servers(services::reportsettings_model(st)) == servers(st),
        services::reportsettings_model(st).opr_tb == st.opr_tb,
        services::reportsettings_model(st).eltbl == st.eltbl,
        services::reportsettings_model(st).items.len() <= st.items.len()
            || services::reportsettings_model(st).items.len() <= SX_MAX_STACK_LEVEL,
{
}

/// No handler but that of `AccessPoint` changes the number of servers,
/// and that one adds a server exactly for an access point that is asked
/// for. No handler changes the element tables or the nesting of the open
/// elements, and none opens more tables than may be open at once.
pub proof fn law_only_accesspoint_adds_servers(handler: HandlerId, st: IcdParseContext2View)
    ensures
        servers(handler_model(handler, st)) == servers(st) + if handler == HandlerId::AccessPoint
            && makes_server(st) {
            1nat
        } else {
            0nat
        },
        handler_model(handler, st).opr_tb == st.opr_tb,
        handler_model(handler, st).eltbl == st.eltbl,
        handler_model(handler, st).items.len() <= st.items.len() || handler_model(
            handler,
            st,
        ).items.len() <= SX_MAX_STACK_LEVEL,
{
    if is_root_handler(handler) {
        reveal(root_handler_model);
        law_accesspoint_adds_one_server(st);
        law_root_handlers_are_local(st);
    } else if is_comm_handler(handler) {
        reveal(comm_handler_model);
        law_comm_handlers_are_local(st);
    } else if is_node_handler(handler) {
        reveal(node_handler_model);
        law_lnode_handlers_are_local(st);
        law_control_handlers_are_local(st);
    } else if is_data_handler(handler) {
        reveal(data_handler_model);
        law_value_handlers_are_local(st);
        law_template_handlers_are_local(st);
    } else {
        reveal(service_handler_model);
        law_service_handlers_are_local(st);
    }
}

/// Whether an opening tag makes the walk open an access point that is
/// asked for: the walk goes on, the tag stands in the innermost open
/// table as that of `AccessPoint`, and its name, without the white space
/// around it, is the name that the caller gave.
pub open spec fn opens_requested_ap(st: IcdParseContext2View, tag: TagInfoView) -> bool {
    st.eltbl.len() < SX_MAX_XML_NEST && !st.latched() && !st.in_unknown() && match st.found(
        tag.tag,
    ) {
        Some(index) => st.opr_tb[index as int].elementflags & SX_ELF_CSTART != 0
            && st.opr_tb[index as int].handler == HandlerId::AccessPoint && match attr_value(
            tag.atts,
            "name"@,
        ) {
            Some(name) => same_name(trim_ws(name), st.scl_dec_ctrl.accesspointname),
            None => false,
        },
        None => false,
    }
}

/// An opening tag adds one server if it opens an access point that is
/// asked for, and none otherwise; it keeps the element tables as they are.
pub proof fn law_start_element_servers(st: IcdParseContext2View, tag: TagInfoView)
    ensures
        servers(st.start_element(tag)) == servers(st) + if opens_requested_ap(st, tag) {
            1nat
        } else {
            0nat
        },
        st.start_element(tag).opr_tb == st.opr_tb,
{
    if st.eltbl.len() < SX_MAX_XML_NEST && !st.latched() && !st.in_unknown() {
        match st.found(tag.tag) {
            Some(index) => {
                let ready = IcdParseContext2View {
                    op_start_tag: Some(tag),
                    reason: SX_ELEMENT_START,
                    ..st.after_find(tag.tag)
                };
                assert(servers(ready) == servers(st));
                assert(ready.scl_dec_ctrl == st.scl_dec_ctrl);
                law_only_accesspoint_adds_servers(st.opr_tb[index as int].handler, ready);
            },
            None => {},
        }
    }
}

/// A closing tag adds no server and keeps the element tables as they are.
pub proof fn law_end_element_servers(st: IcdParseContext2View, tag: Seq<char>)
    ensures
        servers(st.end_element(tag)) == servers(st),
        st.end_element(tag).opr_tb == st.opr_tb,
{
    if st.eltbl.len() > 0 && !st.latched() {
        let closed = IcdParseContext2View { eltbl: st.eltbl.drop_last(), ..st };
        match st.eltbl.last() {
            Some(index) => {
                if index < st.opr_tb.len() {
                    law_only_accesspoint_adds_servers(
                        st.opr_tb[index as int].handler,
                        IcdParseContext2View { reason: SX_ELEMENT_END, ..closed },
                    );
                }
            },
            None => {},
        }
    }
}

/// Whether an event makes the walk open an access point that is asked for.
pub open spec fn event_opens_requested_ap(st: IcdParseContext2View, ev: XmlEventView) -> bool {
    match ev {
        XmlEventView::Start(t) => opens_requested_ap(st, t),
        XmlEventView::Empty(t) => opens_requested_ap(st, t),
        _ => false,
    }
}

/// An event adds one server if it opens an access point that is asked
/// for, and none otherwise; it keeps the element tables as they are.
pub proof fn law_event_servers(st: IcdParseContext2View, ev: XmlEventView)
    ensures
        servers(st.after_event(ev)) == servers(st) + if event_opens_requested_ap(st, ev) {
            1nat
        } else {
            0nat
        },
        st.after_event(ev).opr_tb == st.opr_tb,
{
    match ev {
        XmlEventView::Start(t) => {
            law_start_element_servers(st, t);
        },
        XmlEventView::End(t) => {
            law_end_element_servers(st, t.tag);
        },
        XmlEventView::Empty(t) => {
            law_start_element_servers(st, t);
            law_end_element_servers(st.start_element(t), t.tag);
        },
        XmlEventView::Text(s) => {},
        XmlEventView::Other => {},
    }
}

/// How many of the events make the walk open an access point that is
/// asked for, each seen in the state that the events before it have left.
pub open spec fn requested_aps(st: IcdParseContext2View, events: Seq<XmlEventView>) -> nat
    decreases events.len(),
{
    if events.len() == 0 {
        0
    } else {
        let before = st.run(events.drop_last());
        requested_aps(st, events.drop_last()) + if !before.latched() && event_opens_requested_ap(
            before,
            events.last(),
        ) {
            1nat
        } else {
            0nat
        }
    }
}

/// A run of events adds as many servers as it opens access points that
/// are asked for, and keeps the element tables as they are.
pub proof fn law_run_servers(st: IcdParseContext2View, events: Seq<XmlEventView>)
    ensures
        servers(st.run(events)) == servers(st) + requested_aps(st, events),
        st.run(events).opr_tb == st.opr_tb,
    decreases events.len(),
{
    if events.len() > 0 {
        law_run_servers(st, events.drop_last());
        let before = st.run(events.drop_last());
        if !before.latched() {
            law_event_servers(before, events.last());
        }
    }
}

/// A document that is read without error gives as
/// many servers as its events open access points that are asked for. So
/// it gives one server if exactly one access point matches, and none if
/// none does.
pub proof fn law_identity_selectivity(
    events: Seq<XmlEventView>,
    iedname: Seq<char>,
    accesspointname: Seq<char>,
    options: Option<SclOptionsView>,
)
    ensures
        match scl_parse_model(events, iedname, accesspointname, options) {
            Ok(info) => info.server_vec.len() == requested_aps(
                walk_start(iedname, accesspointname, options),
                events,
            ),
            Err(_) => true,
        },
{
    law_run_servers(walk_start(iedname, accesspointname, options), events);
}

/// Reading a text succeeds exactly if the device name is a legal
/// identifier, the tokenizer cuts the text to its end, each piece stands
/// for an event, and the walk over those events ends without a status
/// code.
pub proof fn law_text_success(
    xml: Seq<char>,
    iedname: Seq<char>,
    accesspointname: Seq<char>,
    options: Option<SclOptionsView>,
)
    ensures
        text_model(xml, iedname, accesspointname, options) is Ok <==> mms_ident_legal(iedname)
            && xml_pieces(xml).1 && events_of(xml_pieces(xml).0).1 && walk_start(
            iedname,
            accesspointname,
            options,
        ).run(events_of(xml_pieces(xml).0).0).errcode == SD_SUCCESS,
{
}

/// A text that is read to its end, or on which the walk stops with an
/// error, gives what the walk over the events of its pieces gives.
pub proof fn law_text_is_read_as_its_events(
    xml: Seq<char>,
    iedname: Seq<char>,
    accesspointname: Seq<char>,
    options: Option<SclOptionsView>,
)
    ensures
        (xml_pieces(xml).1 && events_of(xml_pieces(xml).0).1) || walk_start(
            iedname,
            accesspointname,
            options,
        ).run(events_of(xml_pieces(xml).0).0).latched() ==> text_model(
            xml,
            iedname,
            accesspointname,
            options,
        ) == scl_parse_model(events_of(xml_pieces(xml).0).0, iedname, accesspointname, options),
        !mms_ident_legal(iedname) ==> text_model(xml, iedname, accesspointname, options) == Err::<
            SclInfoView,
            SclError,
        >(SclError::IllegalIedName),
{
}

/// A text that is read without error gives as many servers as the events
/// of its pieces open access points that are asked for: one server if
/// exactly one access point matches, and none if none does.
pub proof fn law_text_identity_selectivity(
    xml: Seq<char>,
    iedname: Seq<char>,
    accesspointname: Seq<char>,
    options: Option<SclOptionsView>,
)
    ensures
        match text_model(xml, iedname, accesspointname, options) {
            Ok(info) => info.server_vec.len() == requested_aps(
                walk_start(iedname, accesspointname, options),
                events_of(xml_pieces(xml).0).0,
            ),
            Err(_) => true,
        },
{
    law_run_servers(
        walk_start(iedname, accesspointname, options),
        events_of(xml_pieces(xml).0).0,
    );
}

/// The server that the handler of `AccessPoint` makes bears the name of
/// the device that is being read, and the name of the access point as the
/// document spells it, which without the white space around it is the
/// name that the caller gave.
pub proof fn law_accesspoint_names_its_server(st: IcdParseContext2View)
    requires
        makes_server(st),
    ensures
        accesspoint_model(st).info().server_vec.len() == st.info().server_vec.len() + 1,
        accesspoint_model(st).info().server_vec.last().iedname == st.scl_dec_ctrl.iednameproc,
        st.attr("name"@) == Some(accesspoint_model(st).info().server_vec.last().apname),
        trim_ws(accesspoint_model(st).info().server_vec.last().apname)
            == st.scl_dec_ctrl.accesspointname,
        accesspoint_model(st).info().server_vec.drop_last() == st.info().server_vec,
{
    assert(accesspoint_model(st).info().server_vec.drop_last() =~= st.info().server_vec);
}

/// The handler of `IED` takes the name of a device as the one that is
/// being read, and has the children read of the device that is asked for
/// only: for any other device it opens no table.
pub proof fn law_ied_is_read_by_its_name(st: IcdParseContext2View, name: Seq<char>)
    requires
        st.reason == SX_ELEMENT_START,
        st.attr("name"@) == Some(name),
        mms_ident_legal(name),
    ensures
        root::ied_model(st).scl_dec_ctrl.iednameproc == name,
        name != st.scl_dec_ctrl.iedname ==> root::ied_model(st).items == st.items,
        name == st.scl_dec_ctrl.iedname && name.len() > 0 && st.items.len() < SX_MAX_STACK_LEVEL
            ==> root::ied_model(st).items.len() == st.items.len() + 1,
{
}

/// An access point whose name differs from the one asked for is never
/// opened: it gives no server, whatever the state of the walk.
pub proof fn law_other_access_point_is_passed_over(st: IcdParseContext2View, tag: TagInfoView)
    requires
        match attr_value(tag.atts, "name"@) {
            Some(name) => !same_name(trim_ws(name), st.scl_dec_ctrl.accesspointname),
            None => true,
        },
    ensures
        servers(st.start_element(tag)) == servers(st),
{
    law_start_element_servers(st, tag);
}

/// Looking up an element that has occurred before
/// among its siblings and may not repeat gives the status code of a
/// duplicate; any other lookup leaves the status code as it is.
pub proof fn law_duplicate_rejection(st: IcdParseContext2View, tag: Seq<char>)
    ensures
        st.is_duplicate(tag) ==> st.after_find(tag).errcode == SX_DUPLICATE_NOT_ALLOWED,
        !st.is_duplicate(tag) ==> st.after_find(tag).errcode == st.errcode,
        st.is_duplicate(tag) <==> st.items.len() > 0 && (find_slot(
            st.opr_tb,
            st.items.last().itemtbl,
            tag,
        ) matches Some(slot) && slot < SX_MAX_ITEMS_PER_TABLE && st.items.last().num_occ_tbl[slot]
            != 0 && st.opr_tb[st.items.last().itemtbl[slot] as int].elementflags & SX_ELF_RPT == 0),
{
}

/// An element that is listed at a place of a table, and at no later
/// place, is found at that place.
pub proof fn lemma_find_slot_is_last_listing(
    tb: Seq<SxElementView>,
    itemtbl: Seq<usize>,
    tag: Seq<char>,
    slot: int,
)
    requires
        0 <= slot < itemtbl.len(),
        itemtbl[slot] < tb.len(),
        same_name(tb[itemtbl[slot] as int].tag, tag),
        forall|j: int|
            slot < j < itemtbl.len() ==> !(itemtbl[j] < tb.len() && same_name(
                tb[#[trigger] itemtbl[j] as int].tag,
                tag,
            )),
    ensures
        find_slot(tb, itemtbl, tag) == Some(slot),
    decreases itemtbl.len(),
{
    if itemtbl.len() - 1 > slot {
        let rest = itemtbl.drop_last();
        assert(!(itemtbl[itemtbl.len() - 1] < tb.len() && same_name(
            tb[itemtbl[itemtbl.len() - 1] as int].tag,
            tag,
        )));
        assert forall|j: int| slot < j < rest.len() implies !(rest[j] < tb.len() && same_name(
            tb[#[trigger] rest[j] as int].tag,
            tag,
        )) by {
            assert(rest[j] == itemtbl[j]);
        }
        lemma_find_slot_is_last_listing(tb, rest, tag, slot);
    }
}

/// Looking up an element by its tag, which is not empty, where the
/// innermost open table lists the element at `slot` and at no later place:
/// the element is found, its occurrence is counted at that place and at no
/// other, and the status code becomes that of a duplicate exactly if the
/// element has occurred before and may not repeat. This holds as far as
/// occurrences are counted: at the first fifty places of a table, and
/// below the largest count.
pub proof fn law_lookup_counts_and_refuses(st: IcdParseContext2View, tag: Seq<char>, slot: int)
    requires
        st.items.len() > 0,
        tag.len() > 0,
        0 <= slot < st.items.last().itemtbl.len(),
        slot < SX_MAX_ITEMS_PER_TABLE,
        slot < st.items.last().num_occ_tbl.len(),
        st.items.last().itemtbl[slot] < st.opr_tb.len(),
        st.opr_tb[st.items.last().itemtbl[slot] as int].tag == tag,
        forall|j: int|
            slot < j < st.items.last().itemtbl.len() ==> !(st.items.last().itemtbl[j]
                < st.opr_tb.len() && st.opr_tb[#[trigger] st.items.last().itemtbl[j] as int].tag
                == tag),
        st.items.last().num_occ_tbl[slot] < u32::MAX,
    ensures
        st.found(tag) == Some(st.items.last().itemtbl[slot]),
        st.after_find(tag).items.len() == st.items.len(),
        st.after_find(tag).items.drop_last() == st.items.drop_last(),
        st.after_find(tag).items.last().itemtbl == st.items.last().itemtbl,
        st.after_find(tag).items.last().num_occ_tbl.len() == st.items.last().num_occ_tbl.len(),
        st.after_find(tag).items.last().num_occ_tbl[slot] == st.items.last().num_occ_tbl[slot]
            + 1,
        forall|j: int|
            0 <= j < st.items.last().num_occ_tbl.len() && j != slot ==> st.after_find(
                tag,
            ).items.last().num_occ_tbl[j] == st.items.last().num_occ_tbl[j],
        st.after_find(tag).errcode == if st.items.last().num_occ_tbl[slot] != 0
            && st.opr_tb[st.items.last().itemtbl[slot] as int].elementflags & SX_ELF_RPT == 0 {
            SX_DUPLICATE_NOT_ALLOWED
        } else {
            st.errcode
        },
{
    lemma_find_slot_is_last_listing(st.opr_tb, st.items.last().itemtbl, tag, slot);
    assert(st.after_find(tag).items.drop_last() =~= st.items.drop_last());
}

/// `Header` may not repeat among its siblings, and `LN` may.
pub proof fn law_header_is_single_and_ln_repeats()
    ensures
        element_table().len() == 79,
        element_table()[1].tag == "Header"@,
        element_table()[1].elementflags & SX_ELF_RPT == 0,
        element_table()[26].tag == "LN"@,
        element_table()[26].elementflags & SX_ELF_RPT != 0,
{
    let head = scl_tb() + sub_scl_tb();
    assert(head.len() == 5);
    assert(element_table()[1] == sub_scl_tb()[0]);
    assert(element_table()[26] == ldeviceelements_tb()[1]);
    assert((0x0001u32 | 0x0004u32) & 0x0008u32 == 0) by (bit_vector);
    assert((0x0003u32 | 0x000Cu32) & 0x0008u32 != 0) by (bit_vector);
}

/// A logical node whose class is not exactly four bytes
/// long is refused when its element closes.
pub proof fn law_ln_class_has_four_bytes(st: IcdParseContext2View)
    requires
        st.info().has_ln(),
        st.reason != SX_ELEMENT_START,
        byte_len(st.info().ln().lnclass) != 4,
    ensures
        ln_model(st) == st.user_error(),
        ln_model(st).errcode == SX_USER_ERROR,
        ln_model(st).info() == st.info(),
{
}

/// A logical node that is named as the rules ask gets
/// prefix, class and instance as the name of its variable.
pub proof fn law_ln_gets_its_variable_name(st: IcdParseContext2View)
    requires
        st.info().has_ln(),
        st.reason != SX_ELEMENT_START,
        ln_naming_ok(st.info().ln()),
    ensures
        ln_model(st).errcode == st.errcode,
        ln_model(st).info().has_ln(),
        ln_model(st).info().ln().varname == st.info().ln().prefix + st.info().ln().lnclass
            + st.info().ln().inst,
{
}

/// An `LN0` whose class is not `LLN0` is refused when
/// its element opens, and no logical node is added.
pub proof fn law_ln0_is_of_class_lln0(st: IcdParseContext2View, lnclass: Seq<char>)
    requires
        st.info().has_ld(),
        st.reason == SX_ELEMENT_START,
        is_ln0(st),
        st.attr("lnClass"@) == Some(lnclass),
        trim_ws(lnclass) != "LLN0"@,
    ensures
        ln_of(st) is Err,
        ln_model(st).errcode != SD_SUCCESS,
        ln_model(st).info() == st.info(),
{
}

/// The handler of the root sets the edition that
/// [`edition_of`] names. Forcing edition 1 gives edition 1 whatever the
/// document shows; with nothing forced, version and revision together
/// give edition 2, and a root with neither gives edition 1.
pub proof fn law_edition(st: IcdParseContext2View, version: bool, revision: bool)
    requires
        st.reason == SX_ELEMENT_START,
    ensures
        scl_model(st).info().edition == edition_of(
            st.info().options.forceedition,
            st.attr("version"@) is Some,
            st.attr("revision"@) is Some,
        ),
        edition_of(1, version, revision) == 1,
        edition_of(2, version, revision) == 2,
        edition_of(0, true, true) == 2,
        edition_of(0, false, false) == 1,
        edition_of(0, version, revision) == 2 <==> version && revision,
{
}

/// Where `tail` holds no `$`, the last `$` of `head`, `$` and `tail` in a
/// row is the one between them.
pub proof fn lemma_last_dollar_of_joined(head: Seq<char>, tail: Seq<char>)
    requires
        forall|i: int| 0 <= i < tail.len() ==> tail[i] != '$',
    ensures
        last_dollar(head + seq!['$'] + tail) == Some(head.len() as int),
    decreases tail.len(),
{
    let all = head + seq!['$'] + tail;
    if tail.len() == 0 {
        assert(all.last() == '$');
    } else {
        assert(all.last() == tail.last());
        assert(all.drop_last() =~= head + seq!['$'] + tail.drop_last());
        lemma_last_dollar_of_joined(head, tail.drop_last());
    }
}

/// A text without a `$` has no last `$`.
pub proof fn lemma_no_dollar(s: Seq<char>)
    requires
        forall|i: int| 0 <= i < s.len() ==> s[i] != '$',
    ensures
        last_dollar(s) is None,
    decreases s.len(),
{
    if s.len() > 0 {
        lemma_no_dollar(s.drop_last());
    }
}

/// A step that is appended to a name is taken
/// away again by [`flat_parent`], as long as neither the step nor its
/// index holds a `$`.
pub proof fn law_flattened_step_in_and_out(flat: Seq<char>, name: Seq<char>, ix: Seq<char>)
    requires
        forall|i: int| 0 <= i < name.len() ==> name[i] != '$',
        forall|i: int| 0 <= i < ix.len() ==> ix[i] != '$',
    ensures
        flat_parent(flat_joined(flat, name, ix)) == flat,
{
    reveal_strlit("$");
    reveal_strlit("[");
    reveal_strlit("]");
    assert("$"@ =~= seq!['$']);
    assert("["@ =~= seq!['[']);
    assert("]"@ =~= seq![']']);
    let tail = if byte_len(ix) != 0 {
        name + seq!['['] + ix + seq![']']
    } else {
        name
    };
    if byte_len(flat) != 0 {
        assert(flat_joined(flat, name, ix) =~= flat + seq!['$'] + tail);
        lemma_last_dollar_of_joined(flat, tail);
        assert((flat + seq!['$'] + tail).take(flat.len() as int) =~= flat);
    } else {
        lemma_bytes_tell_texts_apart(flat, flat);
        assert(flat =~= Seq::<char>::empty());
        assert(flat_joined(flat, name, ix) =~= tail);
        lemma_no_dollar(tail);
    }
}

/// A bit that is set on a condition reads as set if it was set before or
/// if the condition holds; every other bit reads as before.
pub proof fn lemma_bit_on_if(buf: Seq<u8>, cond: bool, bitnum: int, other: int)
    requires
        0 <= bitnum,
        0 <= other,
        bit_byte(bitnum) < buf.len(),
    ensures
        bit_on_if(buf, cond, bitnum).len() == buf.len(),
        bit_is_set(bit_on_if(buf, cond, bitnum), other) == (bit_is_set(buf, other) || (cond && other
            == bitnum)),
{
    if cond {
        lemma_set_on_then_get(buf, bitnum, other);
        lemma_set_on_then_get(buf, bitnum, bitnum);
    }
}

/// The trigger options are one byte in which each option has
/// its own bit, set exactly if its attribute says `true`; the bit of
/// general interrogation is also set where its attribute is absent, and
/// no other bit is ever set.
pub proof fn law_trigger_options(st: IcdParseContext2View, bit: int)
    requires
        0 <= bit < 8,
    ensures
        trgops_of(st).len() == 1,
        bit_is_set(trgops_of(st), bit) == ((bit == 1 && attr_is(st.attr("dchg"@), "true"@)) || (bit
            == 2 && attr_is(st.attr("qchg"@), "true"@)) || (bit == 3 && attr_is(
            st.attr("dupd"@),
            "true"@,
        )) || (bit == 4 && attr_is(st.attr("period"@), "true"@)) || (bit == 5 && (st.attr("gi"@)
            is None || attr_is(st.attr("gi"@), "true"@)))),
{
    let b0 = seq![0u8];
    let c1 = attr_is(st.attr("dchg"@), "true"@);
    let c2 = attr_is(st.attr("qchg"@), "true"@);
    let c3 = attr_is(st.attr("dupd"@), "true"@);
    let c4 = attr_is(st.attr("period"@), "true"@);
    let c5 = st.attr("gi"@) is None || attr_is(st.attr("gi"@), "true"@);
    let b1 = bit_on_if(b0, c1, 1);
    let b2 = bit_on_if(b1, c2, 2);
    let b3 = bit_on_if(b2, c3, 3);
    let b4 = bit_on_if(b3, c4, 4);
    let b5 = bit_on_if(b4, c5, 5);
    lemma_bit_on_if(b0, c1, 1, bit);
    lemma_bit_on_if(b1, c2, 2, bit);
    lemma_bit_on_if(b2, c3, 3, bit);
    lemma_bit_on_if(b3, c4, 4, bit);
    lemma_bit_on_if(b4, c5, 5, bit);
    assert(b5 == trgops_of(st));
    let m = (bit % 8) as u8;
    assert(0u8 & (0x80u8 >> m) == 0) by (bit_vector);
    assert(!bit_is_set(b0, bit));
}

/// An element that asks for data change only, and says nothing
/// of general interrogation, gives the byte with bits 1 and 5 set.
pub proof fn law_trigger_options_of_data_change(st: IcdParseContext2View)
    requires
        attr_is(st.attr("dchg"@), "true"@),
        !attr_is(st.attr("qchg"@), "true"@),
        !attr_is(st.attr("dupd"@), "true"@),
        !attr_is(st.attr("period"@), "true"@),
        st.attr("gi"@) is None,
    ensures
        trgops_of(st) == seq![0x44u8],
{
    let b1 = with_bit_on(seq![0u8], 1);
    assert(0u8 | (0x80u8 >> 1u8) == 0x40u8) by (bit_vector);
    assert(b1 =~= seq![0x40u8]);
    let b5 = with_bit_on(b1, 5);
    assert(0x40u8 | (0x80u8 >> 5u8) == 0x44u8) by (bit_vector);
    assert(b5 =~= seq![0x44u8]);
}

/// Among the children of the root, a `Header` that
/// has occurred before is refused.
pub proof fn law_second_header_is_refused(st: IcdParseContext2View)
    requires
        st.opr_tb == element_table(),
        st.items.len() > 0,
        st.items.last().itemtbl == seq![1usize, 2, 3, 4],
        st.items.last().num_occ_tbl[0] != 0,
    ensures
        st.found("Header"@) == Some(1usize),
        st.is_duplicate("Header"@),
        st.after_find("Header"@).errcode == SX_DUPLICATE_NOT_ALLOWED,
{
    reveal_strlit("Header");
    reveal_strlit("Communication");
    reveal_strlit("IED");
    reveal_strlit("DataTypeTemplates");
    let tb = element_table();
    let head = scl_tb() + sub_scl_tb();
    assert(head.len() == 5);
    assert(tb[1] == sub_scl_tb()[0]);
    assert(tb[2] == sub_scl_tb()[1]);
    assert(tb[3] == sub_scl_tb()[2]);
    assert(tb[4] == sub_scl_tb()[3]);
    let t4 = seq![1usize, 2, 3, 4];
    let t3 = seq![1usize, 2, 3];
    let t2 = seq![1usize, 2];
    let t1 = seq![1usize];
    assert(t4.drop_last() =~= t3);
    assert(t3.drop_last() =~= t2);
    assert(t2.drop_last() =~= t1);
    assert(find_slot(tb, t1, "Header"@) == Some(0int));
    assert(find_slot(tb, t2, "Header"@) == Some(0int));
    assert(find_slot(tb, t3, "Header"@) == Some(0int));
    assert(find_slot(tb, t4, "Header"@) == Some(0int));
    assert((0x0001u32 | 0x0004u32) & 0x0008u32 == 0) by (bit_vector);
}

/// Among the children of a logical device, an `LN`
/// is accepted however often it has occurred before.
pub proof fn law_second_ln_is_accepted(st: IcdParseContext2View)
    requires
        st.opr_tb == element_table(),
        st.items.len() > 0,
        st.items.last().itemtbl == seq![25usize, 26],
    ensures
        st.found("LN"@) == Some(26usize),
        !st.is_duplicate("LN"@),
        st.after_find("LN"@).errcode == st.errcode,
{
    reveal_strlit("LN");
    reveal_strlit("LN0");
    let tb = element_table();
    assert(tb[25] == ldeviceelements_tb()[0]);
    assert(tb[26] == ldeviceelements_tb()[1]);
    let t2 = seq![25usize, 26];
    assert(find_slot(tb, t2, "LN"@) == Some(1int));
    assert((0x0003u32 | 0x000Cu32) & 0x0008u32 != 0) by (bit_vector);
}

/// A walk looks its elements up in the tables of this crate from its
/// first event to its last.
pub proof fn law_walk_keeps_the_tables(
    events: Seq<XmlEventView>,
    iedname: Seq<char>,
    accesspointname: Seq<char>,
    options: Option<SclOptionsView>,
)
    ensures
        walk_start(iedname, accesspointname, options).run(events).opr_tb == element_table(),
{
    law_run_servers(walk_start(iedname, accesspointname, options), events);
}

/// Whether a state is within the bounds of a walk: no more elements are
/// open than nesting allows, and no more tables than may be open at once.
pub open spec fn within_bounds(st: IcdParseContext2View) -> bool {
    st.eltbl.len() <= SX_MAX_XML_NEST && st.items.len() <= SX_MAX_STACK_LEVEL
}

/// An event leaves a state within the bounds of a walk.
pub proof fn law_event_keeps_bounds(st: IcdParseContext2View, ev: XmlEventView)
    requires
        within_bounds(st),
    ensures
        within_bounds(st.after_event(ev)),
{
    match ev {
        XmlEventView::Start(t) => {
            lemma_start_element_keeps_bounds(st, t);
        },
        XmlEventView::End(t) => {
            lemma_end_element_keeps_bounds(st, t.tag);
        },
        XmlEventView::Empty(t) => {
            lemma_start_element_keeps_bounds(st, t);
            lemma_end_element_keeps_bounds(st.start_element(t), t.tag);
        },
        XmlEventView::Text(s) => {},
        XmlEventView::Other => {},
    }
}

/// An opening tag leaves a state within the bounds of a walk.
pub proof fn lemma_start_element_keeps_bounds(st: IcdParseContext2View, tag: TagInfoView)
    requires
        within_bounds(st),
    ensures
        within_bounds(st.start_element(tag)),
{
    if st.eltbl.len() < SX_MAX_XML_NEST && !st.latched() && !st.in_unknown() {
        match st.found(tag.tag) {
            Some(index) => {
                let ready = IcdParseContext2View {
                    op_start_tag: Some(tag),
                    reason: SX_ELEMENT_START,
                    ..st.after_find(tag.tag)
                };
                assert(ready.eltbl == st.eltbl);
                assert(ready.items.len() == st.items.len());
                law_only_accesspoint_adds_servers(st.opr_tb[index as int].handler, ready);
            },
            None => {},
        }
    }
}

/// A closing tag leaves a state within the bounds of a walk.
pub proof fn lemma_end_element_keeps_bounds(st: IcdParseContext2View, tag: Seq<char>)
    requires
        within_bounds(st),
    ensures
        within_bounds(st.end_element(tag)),
{
    if st.eltbl.len() > 0 && !st.latched() {
        let closed = IcdParseContext2View { eltbl: st.eltbl.drop_last(), ..st };
        match st.eltbl.last() {
            Some(index) => {
                if index < st.opr_tb.len() {
                    law_only_accesspoint_adds_servers(
                        st.opr_tb[index as int].handler,
                        IcdParseContext2View { reason: SX_ELEMENT_END, ..closed },
                    );
                }
            },
            None => {},
        }
    }
}

/// However a document nests its elements, a walk never has more
/// than thirty of them open, nor more tables than may be open at once.
pub proof fn law_depth_bound(
    events: Seq<XmlEventView>,
    iedname: Seq<char>,
    accesspointname: Seq<char>,
    options: Option<SclOptionsView>,
)
    ensures
        within_bounds(walk_start(iedname, accesspointname, options).run(events)),
    decreases events.len(),
{
    let start = walk_start(iedname, accesspointname, options);
    if events.len() > 0 {
        law_depth_bound(events.drop_last(), iedname, accesspointname, options);
        let before = start.run(events.drop_last());
        if !before.latched() {
            law_event_keeps_bounds(before, events.last());
        }
    }
}

/// Once the status code has stopped the walk, no event
/// changes anything.
pub proof fn law_error_latch(st: IcdParseContext2View, events: Seq<XmlEventView>)
    requires
        st.latched(),
    ensures
        st.run(events) == st,
    decreases events.len(),
{
    if events.len() > 0 {
        law_error_latch(st, events.drop_last());
    }
}

/// A walk that has stopped gives its status code as the
/// reason, whatever follows.
pub proof fn law_first_error_is_reported(
    st: IcdParseContext2View,
    events: Seq<XmlEventView>,
    more: Seq<XmlEventView>,
)
    requires
        st.run(events).latched(),
    ensures
        st.run(events + more) == st.run(events),
    decreases more.len(),
{
    if more.len() == 0 {
        assert(events + more =~= events);
    } else {
        law_first_error_is_reported(st, events, more.drop_last());
        assert((events + more).drop_last() =~= events + more.drop_last());
    }
}

/// Whether a state holds the servers of another under their names, and
/// the names that the caller asked for.
pub open spec fn names_kept(before: IcdParseContext2View, after: IcdParseContext2View) -> bool {
    &&& after.scl_dec_ctrl.iedname == before.scl_dec_ctrl.iedname
    &&& after.scl_dec_ctrl.accesspointname == before.scl_dec_ctrl.accesspointname
    &&& after.info().server_vec.len() == before.info().server_vec.len()
    &&& forall|i: int|
        0 <= i < before.info().server_vec.len() ==> (#[trigger] after.info().server_vec[i]).apname
            == before.info().server_vec[i].apname && after.info().server_vec[i].iedname
            == before.info().server_vec[i].iedname
}

/// Whether each server of a state bears the name of the access point that
/// the caller asked for, but for white space around it.
pub open spec fn servers_named(st: IcdParseContext2View) -> bool {
    forall|i: int|
        0 <= i < st.info().server_vec.len() ==> trim_ws(
            (#[trigger] st.info().server_vec[i]).apname,
        ) == st.scl_dec_ctrl.accesspointname
}

/// The handler of `AccessPoint` keeps the names that the caller asked
/// for, and leaves each server under the name of the access point asked
/// for if that was so before.
pub proof fn law_accesspoint_keeps_servers_named(st: IcdParseContext2View)
    requires
        servers_named(st),
    ensures
        servers_named(accesspoint_model(st)),
        accesspoint_model(st).scl_dec_ctrl.iedname == st.scl_dec_ctrl.iedname,
        accesspoint_model(st).scl_dec_ctrl.accesspointname == st.scl_dec_ctrl.accesspointname,
{
}

/// The handlers of the root and of its sections keep each server under its names, and the
/// names that the caller asked for.
pub proof fn law_root_handlers_keep_names(st: IcdParseContext2View)
    ensures
        names_kept(st, root::scl_model(st)),
        names_kept(st, root::header_model(st)),
        names_kept(st, root::communication_model(st)),
        names_kept(st, root::ied_model(st)),
        names_kept(st, root::datatypetemplates_model(st)),
        names_kept(st, root::server_model(st)),
{
}

/// The handlers of the communication section keep each server under its names, and the
/// names that the caller asked for.
pub proof fn law_comm_handlers_keep_names(st: IcdParseContext2View)
    ensures
        names_kept(st, comm::subnetwork_model(st)),
        names_kept(st, comm::connectedap_model(st)),
        names_kept(st, comm::address_model(st)),
        names_kept(st, comm::address_p_model(st)),
        names_kept(st, comm::gse_model(st)),
        names_kept(st, comm::smv_model(st)),
        names_kept(st, comm::gse_address_model(st)),
        names_kept(st, comm::gse_mintime_model(st)),
        names_kept(st, comm::gse_maxtime_model(st)),
        names_kept(st, comm::gse_address_p_model(st)),
        names_kept(st, comm::smv_address_model(st)),
        names_kept(st, comm::smv_address_p_model(st)),
{
}

/// The handlers of logical devices and nodes keep each server under its names, and the
/// names that the caller asked for.
pub proof fn law_lnode_handlers_keep_names(st: IcdParseContext2View)
    ensures
        names_kept(st, lnode::ldevice_model(st)),
        names_kept(st, lnode::ln_model(st)),
{
}

/// The handlers of data sets and control blocks keep each server under its names, and the
/// names that the caller asked for.
pub proof fn law_control_handlers_keep_names(st: IcdParseContext2View)
    ensures
        names_kept(st, control::dataset_model(st)),
        names_kept(st, control::fcda_model(st)),
        names_kept(st, control::reportcontrol_model(st)),
        names_kept(st, control::trgops_model(st)),
        names_kept(st, control::optflds_model(st)),
        names_kept(st, control::rptenabled_model(st)),
        names_kept(st, control::logcontrol_model(st)),
        names_kept(st, control::settingcontrol_model(st)),
        names_kept(st, control::gsecontrol_model(st)),
        names_kept(st, control::inputs_model(st)),
        names_kept(st, control::extref_model(st)),
        names_kept(st, sampled::sampledvaluecontrol_model(st)),
        names_kept(st, sampled::smvopts_model(st)),
{
}

/// The handlers of data values keep each server under its names, and the
/// names that the caller asked for.
pub proof fn law_value_handlers_keep_names(st: IcdParseContext2View)
    ensures
        names_kept(st, values::doi_model(st)),
        names_kept(st, values::sdi_model(st)),
        names_kept(st, values::dai_model(st)),
        names_kept(st, values::dai_val_model(st)),
{
}

/// The handlers of the type templates keep each server under its names, and the
/// names that the caller asked for.
pub proof fn law_template_handlers_keep_names(st: IcdParseContext2View)
    ensures
        names_kept(st, templates::lnodetype_model(st)),
        names_kept(st, templates::do_model(st)),
        names_kept(st, templates::dotype_model(st)),
        names_kept(st, templates::da_model(st)),
        names_kept(st, templates::sdo_model(st)),
        names_kept(st, templates::da_val_model(st)),
        names_kept(st, templates::datype_model(st)),
        names_kept(st, templates::bda_model(st)),
        names_kept(st, templates::bda_val_model(st)),
        names_kept(st, templates::enumtype_model(st)),
        names_kept(st, templates::enumval_model(st)),
{
}

/// The handlers of the services keep each server under its names, and the
/// names that the caller asked for.
pub proof fn law_service_handlers_keep_names(st: IcdParseContext2View)
    ensures
        names_kept(st, services::services_model(st)),
        names_kept(st, services::getdirectory_model(st)),
        names_kept(st, services::getdataobjectdefinition_model(st)),
        names_kept(st, services::dataobjectdirectory_model(st)),
        names_kept(st, services::getdatasetvalue_model(st)),
        names_kept(st, services::setdatasetvalue_model(st)),
        names_kept(st, services::datasetdirectory_model(st)),
        names_kept(st, services::readwrite_model(st)),
        names_kept(st, services::timeractivatedcontrol_model(st)),
        names_kept(st, services::getcbvalues_model(st)),
        names_kept(st, services::gsedir_model(st)),
        names_kept(st, services::filehandling_model(st)),
        names_kept(st, services::confldname_model(st)),
        names_kept(st, services::conflogcontrol_model(st)),
        names_kept(st, services::goose_model(st)),
        names_kept(st, services::gsse_model(st)),
        names_kept(st, services::smvsc_model(st)),
        names_kept(st, services::supsubscription_model(st)),
        names_kept(st, services::confsigref_model(st)),
        names_kept(st, services::reportsettings_model(st)),
{
}

/// A state that holds what another holds of the document has its servers
/// under the name of the access point asked for if the other has.
pub proof fn lemma_same_servers_named(a: IcdParseContext2View, b: IcdParseContext2View)
    requires
        servers_named(a),
        b.scl_dec_ctrl == a.scl_dec_ctrl,
    ensures
        servers_named(b),
{
    assert forall|i: int| 0 <= i < b.info().server_vec.len() implies trim_ws(
        (#[trigger] b.info().server_vec[i]).apname,
    ) == b.scl_dec_ctrl.accesspointname by {
        assert(a.info().server_vec[i] == b.info().server_vec[i]);
    }
}

/// No handler takes a server away from the name of the access point that
/// the caller asked for, and none changes the names asked for.
pub proof fn law_handler_keeps_servers_named(handler: HandlerId, st: IcdParseContext2View)
    requires
        servers_named(st),
    ensures
        servers_named(handler_model(handler, st)),
        handler_model(handler, st).scl_dec_ctrl.iedname == st.scl_dec_ctrl.iedname,
        handler_model(handler, st).scl_dec_ctrl.accesspointname
            == st.scl_dec_ctrl.accesspointname,
{
    if is_root_handler(handler) {
        reveal(root_handler_model);
        law_accesspoint_keeps_servers_named(st);
        law_root_handlers_keep_names(st);
    } else if is_comm_handler(handler) {
        reveal(comm_handler_model);
        law_comm_handlers_keep_names(st);
    } else if is_node_handler(handler) {
        reveal(node_handler_model);
        law_lnode_handlers_keep_names(st);
        law_control_handlers_keep_names(st);
    } else if is_data_handler(handler) {
        reveal(data_handler_model);
        law_value_handlers_keep_names(st);
        law_template_handlers_keep_names(st);
    } else {
        reveal(service_handler_model);
        law_service_handlers_keep_names(st);
    }
}

/// An opening tag leaves each server under the name of the access point
/// asked for.
pub proof fn law_start_element_keeps_servers_named(st: IcdParseContext2View, tag: TagInfoView)
    requires
        servers_named(st),
    ensures
        servers_named(st.start_element(tag)),
        st.start_element(tag).scl_dec_ctrl.iedname == st.scl_dec_ctrl.iedname,
        st.start_element(tag).scl_dec_ctrl.accesspointname == st.scl_dec_ctrl.accesspointname,
{
    if st.eltbl.len() < SX_MAX_XML_NEST && !st.latched() && !st.in_unknown() {
        match st.found(tag.tag) {
            Some(index) => {
                let ready = IcdParseContext2View {
                    op_start_tag: Some(tag),
                    reason: SX_ELEMENT_START,
                    ..st.after_find(tag.tag)
                };
                assert(ready.scl_dec_ctrl == st.scl_dec_ctrl);
                lemma_same_servers_named(st, ready);
                let handler = st.opr_tb[index as int].handler;
                law_handler_keeps_servers_named(handler, ready);
                if st.opr_tb[index as int].elementflags & SX_ELF_CSTART != 0 {
                    lemma_same_servers_named(handler_model(handler, ready), st.start_element(tag));
                } else {
                    lemma_same_servers_named(ready, st.start_element(tag));
                }
            },
            None => {
                lemma_same_servers_named(st, st.start_element(tag));
            },
        }
    } else {
        lemma_same_servers_named(st, st.start_element(tag));
    }
}

/// A closing tag leaves each server under the name of the access point
/// asked for.
pub proof fn law_end_element_keeps_servers_named(st: IcdParseContext2View, tag: Seq<char>)
    requires
        servers_named(st),
    ensures
        servers_named(st.end_element(tag)),
        st.end_element(tag).scl_dec_ctrl.iedname == st.scl_dec_ctrl.iedname,
        st.end_element(tag).scl_dec_ctrl.accesspointname == st.scl_dec_ctrl.accesspointname,
{
    if st.eltbl.len() > 0 && !st.latched() {
        let closed = IcdParseContext2View { eltbl: st.eltbl.drop_last(), ..st };
        match st.eltbl.last() {
            Some(index) => {
                let ending = IcdParseContext2View { reason: SX_ELEMENT_END, ..closed };
                lemma_same_servers_named(st, ending);
                if index < st.opr_tb.len() && same_name(tag, st.opr_tb[index as int].tag)
                    && st.opr_tb[index as int].elementflags & SX_ELF_CEND != 0 {
                    law_handler_keeps_servers_named(st.opr_tb[index as int].handler, ending);
                } else {
                    lemma_same_servers_named(st, st.end_element(tag));
                }
            },
            None => {
                lemma_same_servers_named(st, st.end_element(tag));
            },
        }
    } else {
        lemma_same_servers_named(st, st.end_element(tag));
    }
}

/// A run of events leaves each server under the name of the access point
/// asked for.
pub proof fn law_run_keeps_servers_named(st: IcdParseContext2View, events: Seq<XmlEventView>)
    requires
        servers_named(st),
    ensures
        servers_named(st.run(events)),
        st.run(events).scl_dec_ctrl.iedname == st.scl_dec_ctrl.iedname,
        st.run(events).scl_dec_ctrl.accesspointname == st.scl_dec_ctrl.accesspointname,
    decreases events.len(),
{
    if events.len() > 0 {
        law_run_keeps_servers_named(st, events.drop_last());
        let before = st.run(events.drop_last());
        if !before.latched() {
            match events.last() {
                XmlEventView::Start(t) => {
                    law_start_element_keeps_servers_named(before, t);
                },
                XmlEventView::End(t) => {
                    law_end_element_keeps_servers_named(before, t.tag);
                },
                XmlEventView::Empty(t) => {
                    law_start_element_keeps_servers_named(before, t);
                    law_end_element_keeps_servers_named(before.start_element(t), t.tag);
                },
                XmlEventView::Text(s) => {
                    lemma_same_servers_named(before, before.after_event(events.last()));
                },
                XmlEventView::Other => {},
            }
        }
    }
}

/// Each server of a document that is read without error bears the name
/// of the access point that the caller asked for, as the document spells
/// it: with or without white space around it.
pub proof fn law_servers_bear_the_name_asked_for(
    events: Seq<XmlEventView>,
    iedname: Seq<char>,
    accesspointname: Seq<char>,
    options: Option<SclOptionsView>,
)
    ensures
        match scl_parse_model(events, iedname, accesspointname, options) {
            Ok(info) => forall|i: int|
                0 <= i < info.server_vec.len() ==> trim_ws((#[trigger] info.server_vec[i]).apname)
                    == accesspointname,
            Err(_) => true,
        },
{
    law_run_keeps_servers_named(walk_start(iedname, accesspointname, options), events);
}

/// Each server of a text that is read without error bears the name of
/// the access point that the caller asked for, as the text spells it: with
/// or without white space around it.
pub proof fn law_text_servers_bear_the_name_asked_for(
    xml: Seq<char>,
    iedname: Seq<char>,
    accesspointname: Seq<char>,
    options: Option<SclOptionsView>,
)
    ensures
        match text_model(xml, iedname, accesspointname, options) {
            Ok(info) => forall|i: int|
                0 <= i < info.server_vec.len() ==> trim_ws((#[trigger] info.server_vec[i]).apname)
                    == accesspointname,
            Err(_) => true,
        },
{
    law_run_keeps_servers_named(
        walk_start(iedname, accesspointname, options),
        events_of(xml_pieces(xml).0).0,
    );
}

} // verus!
