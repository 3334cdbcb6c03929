//! The handlers of the `Communication` section: subnetworks, the access
//! points connected to them, and the addresses of those.

use crate::consts::{MAX_PSEL_LEN, MAX_SSEL_LEN, MAX_TSEL_LEN, SX_ELEMENT_END, SX_ELEMENT_START};
use crate::context::{IcdParseContext2, IcdParseContext2View};
use crate::cursor::{cap_mut, gse_mut, has_cap, has_gse, has_smv, has_subnet, smv_mut, subnet_mut};
use crate::model::{
    AeTitle, AeTitleView, MmsObjId, MmsObjIdView, SclAddress, SclAddressView, SclCap, SclCapView,
    SclGse, SclGseView, SclInfoView, SclSmv, SclSmvView, SclSubnet, SclSubnetView,
};
use crate::text::{
    eq_ignore_case, or_empty, parse_hex_u32, parse_i32, parse_u32, str_byte_len, str_parse_i32,
    str_parse_u32, str_trim, text_or_empty, trim_ws, u32_from_hex,
};
use crate::validate::{
    ascii_to_hex_str, ascii_to_objid, check_eq_2str_incaseinse, hex_str_bytes, ipv4_of,
    mac_address_of, mac_from_str, objid_of, parse_ipv4,
};
use vstd::prelude::*;
use vstd::utf8::encode_utf8;

verus! {

/// A run of `n` zero bytes.
pub open spec fn zero_bytes(n: nat) -> Seq<u8> {
    Seq::new(n, |i: int| 0u8)
}

/// The address of an access point of which nothing has been read.
pub open spec fn blank_address() -> SclAddressView {
    SclAddressView {
        ae_title: AeTitleView {
            ap_title_pres: false,
            ap_title: MmsObjIdView { num_comps: 0, comps: Seq::new(16, |i: int| 0i16) },
            ae_qual_pres: false,
            ae_qual: 0,
            ap_inv_id_pres: false,
            ap_inv_id: 0,
            ae_inv_id_pres: false,
            ae_inv_id: 0,
        },
        psel_len: 0,
        psel: zero_bytes(16),
        ssel_len: 0,
        ssel: zero_bytes(16),
        tsel_len: 0,
        tsel: zero_bytes(32),
        ip: zero_bytes(4),
    }
}

/// Makes the address of an access point of which nothing has been read.
pub fn new_address() -> (r: SclAddress)
    ensures
        r@ == blank_address(),
{
    let r = SclAddress {
        ae_title: AeTitle {
            ap_title_pres: false,
            ap_title: MmsObjId { num_comps: 0, comps: [0i16; 16] },
            ae_qual_pres: false,
            ae_qual: 0,
            ap_inv_id_pres: false,
            ap_inv_id: 0,
            ae_inv_id_pres: false,
            ae_inv_id: 0,
        },
        psel_len: 0,
        psel: [0u8; 16],
        ssel_len: 0,
        ssel: [0u8; 16],
        tsel_len: 0,
        tsel: [0u8; 32],
        ip: [0u8; 4],
    };
    assert(r@ =~~= blank_address());
    r
}

impl IcdParseContext2View {
    /// The state with another address of the last connected access point.
    pub open spec fn with_address(self, address: SclAddressView) -> Self {
        self.with_info(self.info().with_cap(SclCapView { address, ..self.info().cap() }))
    }

    /// The state with another last GOOSE transport.
    pub open spec fn with_gse(self, gse: SclGseView) -> Self {
        self.with_info(self.info().with_gse(gse))
    }

    /// The state with another last sampled value transport.
    pub open spec fn with_smv(self, smv: SclSmvView) -> Self {
        self.with_info(self.info().with_smv(smv))
    }
}

/// `SubNetwork`: a subnetwork is added when the element opens.
pub open spec fn subnetwork_model(st: IcdParseContext2View) -> IcdParseContext2View {
    if st.reason == SX_ELEMENT_START {
        match st.attr("name"@) {
            None => st.attr_missing(),
            Some(name) => st.with_info(
                SclInfoView {
                    subnet_vec: st.info().subnet_vec.push(
                        SclSubnetView {
                            name,
                            desc: text_or_empty(st.attr("desc"@)),
                            rtype: text_or_empty(st.attr("type"@)),
                            cap_vec: seq![],
                        },
                    ),
                    ..st.info()
                },
            ).pushed(seq![12usize]),
        }
    } else {
        st.popped()
    }
}

/// Handles `SubNetwork`.
pub fn subnetwork_sefun(ctx: &mut IcdParseContext2)
    ensures
        final(ctx)@ == subnetwork_model(old(ctx)@),
{
    if ctx.reason == SX_ELEMENT_START {
        let name = match ctx.req_attr("name") {
            Some(name) => name,
            None => {
                return ;
            },
        };
        let desc = or_empty(ctx.opt_attr("desc"));
        let rtype = or_empty(ctx.opt_attr("type"));
        ctx.scl_dec_ctrl.sclinfo.subnet_vec.push(
            SclSubnet { name, desc, rtype, cap_vec: Vec::new() },
        );
        ctx.sx_push(vec![12]);
        assert(ctx@ =~~= subnetwork_model(old(ctx)@));
    } else {
        ctx.sx_pop();
    }
}

/// `ConnectedAP`: an access point is added to the last subnetwork when the
/// element opens.
pub open spec fn connectedap_model(st: IcdParseContext2View) -> IcdParseContext2View {
    if st.reason == SX_ELEMENT_START {
        match st.attr("iedName"@) {
            None => st.attr_missing(),
            Some(iedname) => match st.attr("apName"@) {
                None => st.attr_missing(),
                Some(apname) => if st.info().has_subnet() {
                    st.with_info(
                        st.info().with_subnet(
                            SclSubnetView {
                                cap_vec: st.info().subnet().cap_vec.push(
                                    SclCapView {
                                        iedname,
                                        desc: text_or_empty(st.attr("desc"@)),
                                        apname,
                                        address: blank_address(),
                                        gse_vec: seq![],
                                        smv_vec: seq![],
                                    },
                                ),
                                ..st.info().subnet()
                            },
                        ),
                    ).pushed(seq![13usize, 14, 15])
                } else {
                    st.user_error()
                },
            },
        }
    } else {
        st.popped()
    }
}

/// Handles `ConnectedAP`.
pub fn connectedap_sefun(ctx: &mut IcdParseContext2)
    ensures
        final(ctx)@ == connectedap_model(old(ctx)@),
{
    if ctx.reason == SX_ELEMENT_START {
        let iedname = match ctx.req_attr("iedName") {
            Some(v) => v,
            None => {
                return ;
            },
        };
        let apname = match ctx.req_attr("apName") {
            Some(v) => v,
            None => {
                return ;
            },
        };
        let desc = or_empty(ctx.opt_attr("desc"));
        if has_subnet(&ctx.scl_dec_ctrl.sclinfo) {
            subnet_mut(&mut ctx.scl_dec_ctrl.sclinfo).cap_vec.push(
                SclCap {
                    iedname,
                    desc,
                    apname,
                    address: new_address(),
                    gse_vec: Vec::new(),
                    smv_vec: Vec::new(),
                },
            );
        } else {
            ctx.set_user_error();
            return ;
        }
        ctx.sx_push(vec![13, 14, 15]);
        assert(ctx@ =~~= connectedap_model(old(ctx)@));
    } else {
        ctx.sx_pop();
    }
}

/// `Address` of an access point: only opens the table of its children.
pub open spec fn address_model(st: IcdParseContext2View) -> IcdParseContext2View {
    if st.reason == SX_ELEMENT_START {
        st.pushed(seq![16usize])
    } else {
        st.popped()
    }
}

/// Handles the `Address` of an access point.
pub fn address_sefun(ctx: &mut IcdParseContext2)
    ensures
        final(ctx)@ == address_model(old(ctx)@),
{
    if ctx.reason == SX_ELEMENT_START {
        ctx.sx_push(vec![16]);
        assert(ctx@ =~~= address_model(old(ctx)@));
    } else {
        ctx.sx_pop();
    }
}

/// A selector into which the bytes `v` have been written from its start.
pub open spec fn selector_set(sel: Seq<u8>, v: Seq<u8>) -> Seq<u8> {
    Seq::new(
        sel.len(),
        |i: int|
            if i < v.len() {
                v[i]
            } else {
                sel[i]
            },
    )
}

/// Which part of an address a `P` element sets, by its `type`.
pub enum AddressPart {
    Psel,
    Ssel,
    Tsel,
    Ip,
    ApTitle,
    AeQualifier,
    ApInvoke,
    AeInvoke,
    Other,
}

/// The part that the `type` of a `P` element names; the case of letters
/// does not count.
pub open spec fn address_part(rtype: Seq<char>) -> AddressPart {
    if eq_ignore_case(rtype, "OSI-PSEL"@) {
        AddressPart::Psel
    } else if eq_ignore_case(rtype, "OSI-SSEL"@) {
        AddressPart::Ssel
    } else if eq_ignore_case(rtype, "OSI-TSEL"@) {
        AddressPart::Tsel
    } else if eq_ignore_case(rtype, "IP"@) {
        AddressPart::Ip
    } else if eq_ignore_case(rtype, "OSI-AP-Title"@) {
        AddressPart::ApTitle
    } else if eq_ignore_case(rtype, "OSI-AE-Qualifier"@) {
        AddressPart::AeQualifier
    } else if eq_ignore_case(rtype, "OSI-AP-Invoke"@) {
        AddressPart::ApInvoke
    } else if eq_ignore_case(rtype, "OSI-AE-Invoke"@) {
        AddressPart::AeInvoke
    } else {
        AddressPart::Other
    }
}

/// Tells which part of an address a `type` names.
pub fn address_part_of(rtype: &str) -> (r: AddressPart)
    ensures
        r == address_part(rtype@),
{
    if check_eq_2str_incaseinse(rtype, "OSI-PSEL") {
        AddressPart::Psel
    } else if check_eq_2str_incaseinse(rtype, "OSI-SSEL") {
        AddressPart::Ssel
    } else if check_eq_2str_incaseinse(rtype, "OSI-TSEL") {
        AddressPart::Tsel
    } else if check_eq_2str_incaseinse(rtype, "IP") {
        AddressPart::Ip
    } else if check_eq_2str_incaseinse(rtype, "OSI-AP-Title") {
        AddressPart::ApTitle
    } else if check_eq_2str_incaseinse(rtype, "OSI-AE-Qualifier") {
        AddressPart::AeQualifier
    } else if check_eq_2str_incaseinse(rtype, "OSI-AP-Invoke") {
        AddressPart::ApInvoke
    } else if check_eq_2str_incaseinse(rtype, "OSI-AE-Invoke") {
        AddressPart::AeInvoke
    } else {
        AddressPart::Other
    }
}

/// An invocation number: the text may not be empty and must spell an `i32`
/// once the white space around it is gone.
pub open spec fn invoke_number(txt: Seq<char>) -> Option<i32> {
    if encode_utf8(txt).len() == 0 {
        None
    } else {
        parse_i32(trim_ws(txt))
    }
}

/// The address after the text `txt` was read for its part `part`, or
/// nothing where the text is refused. An object identifier that cannot be
/// read leaves the address as it is.
pub open spec fn address_with(addr: SclAddressView, part: AddressPart, txt: Seq<char>) -> Option<
    SclAddressView,
> {
    match part {
        AddressPart::Psel => match hex_str_bytes(encode_utf8(txt), MAX_PSEL_LEN as nat) {
            Ok(v) => Some(
                SclAddressView {
                    psel: selector_set(addr.psel, v),
                    psel_len: v.len() as u32,
                    ..addr
                },
            ),
            Err(_) => None,
        },
        AddressPart::Ssel => match hex_str_bytes(encode_utf8(txt), MAX_SSEL_LEN as nat) {
            Ok(v) => Some(
                SclAddressView {
                    ssel: selector_set(addr.ssel, v),
                    ssel_len: v.len() as u32,
                    ..addr
                },
            ),
            Err(_) => None,
        },
        AddressPart::Tsel => match hex_str_bytes(encode_utf8(txt), MAX_TSEL_LEN as nat) {
            Ok(v) => Some(
                SclAddressView {
                    tsel: selector_set(addr.tsel, v),
                    tsel_len: v.len() as u32,
                    ..addr
                },
            ),
            Err(_) => None,
        },
        AddressPart::Ip => match ipv4_of(encode_utf8(txt)) {
            Some(ip) => Some(SclAddressView { ip, ..addr }),
            None => None,
        },
        AddressPart::ApTitle => match objid_of(txt) {
            Ok(id) => Some(
                SclAddressView {
                    ae_title: AeTitleView { ap_title: id, ap_title_pres: true, ..addr.ae_title },
                    ..addr
                },
            ),
            Err(_) => Some(addr),
        },
        AddressPart::AeQualifier => match invoke_number(txt) {
            Some(n) => Some(
                SclAddressView {
                    ae_title: AeTitleView { ae_qual: n, ae_qual_pres: true, ..addr.ae_title },
                    ..addr
                },
            ),
            None => None,
        },
        AddressPart::ApInvoke => match invoke_number(txt) {
            Some(n) => Some(
                SclAddressView {
                    ae_title: AeTitleView { ap_inv_id: n, ap_inv_id_pres: true, ..addr.ae_title },
                    ..addr
                },
            ),
            None => None,
        },
        AddressPart::AeInvoke => match invoke_number(txt) {
            Some(n) => Some(
                SclAddressView {
                    ae_title: AeTitleView { ae_inv_id: n, ae_inv_id_pres: true, ..addr.ae_title },
                    ..addr
                },
            ),
            None => None,
        },
        AddressPart::Other => Some(addr),
    }
}

/// Writes the bytes `v` into a selector of sixteen bytes, from its start.
fn selector16_set(sel: &mut [u8; 16], v: &Vec<u8>)
    requires
        v@.len() <= 16,
    ensures
        final(sel)@ == selector_set(old(sel)@, v@),
{
    let n = v.len();
    let mut i: usize = 0;
    while i < n
        invariant
            n == v@.len(),
            n <= 16,
            i <= n,
            sel@.len() == 16,
            forall|j: int| 0 <= j < i ==> sel@[j] == v@[j],
            forall|j: int| i <= j < 16 ==> sel@[j] == old(sel)@[j],
        decreases n - i,
    {
        sel[i] = v[i];
        i = i + 1;
    }
    assert(sel@ =~= selector_set(old(sel)@, v@));
}

/// Writes the bytes `v` into a selector of thirty-two bytes, from its start.
fn selector32_set(sel: &mut [u8; 32], v: &Vec<u8>)
    requires
        v@.len() <= 32,
    ensures
        final(sel)@ == selector_set(old(sel)@, v@),
{
    let n = v.len();
    let mut i: usize = 0;
    while i < n
        invariant
            n == v@.len(),
            n <= 32,
            i <= n,
            sel@.len() == 32,
            forall|j: int| 0 <= j < i ==> sel@[j] == v@[j],
            forall|j: int| i <= j < 32 ==> sel@[j] == old(sel)@[j],
        decreases n - i,
    {
        sel[i] = v[i];
        i = i + 1;
    }
    assert(sel@ =~= selector_set(old(sel)@, v@));
}

/// Reads an invocation number.
fn read_invoke_number(txt: &str) -> (r: Option<i32>)
    ensures
        r == invoke_number(txt@),
{
    if str_byte_len(txt) == 0 {
        None
    } else {
        str_parse_i32(str_trim(txt))
    }
}

/// Reads the text `txt` into the part `part` of the address; tells whether
/// the text was accepted.
pub fn address_read(addr: &mut SclAddress, part: AddressPart, txt: &str) -> (ok: bool)
    ensures
        match address_with(old(addr)@, part, txt@) {
            Some(a) => ok && final(addr)@ == a,
            None => !ok && final(addr)@ == old(addr)@,
        },
{
    match part {
        AddressPart::Psel => match ascii_to_hex_str(MAX_PSEL_LEN as u32, txt.as_bytes()) {
            Ok(v) => {
                selector16_set(&mut addr.psel, &v);
                addr.psel_len = v.len() as u32;
                true
            },
            Err(_) => false,
        },
        AddressPart::Ssel => match ascii_to_hex_str(MAX_SSEL_LEN as u32, txt.as_bytes()) {
            Ok(v) => {
                selector16_set(&mut addr.ssel, &v);
                addr.ssel_len = v.len() as u32;
                true
            },
            Err(_) => false,
        },
        AddressPart::Tsel => match ascii_to_hex_str(MAX_TSEL_LEN as u32, txt.as_bytes()) {
            Ok(v) => {
                selector32_set(&mut addr.tsel, &v);
                addr.tsel_len = v.len() as u32;
                true
            },
            Err(_) => false,
        },
        AddressPart::Ip => match parse_ipv4(txt) {
            Some(ip) => {
                addr.ip = ip;
                true
            },
            None => false,
        },
        AddressPart::ApTitle => match ascii_to_objid(txt) {
            Ok(id) => {
                addr.ae_title.ap_title = id;
                addr.ae_title.ap_title_pres = true;
                true
            },
            Err(_) => true,
        },
        AddressPart::AeQualifier => match read_invoke_number(txt) {
            Some(n) => {
                addr.ae_title.ae_qual = n;
                addr.ae_title.ae_qual_pres = true;
                true
            },
            None => false,
        },
        AddressPart::ApInvoke => match read_invoke_number(txt) {
            Some(n) => {
                addr.ae_title.ap_inv_id = n;
                addr.ae_title.ap_inv_id_pres = true;
                true
            },
            None => false,
        },
        AddressPart::AeInvoke => match read_invoke_number(txt) {
            Some(n) => {
                addr.ae_title.ae_inv_id = n;
                addr.ae_title.ae_inv_id_pres = true;
                true
            },
            None => false,
        },
        AddressPart::Other => true,
    }
}

/// `P` in the `Address` of an access point: when the element closes, its
/// text is read into the part of the address that its `type` names. A part
/// that the reader does not know is passed over; a known part needs a text.
pub open spec fn address_p_model(st: IcdParseContext2View) -> IcdParseContext2View {
    if st.reason == SX_ELEMENT_END {
        if !st.info().has_cap() {
            st.user_error()
        } else {
            match st.attr("type"@) {
                None => st.attr_missing(),
                Some(rtype) => if address_part(rtype) is Other {
                    st
                } else {
                    match st.op_entry_text {
                        None => st.user_error(),
                        Some(txt) => match address_with(
                            st.info().cap().address,
                            address_part(rtype),
                            txt,
                        ) {
                            Some(a) => st.with_address(a),
                            None => st.user_error(),
                        },
                    }
                },
            }
        }
    } else {
        st
    }
}

/// Handles `P` in the `Address` of an access point.
pub fn address_p_sefun(ctx: &mut IcdParseContext2)
    ensures
        final(ctx)@ == address_p_model(old(ctx)@),
{
    if ctx.reason == SX_ELEMENT_END {
        if !has_cap(&ctx.scl_dec_ctrl.sclinfo) {
            ctx.set_user_error();
            return ;
        }
        let rtype = match ctx.req_attr("type") {
            Some(v) => v,
            None => {
                return ;
            },
        };
        let part = address_part_of(rtype.as_str());
        if let AddressPart::Other = part {
            return ;
        }
        let txt = match &ctx.op_entry_text {
            Some(txt) => txt.clone(),
            None => {
                ctx.set_user_error();
                return ;
            },
        };
        let ok = address_read(
            &mut cap_mut(&mut ctx.scl_dec_ctrl.sclinfo).address,
            part,
            txt.as_str(),
        );
        if !ok {
            ctx.set_user_error();
        }
        assert(ctx@ =~~= address_p_model(old(ctx)@));
    }
}

/// A transport of which only the names have been read.
pub open spec fn blank_gse(ldinst: Seq<char>, cbname: Seq<char>) -> SclGseView {
    SclGseView {
        ldinst,
        cbname,
        mac: zero_bytes(6),
        appid: 0,
        vlanpri: 0,
        vlanid: 0,
        mintime: 0,
        maxtime: 0,
    }
}

/// `GSE`: a transport is added to the last connected access point when the
/// element opens.
pub open spec fn gse_model(st: IcdParseContext2View) -> IcdParseContext2View {
    if st.reason == SX_ELEMENT_START {
        if !st.info().has_cap() {
            st.user_error()
        } else {
            match st.attr("ldInst"@) {
                None => st.attr_missing(),
                Some(ldinst) => match st.attr("cbName"@) {
                    None => st.attr_missing(),
                    Some(cbname) => st.with_info(
                        st.info().with_cap(
                            SclCapView {
                                gse_vec: st.info().cap().gse_vec.push(blank_gse(ldinst, cbname)),
                                ..st.info().cap()
                            },
                        ),
                    ).pushed(seq![17usize, 18, 19]),
                },
            }
        }
    } else {
        st.popped()
    }
}

/// Handles `GSE`.
pub fn gse_sefun(ctx: &mut IcdParseContext2)
    ensures
        final(ctx)@ == gse_model(old(ctx)@),
{
    if ctx.reason == SX_ELEMENT_START {
        if !has_cap(&ctx.scl_dec_ctrl.sclinfo) {
            ctx.set_user_error();
            return ;
        }
        let ldinst = match ctx.req_attr("ldInst") {
            Some(v) => v,
            None => {
                return ;
            },
        };
        let cbname = match ctx.req_attr("cbName") {
            Some(v) => v,
            None => {
                return ;
            },
        };
        cap_mut(&mut ctx.scl_dec_ctrl.sclinfo).gse_vec.push(
            SclGse {
                ldinst,
                cbname,
                mac: [0u8; 6],
                appid: 0,
                vlanpri: 0,
                vlanid: 0,
                mintime: 0,
                maxtime: 0,
            },
        );
        ctx.sx_push(vec![17, 18, 19]);
        assert(ctx@ =~~= gse_model(old(ctx)@));
    } else {
        ctx.sx_pop();
    }
}

/// `SMV`: a transport is added to the last connected access point when the
/// element opens.
pub open spec fn smv_model(st: IcdParseContext2View) -> IcdParseContext2View {
    if st.reason == SX_ELEMENT_START {
        if !st.info().has_cap() {
            st.user_error()
        } else {
            match st.attr("ldInst"@) {
                None => st.attr_missing(),
                Some(ldinst) => match st.attr("cbName"@) {
                    None => st.attr_missing(),
                    Some(cbname) => st.with_info(
                        st.info().with_cap(
                            SclCapView {
                                smv_vec: st.info().cap().smv_vec.push(
                                    SclSmvView {
                                        ldinst,
                                        cbname,
                                        mac: zero_bytes(6),
                                        appid: 0,
                                        vlanpri: 0,
                                        vlanid: 0,
                                    },
                                ),
                                ..st.info().cap()
                            },
                        ),
                    ).pushed(seq![21usize]),
                },
            }
        }
    } else {
        st.popped()
    }
}

/// Handles `SMV`.
pub fn smv_sefun(ctx: &mut IcdParseContext2)
    ensures
        final(ctx)@ == smv_model(old(ctx)@),
{
    if ctx.reason == SX_ELEMENT_START {
        if !has_cap(&ctx.scl_dec_ctrl.sclinfo) {
            ctx.set_user_error();
            return ;
        }
        let ldinst = match ctx.req_attr("ldInst") {
            Some(v) => v,
            None => {
                return ;
            },
        };
        let cbname = match ctx.req_attr("cbName") {
            Some(v) => v,
            None => {
                return ;
            },
        };
        cap_mut(&mut ctx.scl_dec_ctrl.sclinfo).smv_vec.push(
            SclSmv { ldinst, cbname, mac: [0u8; 6], appid: 0, vlanpri: 0, vlanid: 0 },
        );
        ctx.sx_push(vec![21]);
        assert(ctx@ =~~= smv_model(old(ctx)@));
    } else {
        ctx.sx_pop();
    }
}

/// `Address` of a `GSE`: only opens the table of its children.
pub open spec fn gse_address_model(st: IcdParseContext2View) -> IcdParseContext2View {
    if st.reason == SX_ELEMENT_START {
        st.pushed(seq![20usize])
    } else {
        st.popped()
    }
}

/// Handles the `Address` of a `GSE`.
pub fn gse_address_sefun(ctx: &mut IcdParseContext2)
    ensures
        final(ctx)@ == gse_address_model(old(ctx)@),
{
    if ctx.reason == SX_ELEMENT_START {
        ctx.sx_push(vec![20]);
        assert(ctx@ =~~= gse_address_model(old(ctx)@));
    } else {
        ctx.sx_pop();
    }
}

/// `Address` of an `SMV`: only opens the table of its children.
pub open spec fn smv_address_model(st: IcdParseContext2View) -> IcdParseContext2View {
    if st.reason == SX_ELEMENT_START {
        st.pushed(seq![22usize])
    } else {
        st.popped()
    }
}

/// Handles the `Address` of an `SMV`.
pub fn smv_address_sefun(ctx: &mut IcdParseContext2)
    ensures
        final(ctx)@ == smv_address_model(old(ctx)@),
{
    if ctx.reason == SX_ELEMENT_START {
        ctx.sx_push(vec![22]);
        assert(ctx@ =~~= smv_address_model(old(ctx)@));
    } else {
        ctx.sx_pop();
    }
}

/// The retransmission time that closes with the element: its text must
/// spell a `u32`, and a transport must be there to take it.
pub open spec fn gse_time_end(st: IcdParseContext2View, max: bool) -> IcdParseContext2View {
    if !st.info().has_gse() {
        st.user_error()
    } else {
        match st.op_entry_text {
            None => st.user_error(),
            Some(txt) => match parse_u32(txt) {
                Some(x) => if max {
                    st.with_gse(SclGseView { maxtime: x, ..st.info().gse() })
                } else {
                    st.with_gse(SclGseView { mintime: x, ..st.info().gse() })
                },
                None => st.user_error(),
            },
        }
    }
}

/// `MinTime`: the element must name its unit; its text is the shortest
/// retransmission time of the last transport.
pub open spec fn gse_mintime_model(st: IcdParseContext2View) -> IcdParseContext2View {
    if st.reason == SX_ELEMENT_START {
        st.after_attr("unit"@, true)
    } else {
        gse_time_end(st, false)
    }
}

/// `MaxTime`: the element must name its unit; its text is the longest
/// retransmission time of the last transport.
pub open spec fn gse_maxtime_model(st: IcdParseContext2View) -> IcdParseContext2View {
    if st.reason == SX_ELEMENT_START {
        st.after_attr("unit"@, true)
    } else {
        gse_time_end(st, true)
    }
}

/// Stores a retransmission time when its element closes.
fn gse_time_efun(ctx: &mut IcdParseContext2, max: bool)
    ensures
        final(ctx)@ == gse_time_end(old(ctx)@, max),
{
    if !has_gse(&ctx.scl_dec_ctrl.sclinfo) {
        ctx.set_user_error();
        return ;
    }
    let parsed = match &ctx.op_entry_text {
        Some(txt) => str_parse_u32(txt.as_str()),
        None => None,
    };
    match parsed {
        Some(x) => {
            let gse = gse_mut(&mut ctx.scl_dec_ctrl.sclinfo);
            if max {
                gse.maxtime = x;
            } else {
                gse.mintime = x;
            }
            assert(ctx@ =~~= gse_time_end(old(ctx)@, max));
        },
        None => {
            ctx.set_user_error();
        },
    }
}

/// Handles `MinTime`.
pub fn gse_mintime_sefun(ctx: &mut IcdParseContext2)
    ensures
        final(ctx)@ == gse_mintime_model(old(ctx)@),
{
    if ctx.reason == SX_ELEMENT_START {
        let _ = ctx.scl_get_attr_ptr("unit", true);
    } else {
        gse_time_efun(ctx, false);
    }
}

/// Handles `MaxTime`.
pub fn gse_maxtime_sefun(ctx: &mut IcdParseContext2)
    ensures
        final(ctx)@ == gse_maxtime_model(old(ctx)@),
{
    if ctx.reason == SX_ELEMENT_START {
        let _ = ctx.scl_get_attr_ptr("unit", true);
    } else {
        gse_time_efun(ctx, true);
    }
}

/// Which part of a transport a `P` element sets, by its `type`.
pub enum TransportPart {
    Mac,
    AppId,
    VlanPriority,
    VlanId,
    Other,
}

/// The part that the `type` of a `P` element names; the case of letters
/// does not count.
pub open spec fn transport_part(rtype: Seq<char>) -> TransportPart {
    if eq_ignore_case(rtype, "MAC-Address"@) {
        TransportPart::Mac
    } else if eq_ignore_case(rtype, "APPID"@) {
        TransportPart::AppId
    } else if eq_ignore_case(rtype, "VLAN-PRIORITY"@) {
        TransportPart::VlanPriority
    } else if eq_ignore_case(rtype, "VLAN-ID"@) {
        TransportPart::VlanId
    } else {
        TransportPart::Other
    }
}

/// Tells which part of a transport a `type` names.
pub fn transport_part_of(rtype: &str) -> (r: TransportPart)
    ensures
        r == transport_part(rtype@),
{
    if check_eq_2str_incaseinse(rtype, "MAC-Address") {
        TransportPart::Mac
    } else if check_eq_2str_incaseinse(rtype, "APPID") {
        TransportPart::AppId
    } else if check_eq_2str_incaseinse(rtype, "VLAN-PRIORITY") {
        TransportPart::VlanPriority
    } else if check_eq_2str_incaseinse(rtype, "VLAN-ID") {
        TransportPart::VlanId
    } else {
        TransportPart::Other
    }
}

/// A hexadecimal number of at most `max`, white space around it set aside.
pub open spec fn bounded_hex(txt: Seq<char>, max: u32) -> Option<u32> {
    match parse_hex_u32(trim_ws(txt)) {
        Some(v) => if v > max {
            None
        } else {
            Some(v)
        },
        None => None,
    }
}

/// Reads a hexadecimal number of at most `max`.
pub fn read_bounded_hex(txt: &str, max: u32) -> (r: Option<u32>)
    ensures
        r == bounded_hex(txt@, max),
{
    match u32_from_hex(str_trim(txt)) {
        Some(v) => if v > max {
            None
        } else {
            Some(v)
        },
        None => None,
    }
}

/// What a `P` element gives to a transport: the address itself, or one of
/// the numbers beside it.
pub enum TransportValue {
    Mac(Seq<u8>),
    AppId(u32),
    VlanPriority(u32),
    VlanId(u32),
    Nothing,
}

/// The value that the text `txt` gives for the part `part`, or nothing
/// where the text is refused.
pub open spec fn transport_value(part: TransportPart, txt: Seq<char>) -> Option<TransportValue> {
    match part {
        TransportPart::Mac => match mac_address_of(txt) {
            Some(m) => Some(TransportValue::Mac(m)),
            None => None,
        },
        TransportPart::AppId => match bounded_hex(txt, 0xffff) {
            Some(v) => Some(TransportValue::AppId(v)),
            None => None,
        },
        TransportPart::VlanPriority => match bounded_hex(txt, 7) {
            Some(v) => Some(TransportValue::VlanPriority(v)),
            None => None,
        },
        TransportPart::VlanId => match bounded_hex(txt, 0xfff) {
            Some(v) => Some(TransportValue::VlanId(v)),
            None => None,
        },
        TransportPart::Other => Some(TransportValue::Nothing),
    }
}

/// A GOOSE transport that has taken a value.
pub open spec fn gse_with(gse: SclGseView, v: TransportValue) -> SclGseView {
    match v {
        TransportValue::Mac(mac) => SclGseView { mac, ..gse },
        TransportValue::AppId(appid) => SclGseView { appid, ..gse },
        TransportValue::VlanPriority(vlanpri) => SclGseView { vlanpri, ..gse },
        TransportValue::VlanId(vlanid) => SclGseView { vlanid, ..gse },
        TransportValue::Nothing => gse,
    }
}

/// A sampled value transport that has taken a value.
pub open spec fn smv_with(smv: SclSmvView, v: TransportValue) -> SclSmvView {
    match v {
        TransportValue::Mac(mac) => SclSmvView { mac, ..smv },
        TransportValue::AppId(appid) => SclSmvView { appid, ..smv },
        TransportValue::VlanPriority(vlanpri) => SclSmvView { vlanpri, ..smv },
        TransportValue::VlanId(vlanid) => SclSmvView { vlanid, ..smv },
        TransportValue::Nothing => smv,
    }
}

/// Stores the address that was read for a GOOSE transport; tells whether
/// there was one.
pub fn gse_set_mac(gse: &mut SclGse, mac: Option<[u8; 6]>) -> (ok: bool)
    ensures
        ok == mac is Some,
        match mac {
            Some(m) => final(gse)@ == (SclGseView { mac: m@, ..old(gse)@ }),
            None => final(gse)@ == old(gse)@,
        },
{
    match mac {
        Some(m) => {
            gse.mac = m;
            true
        },
        None => false,
    }
}

/// Stores the address that was read for a sampled value transport; tells
/// whether there was one.
pub fn smv_set_mac(smv: &mut SclSmv, mac: Option<[u8; 6]>) -> (ok: bool)
    ensures
        ok == mac is Some,
        match mac {
            Some(m) => final(smv)@ == (SclSmvView { mac: m@, ..old(smv)@ }),
            None => final(smv)@ == old(smv)@,
        },
{
    match mac {
        Some(m) => {
            smv.mac = m;
            true
        },
        None => false,
    }
}

/// Reads the text `txt` into the part `part` of a GOOSE transport; tells
/// whether the text was accepted.
pub fn gse_read(gse: &mut SclGse, part: TransportPart, txt: &str) -> (ok: bool)
    ensures
        match transport_value(part, txt@) {
            Some(v) => ok && final(gse)@ == gse_with(old(gse)@, v),
            None => !ok && final(gse)@ == old(gse)@,
        },
{
    match part {
        TransportPart::Mac => gse_set_mac(gse, mac_from_str(txt)),
        TransportPart::AppId => match read_bounded_hex(txt, 0xffff) {
            Some(v) => {
                gse.appid = v;
                true
            },
            None => false,
        },
        TransportPart::VlanPriority => match read_bounded_hex(txt, 7) {
            Some(v) => {
                gse.vlanpri = v;
                true
            },
            None => false,
        },
        TransportPart::VlanId => match read_bounded_hex(txt, 0xfff) {
            Some(v) => {
                gse.vlanid = v;
                true
            },
            None => false,
        },
        TransportPart::Other => true,
    }
}

/// Reads the text `txt` into the part `part` of a sampled value transport;
/// tells whether the text was accepted.
pub fn smv_read(smv: &mut SclSmv, part: TransportPart, txt: &str) -> (ok: bool)
    ensures
        match transport_value(part, txt@) {
            Some(v) => ok && final(smv)@ == smv_with(old(smv)@, v),
            None => !ok && final(smv)@ == old(smv)@,
        },
{
    match part {
        TransportPart::Mac => smv_set_mac(smv, mac_from_str(txt)),
        TransportPart::AppId => match read_bounded_hex(txt, 0xffff) {
            Some(v) => {
                smv.appid = v;
                true
            },
            None => false,
        },
        TransportPart::VlanPriority => match read_bounded_hex(txt, 7) {
            Some(v) => {
                smv.vlanpri = v;
                true
            },
            None => false,
        },
        TransportPart::VlanId => match read_bounded_hex(txt, 0xfff) {
            Some(v) => {
                smv.vlanid = v;
                true
            },
            None => false,
        },
        TransportPart::Other => true,
    }
}

/// `P` in the `Address` of a `GSE`: when the element closes, its text is
/// read into the part of the last transport that its `type` names.
pub open spec fn gse_address_p_model(st: IcdParseContext2View) -> IcdParseContext2View {
    if st.reason == SX_ELEMENT_END {
        if !st.info().has_gse() {
            st.user_error()
        } else {
            match st.attr("type"@) {
                None => st.attr_missing(),
                Some(rtype) => if transport_part(rtype) is Other {
                    st
                } else {
                    match st.op_entry_text {
                        None => st.user_error(),
                        Some(txt) => match transport_value(transport_part(rtype), txt) {
                            Some(v) => st.with_gse(gse_with(st.info().gse(), v)),
                            None => st.user_error(),
                        },
                    }
                },
            }
        }
    } else {
        st
    }
}

/// Handles `P` in the `Address` of a `GSE`.
pub fn gse_address_p_sefun(ctx: &mut IcdParseContext2)
    ensures
        final(ctx)@ == gse_address_p_model(old(ctx)@),
{
    if ctx.reason == SX_ELEMENT_END {
        if !has_gse(&ctx.scl_dec_ctrl.sclinfo) {
            ctx.set_user_error();
            return ;
        }
        let rtype = match ctx.req_attr("type") {
            Some(v) => v,
            None => {
                return ;
            },
        };
        let part = transport_part_of(rtype.as_str());
        if let TransportPart::Other = part {
            return ;
        }
        let txt = match &ctx.op_entry_text {
            Some(txt) => txt.clone(),
            None => {
                ctx.set_user_error();
                return ;
            },
        };
        let ok = gse_read(
            gse_mut(&mut ctx.scl_dec_ctrl.sclinfo),
            part,
            txt.as_str(),
        );
        if !ok {
            ctx.set_user_error();
        }
        assert(ctx@ =~~= gse_address_p_model(old(ctx)@));
    }
}

/// `P` in the `Address` of an `SMV`: when the element closes, its text is
/// read into the part of the last transport that its `type` names.
pub open spec fn smv_address_p_model(st: IcdParseContext2View) -> IcdParseContext2View {
    if st.reason == SX_ELEMENT_END {
        if !st.info().has_smv() {
            st.user_error()
        } else {
            match st.attr("type"@) {
                None => st.attr_missing(),
                Some(rtype) => if transport_part(rtype) is Other {
                    st
                } else {
                    match st.op_entry_text {
                        None => st.user_error(),
                        Some(txt) => match transport_value(transport_part(rtype), txt) {
                            Some(v) => st.with_smv(smv_with(st.info().smv(), v)),
                            None => st.user_error(),
                        },
                    }
                },
            }
        }
    } else {
        st
    }
}

/// Handles `P` in the `Address` of an `SMV`.
pub fn smv_address_p_sefun(ctx: &mut IcdParseContext2)
    ensures
        final(ctx)@ == smv_address_p_model(old(ctx)@),
{
    if ctx.reason == SX_ELEMENT_END {
        if !has_smv(&ctx.scl_dec_ctrl.sclinfo) {
            ctx.set_user_error();
            return ;
        }
        let rtype = match ctx.req_attr("type") {
            Some(v) => v,
            None => {
                return ;
            },
        };
        let part = transport_part_of(rtype.as_str());
        if let TransportPart::Other = part {
            return ;
        }
        let txt = match &ctx.op_entry_text {
            Some(txt) => txt.clone(),
            None => {
                ctx.set_user_error();
                return ;
            },
        };
        let ok = smv_read(
            smv_mut(&mut ctx.scl_dec_ctrl.sclinfo),
            part,
            txt.as_str(),
        );
        if !ok {
            ctx.set_user_error();
        }
        assert(ctx@ =~~= smv_address_p_model(old(ctx)@));
    }
}

} // verus!
