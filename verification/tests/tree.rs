use scl61850::context::TagInfo;
use scl61850::engine::{scl_parse_events, XmlEvent};
use scl61850::error::SclError;
use scl61850::model::{SclInfo, SclLn, SclOptions};

fn tag(name: &str, atts: &[(&str, &str)]) -> TagInfo {
    let mut t = TagInfo::new(name);
    for (k, v) in atts {
        t = t.with_attr(k, v);
    }
    t
}

fn start(name: &str, atts: &[(&str, &str)]) -> XmlEvent {
    XmlEvent::Start(tag(name, atts))
}

fn end(name: &str) -> XmlEvent {
    XmlEvent::End(tag(name, &[]))
}

fn empty(name: &str, atts: &[(&str, &str)]) -> Vec<XmlEvent> {
    vec![XmlEvent::Empty(tag(name, atts))]
}

fn leaf(name: &str, atts: &[(&str, &str)], content: &str) -> Vec<XmlEvent> {
    vec![start(name, atts), XmlEvent::Text(content.to_string()), end(name)]
}

fn wrap(name: &str, atts: &[(&str, &str)], inner: Vec<Vec<XmlEvent>>) -> Vec<XmlEvent> {
    let mut v = vec![start(name, atts)];
    for part in inner {
        v.extend(part);
    }
    v.push(end(name));
    v
}

fn scl2(inner: Vec<Vec<XmlEvent>>) -> Vec<XmlEvent> {
    wrap("SCL", &[("version", "2007"), ("revision", "A")], inner)
}

fn scl1(inner: Vec<Vec<XmlEvent>>) -> Vec<XmlEvent> {
    wrap("SCL", &[], inner)
}

fn parse(events: Vec<XmlEvent>) -> Result<SclInfo, SclError> {
    scl_parse_events(events, "IED1", "AP1", None)
}

fn code(events: Vec<XmlEvent>) -> u32 {
    match parse(events) {
        Err(SclError::Parse(c)) => c,
        other => panic!("expected a status code, got {:?}", other.map(|_| ())),
    }
}

/// A document whose only logical node, an `LN`, holds `inner`.
fn in_ln(edition2: bool, inner: Vec<Vec<XmlEvent>>) -> Vec<XmlEvent> {
    let body = vec![wrap(
        "IED",
        &[("name", "IED1")],
        vec![wrap(
            "AccessPoint",
            &[("name", "AP1")],
            vec![wrap(
                "Server",
                &[],
                vec![wrap(
                    "LDevice",
                    &[("inst", "LD0")],
                    vec![wrap(
                        "LN",
                        &[("lnClass", "MMXU"), ("inst", "1"), ("lnType", "T1")],
                        inner,
                    )],
                )],
            )],
        )],
    )];
    if edition2 {
        scl2(body)
    } else {
        scl1(body)
    }
}

/// A document whose only logical node, an `LN0`, holds `inner`.
fn in_ln0(inner: Vec<Vec<XmlEvent>>) -> Vec<XmlEvent> {
    scl2(vec![wrap(
        "IED",
        &[("name", "IED1")],
        vec![wrap(
            "AccessPoint",
            &[("name", "AP1")],
            vec![wrap(
                "Server",
                &[],
                vec![wrap(
                    "LDevice",
                    &[("inst", "LD0")],
                    vec![wrap(
                        "LN0",
                        &[("lnClass", "LLN0"), ("inst", ""), ("lnType", "T0")],
                        inner,
                    )],
                )],
            )],
        )],
    )])
}

fn only_ln(info: &SclInfo) -> &SclLn {
    &info.server_vec[0].ld_vec[0].ln_vec[0]
}

fn ln_doc(tagname: &str, atts: &[(&str, &str)]) -> Vec<XmlEvent> {
    scl2(vec![wrap(
        "IED",
        &[("name", "IED1")],
        vec![wrap(
            "AccessPoint",
            &[("name", "AP1")],
            vec![wrap(
                "Server",
                &[],
                vec![wrap("LDevice", &[("inst", "LD0")], vec![wrap(tagname, atts, vec![])])],
            )],
        )],
    )])
}

fn comm(inner: Vec<Vec<XmlEvent>>) -> Vec<XmlEvent> {
    scl2(vec![wrap(
        "Communication",
        &[],
        vec![wrap(
            "SubNetwork",
            &[("name", "SN1"), ("desc", " net "), ("type", "8-MMS")],
            vec![wrap(
                "ConnectedAP",
                &[("iedName", "IED1"), ("apName", "AP1"), ("desc", "cap")],
                inner,
            )],
        )],
    )])
}

fn address(ps: Vec<Vec<XmlEvent>>) -> Vec<XmlEvent> {
    comm(vec![wrap("Address", &[], ps)])
}

fn gse(inner: Vec<Vec<XmlEvent>>) -> Vec<XmlEvent> {
    comm(vec![wrap("GSE", &[("ldInst", "LD0"), ("cbName", "gcb1")], inner)])
}

fn templates(inner: Vec<Vec<XmlEvent>>) -> Vec<XmlEvent> {
    scl2(vec![wrap("DataTypeTemplates", &[], inner)])
}

fn services(inner: Vec<Vec<XmlEvent>>) -> Vec<XmlEvent> {
    scl2(vec![wrap(
        "IED",
        &[("name", "IED1")],
        vec![wrap("Services", &[], inner), wrap("AccessPoint", &[("name", "AP1")], vec![])],
    )])
}

#[test]
fn a_logical_node_gets_its_variable_name() {
    let info = parse(ln_doc("LN", &[("lnClass", "ABCD"), ("inst", "1"), ("prefix", ""), ("lnType", "T")]))
        .unwrap();
    let ln = only_ln(&info);
    assert_eq!(ln.varname, "ABCD1");
    assert_eq!(ln.lnclass, "ABCD");
    assert_eq!(ln.inst, "1");
    assert_eq!(ln.prefix, "");
    assert_eq!(ln.lntype, "T");
    assert_eq!(ln.sgcb.actsg, 0);
}

#[test]
fn the_attributes_of_a_logical_node_are_trimmed() {
    let info = parse(ln_doc(
        "LN",
        &[("lnClass", " MMXU "), ("inst", " 12 "), ("prefix", " Pre "), ("lnType", " T1 "), ("desc", " d ")],
    ))
    .unwrap();
    let ln = only_ln(&info);
    assert_eq!(ln.varname, "PreMMXU12");
    assert_eq!(ln.desc, "d");
    assert_eq!(ln.lntype, "T1");
}

#[test]
fn a_class_that_is_not_four_characters_long_is_refused() {
    for class in ["ABC", "ABCDE", ""] {
        let doc = ln_doc("LN", &[("lnClass", class), ("inst", "1"), ("lnType", "T")]);
        assert_eq!(code(doc), 1, "{:?}", class);
    }
}

#[test]
fn ln0_must_be_of_class_lln0() {
    let doc = ln_doc("LN0", &[("lnClass", "MMXU"), ("inst", ""), ("lnType", "T")]);
    assert_eq!(code(doc), 1);
    let doc = ln_doc("LN0", &[("lnClass", "lln0"), ("inst", ""), ("lnType", "T")]);
    assert_eq!(code(doc), 1);
    let doc = ln_doc("LN0", &[("lnClass", "LLN0"), ("inst", ""), ("lnType", "T")]);
    assert_eq!(only_ln(&parse(doc).unwrap()).varname, "LLN0");
    let doc = ln_doc("LN0", &[("lnClass", " LLN0 "), ("inst", ""), ("lnType", "T")]);
    assert_eq!(only_ln(&parse(doc).unwrap()).lnclass, "LLN0");
    let doc = ln_doc("LN", &[("lnClass", "LLN0"), ("inst", "1"), ("lnType", "T")]);
    assert_eq!(only_ln(&parse(doc).unwrap()).varname, "LLN01");
}

#[test]
fn prefix_and_instance_share_eleven_characters() {
    let doc = ln_doc("LN", &[("lnClass", "MMXU"), ("inst", "123456"), ("prefix", "abcde"), ("lnType", "T")]);
    assert_eq!(only_ln(&parse(doc).unwrap()).varname, "abcdeMMXU123456");
    let doc = ln_doc("LN", &[("lnClass", "MMXU"), ("inst", "123456"), ("prefix", "abcdef"), ("lnType", "T")]);
    assert_eq!(code(doc), 1);
}

#[test]
fn a_logical_node_needs_its_attributes() {
    assert_eq!(code(ln_doc("LN", &[("lnClass", "MMXU"), ("inst", "1")])), 13);
    assert_eq!(code(ln_doc("LN", &[("lnClass", "MMXU"), ("lnType", "T")])), 13);
    assert_eq!(code(ln_doc("LN", &[("inst", "1"), ("lnType", "T")])), 13);
    assert_eq!(code(ln_doc("LN", &[("lnClass", "MM-U"), ("inst", "1"), ("lnType", "T")])), 1);
    assert_eq!(code(ln_doc("LN", &[("lnClass", "MMXU"), ("inst", "1$"), ("lnType", "T")])), 1);
}

#[test]
fn a_logical_device_gets_its_domain_name() {
    let info = parse(in_ln(true, vec![])).unwrap();
    let ld = &info.server_vec[0].ld_vec[0];
    assert_eq!(ld.inst, "LD0");
    assert_eq!(ld.domname, "IED1LD0");
    assert_eq!(ld.desc, "");
}

#[test]
fn a_logical_device_with_a_bad_instance_is_refused() {
    let doc = |inst: &str| {
        scl2(vec![wrap(
            "IED",
            &[("name", "IED1")],
            vec![wrap(
                "AccessPoint",
                &[("name", "AP1")],
                vec![wrap("Server", &[], vec![wrap("LDevice", &[("inst", inst)], vec![])])],
            )],
        )])
    };
    assert_eq!(code(doc("L D")), 1);
    assert_eq!(code(doc(&"x".repeat(60))), 1);
    assert_eq!(parse(doc(&"x".repeat(59))).unwrap().server_vec[0].ld_vec[0].domname.len(), 63);
    let missing = scl2(vec![wrap(
        "IED",
        &[("name", "IED1")],
        vec![wrap(
            "AccessPoint",
            &[("name", "AP1")],
            vec![wrap("Server", &[], vec![wrap("LDevice", &[], vec![])])],
        )],
    )]);
    assert_eq!(code(missing), 13);
}

#[test]
fn nested_values_get_flattened_names() {
    let doc = in_ln(
        true,
        vec![wrap(
            "DOI",
            &[("name", "A")],
            vec![
                wrap(
                    "SDI",
                    &[("name", "B"), ("ix", "3")],
                    vec![wrap("DAI", &[("name", "C")], vec![leaf("Val", &[], " 5 ")])],
                ),
                wrap("DAI", &[("name", "D"), ("sAddr", " s1 "), ("valKind", "RO")], vec![]),
            ],
        )],
    );
    let info = parse(doc).unwrap();
    let ln = only_ln(&info);
    assert_eq!(ln.dai_vec.len(), 2);
    assert_eq!(ln.dai_vec[0].flattened, "A$B[3]$C");
    assert_eq!(ln.dai_vec[0].val, "5");
    assert_eq!(ln.dai_vec[0].valkind, "Set");
    assert_eq!(ln.dai_vec[0].saddr, "");
    assert_eq!(ln.dai_vec[1].flattened, "A$D");
    assert_eq!(ln.dai_vec[1].saddr, "s1");
    assert_eq!(ln.dai_vec[1].valkind, "RO");
    assert_eq!(ln.dai_vec[1].val, "");
}

#[test]
fn a_step_below_a_nameless_object_is_taken_away_again() {
    let doc = in_ln(
        true,
        vec![wrap(
            "DOI",
            &[("name", " ")],
            vec![wrap("DAI", &[("name", "x")], vec![]), wrap("DAI", &[("name", "y")], vec![])],
        )],
    );
    let info = parse(doc).unwrap();
    let ln = only_ln(&info);
    assert_eq!(ln.dai_vec[0].flattened, "x");
    assert_eq!(ln.dai_vec[1].flattened, "y");
}

#[test]
fn each_doi_begins_a_new_flattened_name() {
    let doc = in_ln(
        true,
        vec![
            wrap("DOI", &[("name", "A"), ("ix", " 2 ")], vec![wrap("DAI", &[("name", "x"), ("ix", "1")], vec![])]),
            wrap("DOI", &[("name", " B ")], vec![wrap("DAI", &[("name", "y")], vec![])]),
        ],
    );
    let info = parse(doc).unwrap();
    let ln = only_ln(&info);
    assert_eq!(ln.dai_vec[0].flattened, "A[2]$x[1]");
    assert_eq!(ln.dai_vec[1].flattened, "B$y");
}

#[test]
fn a_flattened_name_that_is_too_long_is_refused() {
    let long = "n".repeat(71);
    let doc = in_ln(true, vec![wrap("DOI", &[("name", &long)], vec![])]);
    assert!(parse(doc).is_ok());
    let longer = "n".repeat(72);
    let doc = in_ln(true, vec![wrap("DOI", &[("name", &longer)], vec![])]);
    assert_eq!(code(doc), 1);
    let doc = in_ln(true, vec![wrap("DOI", &[("name", &"n".repeat(64)), ("ix", "10000")], vec![])]);
    assert!(parse(doc).is_ok());
    let doc = in_ln(true, vec![wrap("DOI", &[("name", &"n".repeat(65)), ("ix", "10000")], vec![])]);
    assert_eq!(code(doc), 1);
    let half = "n".repeat(35);
    let doc = in_ln(
        true,
        vec![wrap(
            "DOI",
            &[("name", &half)],
            vec![wrap("SDI", &[("name", &half)], vec![])],
        )],
    );
    assert!(parse(doc).is_ok());
    let doc = in_ln(
        true,
        vec![wrap(
            "DOI",
            &[("name", &half)],
            vec![wrap("SDI", &[("name", &half)], vec![wrap("DAI", &[("name", "")], vec![])])],
        )],
    );
    assert_eq!(code(doc), 1);
    let more = "n".repeat(36);
    let doc = in_ln(
        true,
        vec![wrap("DOI", &[("name", &half)], vec![wrap("SDI", &[("name", &more)], vec![])])],
    );
    assert_eq!(code(doc), 1);
    let doc = in_ln(true, vec![wrap("DOI", &[], vec![])]);
    assert_eq!(code(doc), 13);
}

#[test]
fn values_with_and_without_setting_groups() {
    let doc = in_ln(
        true,
        vec![wrap(
            "DOI",
            &[("name", "A")],
            vec![wrap(
                "DAI",
                &[("name", "C")],
                vec![
                    leaf("Val", &[("sGroup", "1")], "10"),
                    leaf("Val", &[("sGroup", " 2 ")], " 20 "),
                    leaf("Val", &[("sGroup", "x")], "plain"),
                ],
            )],
        )],
    );
    let info = parse(doc).unwrap();
    let dai = &only_ln(&info).dai_vec[0];
    assert_eq!(dai.sgval_vec.len(), 2);
    assert_eq!(dai.sgval_vec[0].sgroup, 1);
    assert_eq!(dai.sgval_vec[0].val, "10");
    assert_eq!(dai.sgval_vec[1].sgroup, 2);
    assert_eq!(dai.sgval_vec[1].val, "20");
    assert_eq!(dai.val, "plain");
}

#[test]
fn a_second_plain_value_of_a_dai_is_refused() {
    let doc = in_ln(
        true,
        vec![wrap(
            "DOI",
            &[("name", "A")],
            vec![wrap("DAI", &[("name", "C")], vec![leaf("Val", &[], "1"), leaf("Val", &[], "2")])],
        )],
    );
    assert_eq!(code(doc), 1);
    let doc = in_ln(
        true,
        vec![wrap("DOI", &[("name", "A")], vec![wrap("DAI", &[("name", "C")], vec![empty("Val", &[])])])],
    );
    assert_eq!(code(doc), 1);
}

#[test]
fn trigger_options_become_bits() {
    let doc = in_ln(
        true,
        vec![wrap(
            "ReportControl",
            &[("name", "rcb1"), ("confRev", "1")],
            vec![empty("TrgOps", &[("dchg", "true"), ("qchg", "false")]), empty("OptFields", &[])],
        )],
    );
    let info = parse(doc).unwrap();
    assert_eq!(only_ln(&info).rcb_vec[0].trgops, [0x44]);
}

#[test]
fn every_trigger_option_has_its_bit() {
    let one = |name: &str| {
        let doc = in_ln(
            true,
            vec![wrap(
                "LogControl",
                &[("name", "lcb1"), ("logName", "log")],
                vec![empty("TrgOps", &[(name, " TRUE "), ("gi", "false")])],
            )],
        );
        only_ln(&parse(doc).unwrap()).lcb_vec[0].trgops[0]
    };
    assert_eq!(one("dchg"), 0x40);
    assert_eq!(one("qchg"), 0x20);
    assert_eq!(one("dupd"), 0x10);
    assert_eq!(one("period"), 0x08);
    assert_eq!(one("unknown"), 0x00);
    let doc = in_ln(
        true,
        vec![wrap(
            "LogControl",
            &[("name", "lcb1"), ("logName", "log")],
            vec![empty("TrgOps", &[("gi", "true")])],
        )],
    );
    assert_eq!(only_ln(&parse(doc).unwrap()).lcb_vec[0].trgops, [0x04]);
}

#[test]
fn a_report_control_block_is_read() {
    let doc = in_ln(
        true,
        vec![wrap(
            "ReportControl",
            &[
                ("name", " rcb1 "),
                ("desc", " d "),
                ("datSet", " ds1 "),
                ("intgPd", " 1000 "),
                ("bufTime", "50"),
                ("buffered", "True"),
                ("indexed", "true"),
                ("rptID", " id "),
                ("confRev", " 7 "),
            ],
            vec![
                empty("TrgOps", &[("period", "true")]),
                empty(
                    "OptFields",
                    &[("seqNum", "true"), ("timeStamp", "true"), ("configRef", "true"), ("dataSet", "no")],
                ),
                empty("RptEnabled", &[("max", "5")]),
            ],
        )],
    );
    let info = parse(doc).unwrap();
    let rcb = &only_ln(&info).rcb_vec[0];
    assert_eq!(rcb.name, "rcb1");
    assert_eq!(rcb.desc, " d ");
    assert_eq!(rcb.datset, "ds1");
    assert_eq!(rcb.intgpd, 1000);
    assert_eq!(rcb.buftime, 50);
    assert!(rcb.buffered);
    assert_eq!(rcb.rptid, "id");
    assert_eq!(rcb.confrev, 7);
    assert_eq!(rcb.trgops, [0x0c]);
    assert_eq!(rcb.optflds, [0x60, 0x80]);
    assert_eq!(rcb.maxclient, 5);
}

#[test]
fn every_option_field_has_its_bit() {
    let one = |name: &str| {
        let doc = in_ln(
            true,
            vec![wrap(
                "ReportControl",
                &[("name", "r"), ("confRev", "1")],
                vec![empty("OptFields", &[(name, "true")])],
            )],
        );
        only_ln(&parse(doc).unwrap()).rcb_vec[0].optflds
    };
    assert_eq!(one("seqNum"), [0x40, 0]);
    assert_eq!(one("timeStamp"), [0x20, 0]);
    assert_eq!(one("reasonCode"), [0x10, 0]);
    assert_eq!(one("dataSet"), [0x08, 0]);
    assert_eq!(one("dataRef"), [0x04, 0]);
    assert_eq!(one("bufOvfl"), [0x02, 0]);
    assert_eq!(one("entryID"), [0x01, 0]);
    assert_eq!(one("configRef"), [0, 0x80]);
    assert_eq!(one("segmentation"), [0, 0]);
}

#[test]
fn a_report_control_block_without_a_client_limit_allows_one_client() {
    let doc = in_ln(
        true,
        vec![wrap("ReportControl", &[("name", "r"), ("confRev", "1")], vec![empty("OptFields", &[])])],
    );
    let info = parse(doc).unwrap();
    let rcb = &only_ln(&info).rcb_vec[0];
    assert_eq!(rcb.maxclient, 1);
    assert!(!rcb.buffered);
    assert_eq!(rcb.trgops, [0]);
}

#[test]
fn what_the_children_of_one_block_leave_is_seen_by_the_next() {
    let doc = in_ln(
        true,
        vec![
            wrap(
                "ReportControl",
                &[("name", "a"), ("confRev", "1")],
                vec![empty("TrgOps", &[("dchg", "true")]), empty("OptFields", &[("seqNum", "true")]), empty("RptEnabled", &[("max", "9")])],
            ),
            wrap("ReportControl", &[("name", "b"), ("confRev", "1")], vec![]),
        ],
    );
    let info = parse(doc).unwrap();
    let rcb = &only_ln(&info).rcb_vec[1];
    assert_eq!(rcb.trgops, [0x44]);
    assert_eq!(rcb.optflds, [0x40, 0]);
    assert_eq!(rcb.maxclient, 9);
}

#[test]
fn report_control_blocks_that_are_refused() {
    let rc = |atts: &[(&str, &str)]| in_ln(true, vec![wrap("ReportControl", atts, vec![])]);
    assert_eq!(code(rc(&[("confRev", "1")])), 13);
    assert_eq!(code(rc(&[("name", "r")])), 13);
    assert_eq!(code(rc(&[("name", "r"), ("confRev", "x")])), 1);
    assert_eq!(code(rc(&[("name", "r"), ("confRev", "")])), 1);
    assert_eq!(code(rc(&[("name", "r-1"), ("confRev", "1")])), 1);
    assert_eq!(code(rc(&[("name", "r"), ("confRev", "1"), ("intgPd", "-1")])), 1);
    assert_eq!(code(rc(&[("name", "r"), ("confRev", "1"), ("bufTime", "4294967296")])), 1);
    assert_eq!(code(rc(&[("name", "r"), ("confRev", "1"), ("indexed", " False ")])), 1);
    assert_eq!(code(rc(&[("confRev", "1"), ("indexed", "false")])), 1);
    assert!(parse(rc(&[("name", "r"), ("confRev", "+4294967295"), ("bufTime", "007")])).is_ok());
}

#[test]
fn the_client_limit_runs_from_one_to_ninety_nine() {
    let rc = |max: &str| {
        in_ln(
            true,
            vec![wrap(
                "ReportControl",
                &[("name", "r"), ("confRev", "1")],
                vec![empty("RptEnabled", &[("max", max)])],
            )],
        )
    };
    assert_eq!(only_ln(&parse(rc("99")).unwrap()).rcb_vec[0].maxclient, 99);
    assert_eq!(only_ln(&parse(rc("1")).unwrap()).rcb_vec[0].maxclient, 1);
    assert_eq!(code(rc("0")), 1);
    assert_eq!(code(rc("100")), 1);
    assert_eq!(code(rc(" 5")), 1);
    assert_eq!(code(rc("five")), 1);
}

#[test]
fn a_log_control_block_is_read() {
    let doc = in_ln(
        true,
        vec![wrap(
            "LogControl",
            &[("name", "lcb"), ("logName", " log "), ("datSet", "ds"), ("intgPd", "3"), ("logEna", "true"), ("reasonCode", "TRUE"), ("desc", "d")],
            vec![empty("TrgOps", &[("qchg", "true")])],
        )],
    );
    let info = parse(doc).unwrap();
    let lcb = &only_ln(&info).lcb_vec[0];
    assert_eq!(lcb.name, "lcb");
    assert_eq!(lcb.logname, "log");
    assert_eq!(lcb.datset, "ds");
    assert_eq!(lcb.intgpd, 3);
    assert!(lcb.logena);
    assert!(lcb.reasoncode);
    assert_eq!(lcb.desc, "d");
    assert_eq!(lcb.trgops, [0x24]);
    let lc = |atts: &[(&str, &str)]| in_ln(true, vec![wrap("LogControl", atts, vec![])]);
    assert_eq!(code(lc(&[("name", "l")])), 13);
    assert_eq!(code(lc(&[("logName", "l")])), 13);
    assert_eq!(code(lc(&[("name", "l$"), ("logName", "l")])), 1);
    assert_eq!(code(lc(&[("name", "l"), ("logName", "l"), ("intgPd", "x")])), 1);
}

#[test]
fn data_sets_and_their_members() {
    let doc = in_ln(
        true,
        vec![wrap(
            "DataSet",
            &[("name", " ds1 "), ("desc", " d ")],
            vec![
                empty(
                    "FCDA",
                    &[("ldInst", " LD0 "), ("prefix", "p"), ("lnInst", "1"), ("lnClass", "MMXU"), ("doName", "A"), ("daName", "mag"), ("fc", " MX "), ("ix", "2")],
                ),
                empty("FCDA", &[("fc", "ST")]),
            ],
        )],
    );
    let info = parse(doc).unwrap();
    let ds = &only_ln(&info).dataset_vec[0];
    assert_eq!(ds.name, "ds1");
    assert_eq!(ds.desc, " d ");
    assert_eq!(ds.fcda_vec.len(), 2);
    let f = &ds.fcda_vec[0];
    assert_eq!(f.domname, "IED1LD0");
    assert_eq!(f.ldinst, "LD0");
    assert_eq!(f.prefix, "p");
    assert_eq!(f.lninst, "1");
    assert_eq!(f.lnclass, "MMXU");
    assert_eq!(f.doname, "A");
    assert_eq!(f.daname, "mag");
    assert_eq!(f.fc, "MX");
    assert_eq!(f.ix, "2");
    assert_eq!(ds.fcda_vec[1].domname, "IED1");
    assert_eq!(ds.fcda_vec[1].fc, "ST");
}

#[test]
fn data_sets_and_members_that_are_refused() {
    assert_eq!(code(in_ln(true, vec![wrap("DataSet", &[], vec![])])), 13);
    assert_eq!(code(in_ln(true, vec![wrap("DataSet", &[("name", "a b")], vec![])])), 1);
    assert_eq!(code(in_ln(true, vec![wrap("DataSet", &[("name", "a")], vec![empty("FCDA", &[])])])), 13);
    let long = "x".repeat(61);
    let doc = in_ln(true, vec![wrap("DataSet", &[("name", "a")], vec![empty("FCDA", &[("fc", "ST"), ("ldInst", &long)])])]);
    assert_eq!(code(doc), 1);
    let fits = "x".repeat(60);
    let doc = in_ln(true, vec![wrap("DataSet", &[("name", "a")], vec![empty("FCDA", &[("fc", "ST"), ("ldInst", &fits)])])]);
    assert_eq!(only_ln(&parse(doc).unwrap()).dataset_vec[0].fcda_vec[0].domname.len(), 64);
}

#[test]
fn goose_control_blocks_and_setting_groups_belong_to_ln0() {
    let doc = in_ln0(vec![
        empty(
            "GSEControl",
            &[("name", " gcb1 "), ("appID", " app "), ("datSet", " ds "), ("confRev", "3"), ("desc", "d")],
        ),
        empty("GSEControl", &[("name", "g2"), ("appID", "a"), ("type", " gsse ")]),
        empty("SettingControl", &[("numOfSGs", " 4 "), ("actSG", "2"), ("desc", " s ")]),
    ]);
    let info = parse(doc).unwrap();
    let ln = only_ln(&info);
    assert_eq!(ln.gcb_vec.len(), 2);
    assert_eq!(ln.gcb_vec[0].name, "gcb1");
    assert_eq!(ln.gcb_vec[0].appid, " app ");
    assert_eq!(ln.gcb_vec[0].datset, "ds");
    assert_eq!(ln.gcb_vec[0].confrev, 3);
    assert!(ln.gcb_vec[0].isgoose);
    assert!(!ln.gcb_vec[0].subscribed);
    assert!(!ln.gcb_vec[1].isgoose);
    assert_eq!(ln.sgcb.numofsgs, 4);
    assert_eq!(ln.sgcb.actsg, 2);
    assert_eq!(ln.sgcb.desc, " s ");
}

#[test]
fn in_a_plain_ln_goose_control_blocks_are_not_known() {
    let doc = in_ln(true, vec![empty("GSEControl", &[]), empty("SettingControl", &[])]);
    let info = parse(doc).unwrap();
    assert_eq!(only_ln(&info).gcb_vec.len(), 0);
}

#[test]
fn setting_groups_fall_back_on_their_defaults() {
    let doc = in_ln0(vec![empty("SettingControl", &[("numOfSGs", "many"), ("actSG", "x")])]);
    let info = parse(doc).unwrap();
    assert_eq!(only_ln(&info).sgcb.numofsgs, 0);
    assert_eq!(only_ln(&info).sgcb.actsg, 1);
    assert_eq!(code(in_ln0(vec![empty("SettingControl", &[("actSG", "1")])])), 13);
    assert_eq!(code(in_ln0(vec![empty("GSEControl", &[("name", "g")])])), 13);
    assert_eq!(code(in_ln0(vec![empty("GSEControl", &[("appID", "g")])])), 13);
    assert_eq!(code(in_ln0(vec![empty("GSEControl", &[("name", "g"), ("appID", "a"), ("confRev", "z")])])), 1);
    assert_eq!(code(in_ln0(vec![empty("GSEControl", &[("name", "g g"), ("appID", "a")])])), 1);
}

#[test]
fn external_references_are_read() {
    let doc = in_ln(
        true,
        vec![wrap(
            "Inputs",
            &[],
            vec![
                empty(
                    "ExtRef",
                    &[
                        ("desc", " d "), ("intAddr", " i "), ("iedName", " IED2 "), ("ldInst", "LD"), ("prefix", "p"),
                        ("lnClass", "XCBR"), ("lnInst", "1"), ("doName", "Pos"), ("daName", "stVal"),
                        ("serviceType", "GOOSE"), ("srcLDInst", "sl"), ("srcPrefix", "sp"), ("srcLNClass", "LLN0"),
                        ("srcLNInst", "si"), ("srcCBName", " cb "),
                    ],
                ),
                empty("ExtRef", &[]),
            ],
        )],
    );
    let info = parse(doc).unwrap();
    let refs = &only_ln(&info).extref_vec;
    assert_eq!(refs.len(), 2);
    assert_eq!(refs[0].desc, " d ");
    assert_eq!(refs[0].intaddr, "i");
    assert_eq!(refs[0].iedname, "IED2");
    assert_eq!(refs[0].ldinst, "LD");
    assert_eq!(refs[0].prefix, "p");
    assert_eq!(refs[0].lnclass, "XCBR");
    assert_eq!(refs[0].lninst, "1");
    assert_eq!(refs[0].doname, "Pos");
    assert_eq!(refs[0].daname, "stVal");
    assert_eq!(refs[0].servicetype, "GOOSE");
    assert_eq!(refs[0].srcldinst, "sl");
    assert_eq!(refs[0].srcprefix, "sp");
    assert_eq!(refs[0].srclnclass, "LLN0");
    assert_eq!(refs[0].srclninst, "si");
    assert_eq!(refs[0].srccbname, "cb");
    assert_eq!(refs[1].iedname, "");
}

#[test]
fn a_sampled_value_control_block_is_read() {
    let doc = in_ln(
        true,
        vec![wrap(
            "SampledValueControl",
            &[
                ("name", " sv1 "), ("smvID", " id1 "), ("smpRate", " 80 "), ("nofASDU", "1"), ("desc", " d "),
                ("datSet", " ds "), ("confRev", "2"), ("multicast", "false"), ("smpMod", " smppersec "),
            ],
            vec![empty("SmvOpts", &[("sampleRate", "true"), ("refreshTime", "true"), ("dataSet", "true"), ("security", "true"), ("dataRef", "true")])],
        )],
    );
    let info = parse(doc).unwrap();
    let sv = &only_ln(&info).svcb_vec[0];
    assert_eq!(sv.name, "sv1");
    assert_eq!(sv.smvid, "id1");
    assert_eq!(sv.smprate, 80);
    assert_eq!(sv.nofasdu, 1);
    assert_eq!(sv.desc, " d ");
    assert_eq!(sv.datset, "ds");
    assert_eq!(sv.confrev, 2);
    assert!(!sv.multicast);
    assert_eq!(sv.smpmod, 1);
    assert_eq!(sv.optflds, [0xf8]);
    assert!(sv.securitypres);
    assert!(sv.datarefpres);
}

#[test]
fn sampled_value_options_depend_on_the_edition() {
    let sv = |ed2: bool, opts: &[(&str, &str)]| {
        let doc = in_ln(
            ed2,
            vec![wrap(
                "SampledValueControl",
                &[("name", "sv"), ("smvID", "id"), ("smpRate", "80"), ("nofASDU", "1")],
                vec![empty("SmvOpts", opts)],
            )],
        );
        let info = parse(doc).unwrap();
        let b = &only_ln(&info).svcb_vec[0];
        (b.optflds[0], b.securitypres, b.datarefpres, b.multicast, b.smpmod)
    };
    assert_eq!(sv(true, &[]), (0x40, false, false, true, 0));
    assert_eq!(sv(false, &[]), (0x00, false, false, true, 0));
    assert_eq!(sv(false, &[("sampleSynchronized", "true")]), (0x40, false, false, true, 0));
    assert_eq!(sv(false, &[("dataSet", "true"), ("security", "true")]), (0x00, true, false, true, 0));
    assert_eq!(sv(true, &[("dataSet", "true"), ("security", "true")]), (0x58, true, false, true, 0));
    assert_eq!(sv(true, &[("sampleRate", "true")]), (0x60, false, false, true, 0));
    assert_eq!(sv(false, &[("refreshTime", "true"), ("dataRef", "true")]), (0x80, false, true, true, 0));
}

#[test]
fn the_sampling_mode_has_three_names() {
    let sv = |m: &str| {
        let doc = in_ln(
            true,
            vec![wrap("SampledValueControl", &[("name", "sv"), ("smvID", "id"), ("smpRate", "80"), ("nofASDU", "1"), ("smpMod", m)], vec![])],
        );
        only_ln(&parse(doc).unwrap()).svcb_vec[0].smpmod
    };
    assert_eq!(sv("SmpPerPeriod"), 0);
    assert_eq!(sv("SmpPerSec"), 1);
    assert_eq!(sv("SecPerSmp"), 2);
    assert_eq!(sv("other"), 0);
}

#[test]
fn the_identifier_of_a_sampled_value_control_block_is_bounded_by_edition() {
    let long = "s".repeat(66);
    let sv = |ed2: bool| {
        in_ln(
            ed2,
            vec![wrap("SampledValueControl", &[("name", "MSVCB1"), ("smvID", &long), ("smpRate", "80"), ("nofASDU", "1")], vec![])],
        )
    };
    assert_eq!(code(sv(false)), 1);
    let info = parse(sv(true)).unwrap();
    let ln = only_ln(&info);
    assert_eq!(ln.svcb_vec.len(), 1);
    assert_eq!(ln.svcb_vec[0].name, "MSVCB1");
    assert_eq!(ln.svcb_vec[0].smvid, long);
    assert!(ln.svcb_vec[0].multicast);
    assert_eq!(ln.svcb_vec[0].smprate, 80);
    assert_eq!(ln.svcb_vec[0].nofasdu, 1);
}

#[test]
fn sampled_value_control_blocks_that_are_refused() {
    let sv = |ed2: bool, atts: &[(&str, &str)]| in_ln(ed2, vec![wrap("SampledValueControl", atts, vec![])]);
    let long = "n".repeat(66);
    assert_eq!(code(sv(false, &[("name", "MSVCB1"), ("smvID", &long), ("smpRate", "80"), ("nofASDU", "1")])), 1);
    let padded = format!("  {}\t", "n".repeat(65));
    assert!(parse(sv(false, &[("name", "MSVCB1"), ("smvID", &padded), ("smpRate", "80"), ("nofASDU", "1")])).is_ok());
    assert!(parse(sv(false, &[("name", &long), ("smvID", "id"), ("smpRate", "80"), ("nofASDU", "1")])).is_ok());
    let longer = "n".repeat(130);
    assert_eq!(code(sv(true, &[("name", "MSVCB1"), ("smvID", &longer), ("smpRate", "80"), ("nofASDU", "1")])), 1);
    assert!(parse(sv(true, &[("name", "MSVCB1"), ("smvID", &"n".repeat(129)), ("smpRate", "80"), ("nofASDU", "1")])).is_ok());
    assert_eq!(code(sv(true, &[("name", "sv"), ("smvID", "id"), ("smpRate", "x"), ("nofASDU", "1")])), 1);
    assert_eq!(code(sv(true, &[("name", "sv"), ("smvID", "id"), ("smpRate", "80"), ("nofASDU", "")])), 1);
    assert_eq!(code(sv(true, &[("name", "sv"), ("smvID", "id"), ("smpRate", "80"), ("nofASDU", "1"), ("confRev", "a")])), 1);
    assert_eq!(code(sv(true, &[("smvID", "id"), ("smpRate", "80"), ("nofASDU", "1")])), 13);
    assert_eq!(code(sv(true, &[("name", "sv"), ("smpRate", "80"), ("nofASDU", "1")])), 13);
    assert_eq!(code(sv(true, &[("name", "sv"), ("smvID", "id"), ("nofASDU", "1")])), 13);
    assert_eq!(code(sv(true, &[("name", "sv"), ("smvID", "id"), ("smpRate", "80")])), 13);
    assert_eq!(code(sv(true, &[("smvID", "id"), ("smpRate", "x"), ("nofASDU", "1")])), 1);
}

#[test]
fn a_subnetwork_with_its_access_point() {
    let info = parse(comm(vec![])).unwrap();
    assert_eq!(info.subnet_vec.len(), 1);
    let sn = &info.subnet_vec[0];
    assert_eq!(sn.name, "SN1");
    assert_eq!(sn.desc, " net ");
    assert_eq!(sn.rtype, "8-MMS");
    assert_eq!(sn.cap_vec.len(), 1);
    let cap = &sn.cap_vec[0];
    assert_eq!(cap.iedname, "IED1");
    assert_eq!(cap.apname, "AP1");
    assert_eq!(cap.desc, "cap");
    assert_eq!(cap.address.ip, [0, 0, 0, 0]);
    assert_eq!(cap.address.psel_len, 0);
    assert!(!cap.address.ae_title.ap_title_pres);
}

#[test]
fn subnetworks_and_access_points_need_their_names() {
    let doc = scl2(vec![wrap("Communication", &[], vec![wrap("SubNetwork", &[], vec![])])]);
    assert_eq!(code(doc), 13);
    let cap = |atts: &[(&str, &str)]| {
        scl2(vec![wrap(
            "Communication",
            &[],
            vec![wrap("SubNetwork", &[("name", "SN")], vec![wrap("ConnectedAP", atts, vec![])])],
        )])
    };
    assert_eq!(code(cap(&[("iedName", "I")])), 13);
    assert_eq!(code(cap(&[("apName", "A")])), 13);
    let info = parse(cap(&[("iedName", "I"), ("apName", "A")])).unwrap();
    assert_eq!(info.subnet_vec[0].desc, "");
    assert_eq!(info.subnet_vec[0].rtype, "");
    assert_eq!(info.subnet_vec[0].cap_vec[0].desc, "");
}

#[test]
fn the_parts_of_an_address() {
    let doc = address(vec![
        leaf("P", &[("type", "IP")], "192.168.0.15"),
        leaf("P", &[("type", "IP-SUBNET")], "255.255.255.0"),
        leaf("P", &[("type", "OSI-PSEL")], "00 00 00 01"),
        leaf("P", &[("type", "osi-ssel")], "0001"),
        leaf("P", &[("type", "OSI-TSEL")], "0A0b\n0C"),
        leaf("P", &[("type", "OSI-AP-Title")], "1 3 9999 33"),
        leaf("P", &[("type", "OSI-AE-Qualifier")], " 33 "),
        leaf("P", &[("type", "OSI-AP-Invoke")], "-7"),
        leaf("P", &[("type", "OSI-AE-Invoke")], "+8"),
    ]);
    let info = parse(doc).unwrap();
    let a = &info.subnet_vec[0].cap_vec[0].address;
    assert_eq!(a.ip, [192, 168, 0, 15]);
    assert_eq!(a.psel_len, 4);
    assert_eq!(&a.psel[..4], &[0, 0, 0, 1]);
    assert_eq!(a.ssel_len, 2);
    assert_eq!(&a.ssel[..2], &[0, 1]);
    assert_eq!(a.tsel_len, 3);
    assert_eq!(&a.tsel[..3], &[10, 11, 12]);
    assert!(a.ae_title.ap_title_pres);
    assert_eq!(a.ae_title.ap_title.num_comps, 4);
    assert_eq!(&a.ae_title.ap_title.comps[..4], &[1, 3, 9999, 33]);
    assert!(a.ae_title.ae_qual_pres);
    assert_eq!(a.ae_title.ae_qual, 33);
    assert!(a.ae_title.ap_inv_id_pres);
    assert_eq!(a.ae_title.ap_inv_id, -7);
    assert!(a.ae_title.ae_inv_id_pres);
    assert_eq!(a.ae_title.ae_inv_id, 8);
}

#[test]
fn a_shorter_selector_keeps_the_rest_of_the_longer_one() {
    let doc = address(vec![
        leaf("P", &[("type", "OSI-PSEL")], "01020304"),
        leaf("P", &[("type", "OSI-PSEL")], "ff"),
    ]);
    let info = parse(doc).unwrap();
    let a = &info.subnet_vec[0].cap_vec[0].address;
    assert_eq!(a.psel_len, 1);
    assert_eq!(&a.psel[..4], &[0xff, 2, 3, 4]);
}

#[test]
fn selectors_have_a_longest_length() {
    let sixteen = "ab".repeat(16);
    let info = parse(address(vec![leaf("P", &[("type", "OSI-PSEL")], &sixteen)])).unwrap();
    assert_eq!(info.subnet_vec[0].cap_vec[0].address.psel, [0xab; 16]);
    assert_eq!(info.subnet_vec[0].cap_vec[0].address.psel_len, 16);
    let seventeen = "ab".repeat(17);
    assert_eq!(code(address(vec![leaf("P", &[("type", "OSI-PSEL")], &seventeen)])), 1);
    assert_eq!(code(address(vec![leaf("P", &[("type", "OSI-SSEL")], &seventeen)])), 1);
    let info = parse(address(vec![leaf("P", &[("type", "OSI-TSEL")], &seventeen)])).unwrap();
    assert_eq!(info.subnet_vec[0].cap_vec[0].address.tsel_len, 17);
    let thirty_three = "ab".repeat(33);
    assert_eq!(code(address(vec![leaf("P", &[("type", "OSI-TSEL")], &thirty_three)])), 1);
}

#[test]
fn parts_of_an_address_that_are_refused() {
    let p = |t: &str, txt: &str| address(vec![leaf("P", &[("type", t)], txt)]);
    assert_eq!(code(p("IP", "192.168.0")), 1);
    assert_eq!(code(p("IP", " 192.168.0.1")), 1);
    assert_eq!(code(p("OSI-PSEL", "0g")), 1);
    assert_eq!(code(p("OSI-AE-Qualifier", "x")), 1);
    assert_eq!(code(p("OSI-AE-Qualifier", "")), 1);
    assert_eq!(code(p("OSI-AP-Invoke", "2147483648")), 1);
    assert_eq!(code(p("OSI-AE-Invoke", "1.5")), 1);
    assert_eq!(code(address(vec![leaf("P", &[], "x")])), 13);
    assert_eq!(code(address(vec![empty("P", &[("type", "IP")])])), 1);
    assert!(parse(address(vec![empty("P", &[("type", "other")])])).is_ok());
    let info = parse(p("OSI-AP-Title", "1 x")).unwrap();
    assert!(!info.subnet_vec[0].cap_vec[0].address.ae_title.ap_title_pres);
    let info = parse(p("OSI-AP-Invoke", "-2147483648")).unwrap();
    assert_eq!(info.subnet_vec[0].cap_vec[0].address.ae_title.ap_inv_id, i32::MIN);
}

#[test]
fn a_goose_transport_is_read() {
    let doc = gse(vec![
        wrap(
            "Address",
            &[],
            vec![
                leaf("P", &[("type", "MAC-Address")], "01-0C-CD-01-00-0A"),
                leaf("P", &[("type", "APPID")], " 1a2B "),
                leaf("P", &[("type", "VLAN-PRIORITY")], "4"),
                leaf("P", &[("type", "VLAN-ID")], "fff"),
                leaf("P", &[("type", "Whatever")], "zz"),
            ],
        ),
        leaf("MinTime", &[("unit", "s"), ("multiplier", "m")], "4"),
        leaf("MaxTime", &[("unit", "s")], "1000"),
    ]);
    let info = parse(doc).unwrap();
    let g = &info.subnet_vec[0].cap_vec[0].gse_vec[0];
    assert_eq!(g.ldinst, "LD0");
    assert_eq!(g.cbname, "gcb1");
    assert_eq!(g.mac, [0x01, 0x0c, 0xcd, 0x01, 0x00, 0x0a]);
    assert_eq!(g.appid, 0x1a2b);
    assert_eq!(g.vlanpri, 4);
    assert_eq!(g.vlanid, 0xfff);
    assert_eq!(g.mintime, 4);
    assert_eq!(g.maxtime, 1000);
}

#[test]
fn mac_addresses_come_in_three_forms() {
    let mac = |txt: &str| {
        let doc = gse(vec![wrap("Address", &[], vec![leaf("P", &[("type", "mac-address")], txt)])]);
        parse(doc).map(|i| i.subnet_vec[0].cap_vec[0].gse_vec[0].mac)
    };
    assert_eq!(mac("80:FA:5B:41:10:6B").unwrap(), [128, 250, 91, 65, 16, 107]);
    assert_eq!(mac("01-23-45-67-89-AB").unwrap(), [0x01, 0x23, 0x45, 0x67, 0x89, 0xab]);
    assert_eq!(mac("4827e24425d8").unwrap(), [0x48, 0x27, 0xe2, 0x44, 0x25, 0xd8]);
    assert_eq!(mac("80:FA:5B:41").unwrap_err(), SclError::Parse(1));
    assert_eq!(mac("80:FA:ZZ:41:10:6B").unwrap_err(), SclError::Parse(1));
    assert_eq!(mac(" 80:FA:5B:41:10:6B").unwrap_err(), SclError::Parse(1));
    assert_eq!(mac("").unwrap_err(), SclError::Parse(1));
}

#[test]
fn the_numbers_of_a_transport_are_bounded() {
    let p = |t: &str, txt: &str| gse(vec![wrap("Address", &[], vec![leaf("P", &[("type", t)], txt)])]);
    assert!(parse(p("APPID", "ffff")).is_ok());
    assert_eq!(code(p("APPID", "10000")), 1);
    assert_eq!(code(p("APPID", "0x10")), 1);
    assert!(parse(p("VLAN-PRIORITY", "7")).is_ok());
    assert_eq!(code(p("VLAN-PRIORITY", "8")), 1);
    assert_eq!(code(p("VLAN-ID", "1000")), 1);
    assert_eq!(code(p("VLAN-ID", "")), 1);
    assert_eq!(code(gse(vec![wrap("Address", &[], vec![empty("P", &[("type", "APPID")])])])), 1);
    assert_eq!(code(gse(vec![wrap("Address", &[], vec![leaf("P", &[], "1")])])), 13);
}

#[test]
fn retransmission_times_are_numbers() {
    assert_eq!(code(gse(vec![leaf("MinTime", &[("unit", "s")], " 4")])), 1);
    assert_eq!(code(gse(vec![leaf("MaxTime", &[("unit", "s")], "x")])), 1);
    assert_eq!(code(gse(vec![leaf("MinTime", &[], "4")])), 13);
    assert_eq!(code(gse(vec![empty("MaxTime", &[("unit", "s")])])), 1);
    let info = parse(gse(vec![leaf("MaxTime", &[("unit", "ms")], "7")])).unwrap();
    assert_eq!(info.subnet_vec[0].cap_vec[0].gse_vec[0].maxtime, 7);
    assert_eq!(info.subnet_vec[0].cap_vec[0].gse_vec[0].mintime, 0);
}

#[test]
fn a_sampled_value_transport_is_read() {
    let doc = comm(vec![wrap(
        "SMV",
        &[("ldInst", "LD0"), ("cbName", "sv1")],
        vec![wrap(
            "Address",
            &[],
            vec![
                leaf("P", &[("type", "MAC-Address")], "01:0C:CD:04:00:01"),
                leaf("P", &[("type", "APPID")], "4000"),
                leaf("P", &[("type", "VLAN-PRIORITY")], "0"),
                leaf("P", &[("type", "VLAN-ID")], "005"),
            ],
        )],
    )]);
    let info = parse(doc).unwrap();
    let s = &info.subnet_vec[0].cap_vec[0].smv_vec[0];
    assert_eq!(s.ldinst, "LD0");
    assert_eq!(s.cbname, "sv1");
    assert_eq!(s.mac, [1, 0x0c, 0xcd, 4, 0, 1]);
    assert_eq!(s.appid, 0x4000);
    assert_eq!(s.vlanpri, 0);
    assert_eq!(s.vlanid, 5);
    assert_eq!(code(comm(vec![wrap("SMV", &[("ldInst", "LD0")], vec![])])), 13);
    assert_eq!(code(comm(vec![wrap("GSE", &[("cbName", "x")], vec![])])), 13);
    let bad = comm(vec![wrap(
        "SMV",
        &[("ldInst", "LD0"), ("cbName", "sv1")],
        vec![wrap("Address", &[], vec![leaf("P", &[("type", "VLAN-ID")], "zz")])],
    )]);
    assert_eq!(code(bad), 1);
}

#[test]
fn type_templates_are_read() {
    let doc = templates(vec![
        wrap(
            "LNodeType",
            &[("id", " T1 "), ("lnClass", " MMXU "), ("iedType", "x")],
            vec![empty("DO", &[("name", " A "), ("type", " DT1 ")]), empty("DO", &[("name", "B"), ("type", "DT2")])],
        ),
        wrap(
            "DOType",
            &[("id", " DT1 "), ("cdc", " MV ")],
            vec![
                wrap(
                    "DA",
                    &[
                        ("name", " mag "), ("bType", " Struct "), ("fc", " MX "), ("type", " AV "), ("count", " 2 "),
                        ("dchg", "true"), ("qchg", "TRUE"), ("dupd", "false"), ("desc", " d "), ("sAddr", " s "), ("valKind", " RO "),
                    ],
                    vec![leaf("Val", &[], " 1 "), leaf("Val", &[], " 2 "), leaf("Val", &[("sGroup", "3")], " 33 ")],
                ),
                empty("SDO", &[("name", " sub "), ("type", " DT2 "), ("count", "4"), ("desc", "sd")]),
            ],
        ),
        wrap(
            "DAType",
            &[("id", " AV ")],
            vec![wrap(
                "BDA",
                &[("name", " f "), ("bType", " FLOAT32 "), ("type", " t "), ("count", "1"), ("desc", "bd"), ("sAddr", " a "), ("valKind", "Conf")],
                vec![leaf("Val", &[], " 1.5 "), leaf("Val", &[("sGroup", "2")], "2.5"), leaf("Val", &[("sGroup", "q")], " 3.5 ")],
            )],
        ),
        wrap(
            "EnumType",
            &[("id", " E1 ")],
            vec![leaf("EnumVal", &[("ord", " -1 ")], " off "), leaf("EnumVal", &[("ord", "2")], "on")],
        ),
    ]);
    let info = parse(doc).unwrap();
    assert_eq!(info.lntype_vec.len(), 1);
    assert_eq!(info.lntype_vec[0].id, "T1");
    assert_eq!(info.lntype_vec[0].lnclass, "MMXU");
    assert_eq!(info.lntype_vec[0].type_id, 0);
    assert_eq!(info.lntype_vec[0].do_vec.len(), 2);
    assert_eq!(info.lntype_vec[0].do_vec[0].name, "A");
    assert_eq!(info.lntype_vec[0].do_vec[0].rtype, "DT1");
    let dt = &info.dotype_vec[0];
    assert_eq!(dt.id, "DT1");
    assert_eq!(dt.cdc, "MV");
    assert_eq!(dt.da_vec.len(), 2);
    let da = &dt.da_vec[0];
    assert_eq!(da.objtype, 0);
    assert_eq!(da.name, "mag");
    assert_eq!(da.btype, "Struct");
    assert_eq!(da.fc, "MX");
    assert_eq!(da.rtype, "AV");
    assert_eq!(da.count, 2);
    assert!(da.dchg);
    assert!(da.qchg);
    assert!(!da.dupd);
    assert_eq!(da.desc, " d ");
    assert_eq!(da.saddr, "s");
    assert_eq!(da.valkind, "RO");
    assert_eq!(da.val, "2");
    assert_eq!(da.sgval_vec.len(), 1);
    assert_eq!(da.sgval_vec[0].sgroup, 3);
    assert_eq!(da.sgval_vec[0].val, "33");
    let sdo = &dt.da_vec[1];
    assert_eq!(sdo.objtype, 1);
    assert_eq!(sdo.name, "sub");
    assert_eq!(sdo.rtype, "DT2");
    assert_eq!(sdo.count, 4);
    assert_eq!(sdo.desc, "sd");
    assert_eq!(sdo.valkind, "");
    assert_eq!(sdo.fc, "");
    let bda = &info.datype_vec[0].bda_vec[0];
    assert_eq!(info.datype_vec[0].id, "AV");
    assert_eq!(bda.name, "f");
    assert_eq!(bda.btype, "FLOAT32");
    assert_eq!(bda.rtype, "t");
    assert_eq!(bda.count, 1);
    assert_eq!(bda.desc, "bd");
    assert_eq!(bda.saddr, "a");
    assert_eq!(bda.valkind, "Conf");
    assert_eq!(bda.val, "3.5");
    assert_eq!(bda.sgval_vec.len(), 1);
    assert_eq!(bda.sgval_vec[0].sgroup, 2);
    assert_eq!(bda.sgval_vec[0].val, "2.5");
    let e = &info.enumtype_vec[0];
    assert_eq!(e.id, "E1");
    assert_eq!(e.enumval_vec.len(), 2);
    assert_eq!(e.enumval_vec[0].ord, -1);
    assert_eq!(e.enumval_vec[0].enumval, "off");
    assert_eq!(e.enumval_vec[1].ord, 2);
    assert_eq!(e.enumval_vec[1].enumval, "on");
}

#[test]
fn the_kind_of_a_value_is_set_unless_it_is_said() {
    let doc = templates(vec![
        wrap("DOType", &[("id", "D"), ("cdc", "c")], vec![wrap("DA", &[("name", "a"), ("bType", "b"), ("fc", "ST")], vec![])]),
        wrap("DAType", &[("id", "A")], vec![wrap("BDA", &[("name", "a-b"), ("bType", "b")], vec![])]),
    ]);
    let info = parse(doc).unwrap();
    assert_eq!(info.dotype_vec[0].da_vec[0].valkind, "Set");
    assert_eq!(info.dotype_vec[0].da_vec[0].count, 0);
    assert_eq!(info.datype_vec[0].bda_vec[0].valkind, "Set");
    assert_eq!(info.datype_vec[0].bda_vec[0].name, "a-b");
}

#[test]
fn type_templates_that_are_refused() {
    let t = |inner: Vec<Vec<XmlEvent>>| templates(inner);
    assert_eq!(code(t(vec![wrap("LNodeType", &[("id", "T")], vec![])])), 13);
    assert_eq!(code(t(vec![wrap("LNodeType", &[("lnClass", "T")], vec![])])), 13);
    assert_eq!(code(t(vec![wrap("DOType", &[("id", "T")], vec![])])), 13);
    assert_eq!(code(t(vec![wrap("DOType", &[("cdc", "T")], vec![])])), 13);
    assert_eq!(code(t(vec![wrap("DAType", &[], vec![])])), 13);
    assert_eq!(code(t(vec![wrap("EnumType", &[], vec![])])), 13);
    let lnt = |d: &[(&str, &str)]| t(vec![wrap("LNodeType", &[("id", "T"), ("lnClass", "C")], vec![empty("DO", d)])]);
    assert_eq!(code(lnt(&[("type", "x")])), 13);
    assert_eq!(code(lnt(&[("name", "x")])), 13);
    assert_eq!(code(lnt(&[("name", "x.y"), ("type", "t")])), 1);
    let dot = |el: &str, d: &[(&str, &str)]| t(vec![wrap("DOType", &[("id", "T"), ("cdc", "C")], vec![empty(el, d)])]);
    assert_eq!(code(dot("DA", &[("bType", "b"), ("fc", "ST")])), 13);
    assert_eq!(code(dot("DA", &[("name", "a"), ("fc", "ST")])), 13);
    assert_eq!(code(dot("DA", &[("name", "a"), ("bType", "b")])), 13);
    assert_eq!(code(dot("DA", &[("name", "a b"), ("bType", "b"), ("fc", "ST")])), 1);
    assert_eq!(code(dot("DA", &[("name", "a"), ("bType", "b"), ("fc", "ST"), ("count", "n")])), 1);
    assert_eq!(code(dot("SDO", &[("type", "t")])), 13);
    assert_eq!(code(dot("SDO", &[("name", "s")])), 13);
    assert_eq!(code(dot("SDO", &[("name", "s!"), ("type", "t")])), 1);
    assert_eq!(code(dot("SDO", &[("name", "s"), ("type", "t"), ("count", "-")])), 1);
    let dat = |d: &[(&str, &str)]| t(vec![wrap("DAType", &[("id", "T")], vec![empty("BDA", d)])]);
    assert_eq!(code(dat(&[("bType", "b")])), 13);
    assert_eq!(code(dat(&[("name", "n")])), 13);
    assert_eq!(code(dat(&[("name", "n"), ("bType", "b"), ("count", "1.0")])), 1);
    let en = |d: &[(&str, &str)], txt: Option<&str>| {
        let ev = match txt {
            Some(x) => leaf("EnumVal", d, x),
            None => empty("EnumVal", d),
        };
        t(vec![wrap("EnumType", &[("id", "E")], vec![ev])])
    };
    assert_eq!(code(en(&[], Some("x"))), 13);
    assert_eq!(code(en(&[("ord", "one")], Some("x"))), 1);
    assert_eq!(code(en(&[("ord", "1")], None)), 1);
    let dav = |g: &str| {
        t(vec![wrap(
            "DOType",
            &[("id", "T"), ("cdc", "C")],
            vec![wrap("DA", &[("name", "a"), ("bType", "b"), ("fc", "ST")], vec![leaf("Val", &[("sGroup", g)], "v")])],
        )])
    };
    assert_eq!(code(dav("x")), 1);
    assert!(parse(dav("0")).is_ok());
}

#[test]
fn the_services_of_the_device_go_to_its_server() {
    let doc = services(vec![
        empty("GetDirectory", &[]),
        empty("GetDataObjectDefinition", &[]),
        empty("DataObjectDirectory", &[]),
        empty("GetDataSetValue", &[]),
        empty("SetDataSetValue", &[]),
        empty("DataSetDirectory", &[]),
        empty("ReadWrite", &[]),
        empty("TimerActivatedControl", &[]),
        empty("GetCBValues", &[]),
        empty("GSEDir", &[]),
        empty("FileHandling", &[]),
        empty("ConfLdName", &[]),
        empty("ConfLogControl", &[("max", "1")]),
        empty("GOOSE", &[("max", "2")]),
        empty("GSSE", &[("max", "3")]),
        empty("SMVsc", &[("max", "4")]),
        empty("SupSubscription", &[("max", "5")]),
        empty("ConfSigRef", &[("max", "6")]),
        empty(
            "ReportSettings",
            &[("cbName", "Conf"), ("datSet", "Dyn"), ("rptID", " Dyn "), ("optFields", "Conf"), ("bufTime", "Dyn"), ("trgOps", "Conf"), ("intgPd", "Dyn"), ("resvTms", "true")],
        ),
        empty("DynAssociation", &[]),
    ]);
    let info = parse(doc).unwrap();
    let s = &info.server_vec[0].scl_services;
    assert!(s.getdirectory && s.getdataobjectdefinition && s.dataobjectdirectory && s.getdatasetvalue);
    assert!(s.setdatasetvalue && s.datasetdirectory && s.readwrite && s.timeractivatedcontrol);
    assert!(s.getcbvalues && s.gsedir && s.filehandling && s.confldname);
    assert!(s.conflogcontrol.enabled && s.goose.enabled && s.gsse.enabled);
    assert!(s.smvsc.enabled && s.supsubscription.enabled && s.confsigref.enabled);
    assert_eq!(s.conflogcontrol.max, 1);
    assert_eq!(s.goose.max, 2);
    assert_eq!(s.gsse.max, 3);
    assert_eq!(s.smvsc.max, 4);
    assert_eq!(s.supsubscription.max, 5);
    assert_eq!(s.confsigref.max, 6);
    assert_eq!(s.reportsettings.cbname, "Conf");
    assert_eq!(s.reportsettings.datset, "Dyn");
    assert_eq!(s.reportsettings.rptid, " Dyn ");
    assert_eq!(s.reportsettings.optfields, "Conf");
    assert_eq!(s.reportsettings.buftime, "Dyn");
    assert_eq!(s.reportsettings.trgops, "Conf");
    assert_eq!(s.reportsettings.intgpd, "Dyn");
    assert!(s.reportsettings.resvtms);
    assert!(!s.reportsettings.owner);
}

#[test]
fn a_device_that_declares_nothing_offers_nothing() {
    let info = parse(services(vec![])).unwrap();
    let s = &info.server_vec[0].scl_services;
    assert!(!s.getdirectory && !s.readwrite && !s.goose.enabled);
    assert_eq!(s.goose.max, 0);
    assert_eq!(s.reportsettings.cbname, "Fix");
    assert_eq!(s.reportsettings.intgpd, "Fix");
    assert!(!s.reportsettings.resvtms);
    let one = services(vec![empty("ReportSettings", &[("owner", "true"), ("rptID", "Dyn")])]);
    let info = parse(one).unwrap();
    let r = &info.server_vec[0].scl_services.reportsettings;
    assert_eq!(r.rptid, "Dyn");
    assert_eq!(r.cbname, "Fix");
    assert!(r.resvtms);
    assert!(!r.owner);
}

#[test]
fn services_with_a_limit_need_it() {
    assert_eq!(code(services(vec![empty("GOOSE", &[])])), 13);
    assert_eq!(code(services(vec![empty("GOOSE", &[("max", "many")])])), 1);
    assert_eq!(code(services(vec![empty("ConfLogControl", &[("max", " 1")])])), 1);
    assert_eq!(code(services(vec![empty("GetDirectory", &[]), empty("GetDirectory", &[])])), 4);
}

#[test]
fn the_options_of_the_caller_are_kept() {
    let opts = Some(SclOptions { forceedition: 2, includeowner: true });
    let info = scl_parse_events(scl1(vec![]), "IED1", "AP1", opts).unwrap();
    assert_eq!(info.edition, 2);
    assert!(info.options.includeowner);
    assert_eq!(info.options.forceedition, 2);
}
