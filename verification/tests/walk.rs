use scl61850::context::{IcdParseContext2, TagInfo};
use scl61850::engine::{begin_walk, scl_parse_events, XmlEvent};
use scl61850::error::SclError;
use scl61850::model::{SclInfo, SclOptions};

fn tag(name: &str, atts: &[(&str, &str)]) -> TagInfo {
    let mut t = TagInfo::new(name);
    for (k, v) in atts {
        t = t.with_attr(k, v);
    }
    t
}

fn start(name: &str, atts: &[(&str, &str)]) -> XmlEvent {
    XmlEvent::Start(tag(name, atts))
}

fn end(name: &str) -> XmlEvent {
    XmlEvent::End(tag(name, &[]))
}

fn empty(name: &str, atts: &[(&str, &str)]) -> XmlEvent {
    XmlEvent::Empty(tag(name, atts))
}

fn text(s: &str) -> XmlEvent {
    XmlEvent::Text(s.to_string())
}

fn leaf(name: &str, atts: &[(&str, &str)], content: &str) -> Vec<XmlEvent> {
    vec![start(name, atts), text(content), end(name)]
}

fn wrap(name: &str, atts: &[(&str, &str)], inner: Vec<XmlEvent>) -> Vec<XmlEvent> {
    let mut v = vec![start(name, atts)];
    v.extend(inner);
    v.push(end(name));
    v
}

fn join(parts: Vec<Vec<XmlEvent>>) -> Vec<XmlEvent> {
    parts.into_iter().flatten().collect()
}

fn scl(inner: Vec<XmlEvent>) -> Vec<XmlEvent> {
    wrap("SCL", &[("version", "2007"), ("revision", "A")], inner)
}

fn device(ied: &str, aps: &[&str], ln_inner: Vec<XmlEvent>) -> Vec<XmlEvent> {
    let mut inner = Vec::new();
    let mut rest = Some(ln_inner);
    for ap in aps {
        let nodes = rest.take().unwrap_or_default();
        inner.extend(wrap(
            "AccessPoint",
            &[("name", ap)],
            wrap(
                "Server",
                &[],
                wrap(
                    "LDevice",
                    &[("inst", "LD0"), ("desc", " main ")],
                    join(vec![
                        wrap(
                            "LN0",
                            &[("lnClass", "LLN0"), ("inst", ""), ("lnType", "T0")],
                            nodes,
                        ),
                        wrap(
                            "LN",
                            &[("lnClass", "MMXU"), ("inst", "1"), ("prefix", "P"), ("lnType", "T1")],
                            vec![],
                        ),
                    ]),
                ),
            ),
        ));
    }
    wrap("IED", &[("name", ied)], inner)
}

fn parse(events: Vec<XmlEvent>, ied: &str, ap: &str) -> Result<SclInfo, SclError> {
    scl_parse_events(events, ied, ap, None)
}

#[test]
fn one_matching_access_point_gives_one_server() {
    let doc = scl(device("IED1", &["AP1", "AP2", "AP3"], vec![]));
    let info = parse(doc, "IED1", "AP2").unwrap();
    assert_eq!(info.server_vec.len(), 1);
    assert_eq!(info.server_vec[0].iedname, "IED1");
    assert_eq!(info.server_vec[0].apname, "AP2");
    assert_eq!(info.server_vec[0].ld_vec.len(), 1);
}

#[test]
fn no_matching_access_point_gives_no_server_and_no_error() {
    let doc = scl(device("IED1", &["AP1", "AP2"], vec![]));
    let info = parse(doc, "IED1", "AP9").unwrap();
    assert_eq!(info.server_vec.len(), 0);
    let doc = scl(device("IED1", &["AP1", "AP2"], vec![]));
    let info = parse(doc, "IED7", "AP1").unwrap();
    assert_eq!(info.server_vec.len(), 0);
}

#[test]
fn each_matching_access_point_gives_a_server() {
    let doc = scl(device("IED1", &["AP1", "AP1"], vec![]));
    let info = parse(doc, "IED1", "AP1").unwrap();
    assert_eq!(info.server_vec.len(), 2);
}

#[test]
fn the_name_of_an_access_point_is_trimmed_before_it_is_compared() {
    let doc = scl(device("IED1", &[" AP1 "], vec![]));
    let info = parse(doc, "IED1", "AP1").unwrap();
    assert_eq!(info.server_vec.len(), 1);
    assert_eq!(info.server_vec[0].apname, " AP1 ");
}

#[test]
fn one_device_out_of_several() {
    let doc = || {
        scl(join(vec![
            device("IED1", &["AP1", "AP2"], vec![]),
            device("IED2", &["AP1"], vec![]),
            device("IED3", &["AP2", "AP3"], vec![]),
        ]))
    };
    let info = parse(doc(), "IED2", "AP1").unwrap();
    assert_eq!(info.server_vec.len(), 1);
    assert_eq!(info.server_vec[0].iedname, "IED2");
    let info = parse(doc(), "IED3", "AP2").unwrap();
    assert_eq!(info.server_vec.len(), 1);
    assert_eq!(info.server_vec[0].iedname, "IED3");
    assert_eq!(info.server_vec[0].apname, "AP2");
    let info = parse(doc(), "IED1", "AP1").unwrap();
    assert_eq!(info.server_vec.len(), 1);
    assert_eq!(info.server_vec[0].iedname, "IED1");
    let info = parse(doc(), "IED2", "AP2").unwrap();
    assert_eq!(info.server_vec.len(), 0);
    let info = parse(doc(), "IED4", "AP1").unwrap();
    assert_eq!(info.server_vec.len(), 0);
}

#[test]
fn two_communication_sections_are_a_duplicate() {
    let doc = scl(join(vec![
        wrap("Communication", &[], vec![]),
        wrap("Communication", &[], vec![]),
    ]));
    assert_eq!(parse(doc, "IED1", "AP1").unwrap_err(), SclError::Parse(4));
}

#[test]
fn an_illegal_device_name_is_refused_before_the_walk() {
    assert_eq!(parse(vec![], "IED 1", "AP1").unwrap_err(), SclError::IllegalIedName);
    assert_eq!(parse(scl(vec![]), "a-b", "AP1").unwrap_err(), SclError::IllegalIedName);
}

#[test]
fn a_device_with_an_illegal_name_stops_the_walk() {
    let doc = scl(device("IED 1", &["AP1"], vec![]));
    assert_eq!(parse(doc, "IED1", "AP1").unwrap_err(), SclError::Parse(1));
    let doc = scl(wrap("IED", &[], vec![]));
    assert_eq!(parse(doc, "IED1", "AP1").unwrap_err(), SclError::Parse(1));
}

#[test]
fn no_events_give_an_empty_tree() {
    let info = parse(vec![], "IED1", "AP1").unwrap();
    assert_eq!(info.edition, 0);
    assert_eq!(info.server_vec.len(), 0);
    assert_eq!(info.subnet_vec.len(), 0);
}

#[test]
fn two_headers_are_a_duplicate() {
    let doc = scl(vec![empty("Header", &[("id", "a")]), empty("Header", &[("id", "b")])]);
    assert_eq!(parse(doc, "IED1", "AP1").unwrap_err(), SclError::Parse(4));
}

#[test]
fn one_header_is_kept() {
    let doc = scl(vec![empty("Header", &[("id", "doc 1"), ("nameStructure", "FuncName")])]);
    let info = parse(doc, "IED1", "AP1").unwrap();
    assert_eq!(info.header.id, "doc 1");
    assert_eq!(info.header.namestructure, 0);
}

#[test]
fn a_header_without_an_id_stops_the_walk() {
    let doc = scl(vec![empty("Header", &[])]);
    assert_eq!(parse(doc, "IED1", "AP1").unwrap_err(), SclError::Parse(13));
}

#[test]
fn a_header_with_too_long_an_id_is_passed_over() {
    let long = "x".repeat(65);
    let doc = scl(vec![empty("Header", &[("id", &long)])]);
    let info = parse(doc, "IED1", "AP1").unwrap();
    assert_eq!(info.header.id, "");
    let fits = "x".repeat(64);
    let doc = scl(vec![empty("Header", &[("id", &fits)])]);
    assert_eq!(parse(doc, "IED1", "AP1").unwrap().header.id, fits);
}

#[test]
fn two_logical_nodes_are_no_duplicate() {
    let doc = scl(device("IED1", &["AP1"], vec![]));
    let mut doc2 = Vec::new();
    for ev in doc {
        doc2.push(ev);
    }
    let info = parse(doc2, "IED1", "AP1").unwrap();
    assert_eq!(info.server_vec[0].ld_vec[0].ln_vec.len(), 2);
    let twice = scl(wrap(
        "IED",
        &[("name", "IED1")],
        wrap(
            "AccessPoint",
            &[("name", "AP1")],
            wrap(
                "Server",
                &[],
                wrap(
                    "LDevice",
                    &[("inst", "LD0")],
                    join(vec![
                        wrap("LN", &[("lnClass", "MMXU"), ("inst", "1"), ("lnType", "T")], vec![]),
                        wrap("LN", &[("lnClass", "MMXU"), ("inst", "2"), ("lnType", "T")], vec![]),
                    ]),
                ),
            ),
        ),
    ));
    let info = parse(twice, "IED1", "AP1").unwrap();
    assert_eq!(info.server_vec[0].ld_vec[0].ln_vec.len(), 2);
}

#[test]
fn two_ln0_are_a_duplicate() {
    let ln0 = || wrap("LN0", &[("lnClass", "LLN0"), ("inst", ""), ("lnType", "T")], vec![]);
    let doc = scl(wrap(
        "IED",
        &[("name", "IED1")],
        wrap(
            "AccessPoint",
            &[("name", "AP1")],
            wrap("Server", &[], wrap("LDevice", &[("inst", "LD0")], join(vec![ln0(), ln0()]))),
        ),
    ));
    assert_eq!(parse(doc, "IED1", "AP1").unwrap_err(), SclError::Parse(4));
}

#[test]
fn version_and_revision_make_edition_two() {
    let doc = wrap("SCL", &[("version", "2007"), ("revision", "A")], vec![]);
    assert_eq!(parse(doc, "IED1", "AP1").unwrap().edition, 2);
    let doc = wrap("SCL", &[("version", "2003"), ("revision", "Z")], vec![]);
    assert_eq!(parse(doc, "IED1", "AP1").unwrap().edition, 2);
}

#[test]
fn without_version_or_revision_the_edition_is_one() {
    let doc = wrap("SCL", &[], vec![]);
    assert_eq!(parse(doc, "IED1", "AP1").unwrap().edition, 1);
    let doc = wrap("SCL", &[("version", "2007")], vec![]);
    assert_eq!(parse(doc, "IED1", "AP1").unwrap().edition, 1);
    let doc = wrap("SCL", &[("revision", "A")], vec![]);
    assert_eq!(parse(doc, "IED1", "AP1").unwrap().edition, 1);
}

#[test]
fn a_forced_edition_overrides_the_document() {
    let force = |e: u32| Some(SclOptions { forceedition: e, includeowner: false });
    let doc = || wrap("SCL", &[("version", "2007"), ("revision", "A")], vec![]);
    assert_eq!(scl_parse_events(doc(), "IED1", "AP1", force(1)).unwrap().edition, 1);
    assert_eq!(scl_parse_events(doc(), "IED1", "AP1", force(2)).unwrap().edition, 2);
    assert_eq!(scl_parse_events(doc(), "IED1", "AP1", force(3)).unwrap().edition, 1);
    assert_eq!(scl_parse_events(doc(), "IED1", "AP1", force(0)).unwrap().edition, 2);
    let bare = wrap("SCL", &[], vec![]);
    assert_eq!(scl_parse_events(bare, "IED1", "AP1", force(2)).unwrap().edition, 2);
    let info = scl_parse_events(doc(), "IED1", "AP1", force(1)).unwrap();
    assert_eq!(info.options.forceedition, 1);
}

#[test]
fn unknown_elements_are_walked_but_not_read() {
    let doc = scl(join(vec![
        wrap("Private", &[], join(vec![leaf("Thing", &[("a", "b")], "text"), vec![empty("X", &[])]])),
        vec![empty("Header", &[("id", "h")])],
        wrap("Substation", &[("name", "S")], vec![empty("Header", &[]), empty("Header", &[])]),
    ]));
    let info = parse(doc, "IED1", "AP1").unwrap();
    assert_eq!(info.header.id, "h");
}

#[test]
fn below_an_unknown_element_nothing_is_looked_up() {
    let mut ctx = begin_walk("IED1", "AP1", None);
    ctx.handle_event(start("SCL", &[]));
    ctx.handle_event(start("Private", &[]));
    ctx.handle_event(start("Header", &[]));
    assert_eq!(ctx.eltbl, vec![Some(0), None, None]);
    assert_eq!(ctx.errcode, 0);
    assert_eq!(ctx.items[1].num_occ_tbl[0], 0);
    ctx.handle_event(end("Header"));
    ctx.handle_event(end("Private"));
    ctx.handle_event(start("Header", &[("id", "x")]));
    assert_eq!(ctx.eltbl, vec![Some(0), Some(1)]);
    assert_eq!(ctx.items[1].num_occ_tbl[0], 1);
}

#[test]
fn a_closing_tag_must_bear_the_name_of_the_open_element() {
    let doc = vec![start("SCL", &[]), start("Communication", &[]), end("Comunication")];
    assert_eq!(parse(doc, "IED1", "AP1").unwrap_err(), SclError::Parse(8));
    let doc = vec![start("SCL", &[]), start("Unknown", &[]), end("Other"), end("SCL")];
    assert!(parse(doc, "IED1", "AP1").is_ok());
}

#[test]
fn a_closing_tag_with_nothing_open_is_malformed() {
    assert_eq!(parse(vec![end("SCL")], "IED1", "AP1").unwrap_err(), SclError::Parse(8));
    let doc = vec![start("SCL", &[]), end("SCL"), end("SCL")];
    assert_eq!(parse(doc, "IED1", "AP1").unwrap_err(), SclError::Parse(8));
}

#[test]
fn nesting_is_bounded() {
    let mut doc = vec![start("SCL", &[])];
    for _ in 0..29 {
        doc.push(start("x", &[]));
    }
    assert!(parse(doc, "IED1", "AP1").is_ok());
    let mut doc = vec![start("SCL", &[])];
    for _ in 0..30 {
        doc.push(start("x", &[]));
    }
    assert_eq!(parse(doc, "IED1", "AP1").unwrap_err(), SclError::Parse(6));
}

#[test]
fn after_an_error_no_event_is_looked_at() {
    let doc = vec![
        start("SCL", &[]),
        empty("Header", &[]),
        empty("Header", &[("id", "late")]),
        end("Nonsense"),
    ];
    assert_eq!(parse(doc, "IED1", "AP1").unwrap_err(), SclError::Parse(13));
}

#[test]
fn the_context_can_be_driven_event_by_event() {
    let mut ctx: IcdParseContext2 = begin_walk("IED1", "AP1", None);
    assert_eq!(ctx.items.len(), 1);
    assert_eq!(ctx.items[0].itemtbl, vec![0]);
    ctx.handle_event(start("SCL", &[]));
    assert_eq!(ctx.items.len(), 2);
    assert_eq!(ctx.items[1].itemtbl, vec![1, 2, 3, 4]);
    assert_eq!(ctx.eltbl, vec![Some(0)]);
    assert_eq!(ctx.items[0].num_occ_tbl[0], 1);
    ctx.handle_event(start("Communication", &[]));
    assert_eq!(ctx.eltbl, vec![Some(0), Some(2)]);
    assert_eq!(ctx.items[1].num_occ_tbl[1], 1);
    ctx.handle_event(start("Nothing", &[]));
    assert_eq!(ctx.eltbl, vec![Some(0), Some(2), None]);
    ctx.handle_event(text("abc"));
    assert_eq!(ctx.op_entry_text.as_deref(), Some("abc"));
    ctx.handle_event(end("Nothing"));
    ctx.handle_event(end("Communication"));
    assert_eq!(ctx.items.len(), 2);
    ctx.handle_event(end("SCL"));
    assert_eq!(ctx.items.len(), 0);
    assert_eq!(ctx.eltbl.len(), 0);
    assert_eq!(ctx.errcode, 0);
    assert!(!ctx.is_latched());
}

#[test]
fn the_table_lists_seventy_nine_elements() {
    let ctx = IcdParseContext2::init_data();
    assert_eq!(ctx.opr_tb.len(), 79);
    assert_eq!(ctx.opr_tb[0].tag, "SCL");
    assert_eq!(ctx.opr_tb[1].tag, "Header");
    assert_eq!(ctx.opr_tb[1].elementflags, 0x5);
    assert_eq!(ctx.opr_tb[3].tag, "IED");
    assert_eq!(ctx.opr_tb[3].elementflags, 0xf);
    assert_eq!(ctx.opr_tb[7].tag, "AccessPoint");
    assert_eq!(ctx.opr_tb[7].elementflags, 0xb);
    assert_eq!(ctx.opr_tb[26].tag, "LN");
    assert_eq!(ctx.opr_tb[26].elementflags, 0xf);
    assert_eq!(ctx.opr_tb[41].tag, "FCDA");
    assert_eq!(ctx.opr_tb[52].tag, "Val");
    assert_eq!(ctx.opr_tb[59].tag, "EnumVal");
    assert_eq!(ctx.opr_tb[60].tag, "GetDirectory");
    assert_eq!(ctx.opr_tb[78].tag, "ReportSettings");
    assert_eq!(ctx.items.len(), 0);
}

#[test]
fn pushing_and_popping_tables() {
    let mut ctx = IcdParseContext2::init_data();
    ctx.sx_pop();
    assert_eq!(ctx.items.len(), 0);
    ctx.sx_push(vec![1, 2]);
    assert_eq!(ctx.items.len(), 1);
    assert_eq!(ctx.items[0].num_occ_tbl, [0u32; 50]);
    ctx.sx_push((0..51).collect());
    assert_eq!(ctx.items.len(), 1);
    assert_eq!(ctx.errcode, 11);
    ctx.errcode = 0;
    ctx.sx_push((0..50).collect());
    assert_eq!(ctx.items.len(), 2);
    assert_eq!(ctx.errcode, 0);
    ctx.sx_pop();
    ctx.sx_pop();
    assert_eq!(ctx.items.len(), 0);
    for _ in 0..1000 {
        ctx.sx_push(vec![]);
    }
    assert_eq!(ctx.errcode, 0);
    ctx.sx_push(vec![]);
    assert_eq!(ctx.items.len(), 1000);
    assert_eq!(ctx.errcode, 6);
}

#[test]
fn the_last_of_two_equal_attributes_counts() {
    let t = TagInfo::new("x").with_attr("a", "1").with_attr("b", "2").with_attr("a", "3");
    assert_eq!(t.attr("a").as_deref(), Some("3"));
    assert_eq!(t.attr("b").as_deref(), Some("2"));
    assert_eq!(t.attr("c"), None);
    assert_eq!(t.attr(""), None);
}

#[test]
fn a_tag_takes_each_attribute_name_once() {
    let mut t = TagInfo::new("x");
    assert!(t.take_attr(Some("a".to_string()), Some("1".to_string())));
    assert!(t.take_attr(Some("b".to_string()), Some("".to_string())));
    assert_eq!(t.atts.len(), 2);
    assert_eq!(t.atts[0].key, "a");
    assert_eq!(t.atts[0].value, "1");
    assert_eq!(t.atts[1].key, "b");
    assert_eq!(t.atts[1].value, "");
    assert!(!t.take_attr(Some("a".to_string()), Some("2".to_string())));
    assert!(!t.take_attr(Some("b".to_string()), Some("".to_string())));
    assert_eq!(t.atts.len(), 2);
    assert_eq!(t.attr("a").as_deref(), Some("1"));
    assert_eq!(t.tag, "x");
}

#[test]
fn a_tag_takes_no_attribute_that_was_not_read() {
    let mut t = TagInfo::new("x").with_attr("a", "1");
    assert!(!t.take_attr(None, Some("1".to_string())));
    assert!(!t.take_attr(Some("b".to_string()), None));
    assert!(!t.take_attr(None, None));
    assert_eq!(t.atts.len(), 1);
    assert_eq!(t.attr("b"), None);
    assert!(t.take_attr(Some("b".to_string()), Some("2".to_string())));
    assert_eq!(t.attr("b").as_deref(), Some("2"));
}

#[test]
fn asking_for_attributes() {
    let mut ctx = IcdParseContext2::init_data();
    assert_eq!(ctx.scl_get_attr_ptr("a", false), None);
    assert_eq!(ctx.errcode, 0);
    ctx.op_start_tag = Some(TagInfo::new("x").with_attr("a", " 1 "));
    assert_eq!(ctx.scl_get_attr_ptr("a", true).as_deref(), Some(" 1 "));
    assert_eq!(ctx.scl_get_attr_ptr("b", false), None);
    assert_eq!(ctx.errcode, 0);
    assert!(!ctx.termflag);
    assert_eq!(ctx.scl_get_attr_ptr("b", true), None);
    assert_eq!(ctx.errcode, 13);
    assert!(ctx.termflag);
}

#[test]
fn looking_up_elements_counts_them() {
    let mut ctx = begin_walk("IED1", "AP1", None);
    assert_eq!(ctx.uibed_find_element("Header"), None);
    assert_eq!(ctx.uibed_find_element(""), None);
    assert_eq!(ctx.uibed_find_element("SCL"), Some(0));
    assert_eq!(ctx.items[0].num_occ_tbl[0], 1);
    assert_eq!(ctx.errcode, 0);
    assert_eq!(ctx.uibed_find_element("SCL"), Some(0));
    assert_eq!(ctx.items[0].num_occ_tbl[0], 2);
    assert_eq!(ctx.errcode, 4);
    let mut ctx = begin_walk("IED1", "AP1", None);
    ctx.sx_push(vec![25, 26, 500]);
    assert_eq!(ctx.uibed_find_element("LN"), Some(26));
    assert_eq!(ctx.uibed_find_element("LN"), Some(26));
    assert_eq!(ctx.items[1].num_occ_tbl[1], 2);
    assert_eq!(ctx.errcode, 0);
    ctx.sx_push(vec![13, 17]);
    assert_eq!(ctx.uibed_find_element("Address"), Some(17));
    assert_eq!(ctx.items[2].num_occ_tbl[0], 0);
    assert_eq!(ctx.items[2].num_occ_tbl[1], 1);
}
