use scl61850::engine::XmlEvent;
use scl61850::error::SclError;
use scl61850::model::SclOptions;
use scl61850::xml::{
    bytes_text, event_of, scl_parse, scl_parse_cid, scl_parse_pieces, tag_info_of, XmlPiece,
};

const DOC: &str = r#"<?xml version="1.0" encoding="UTF-8"?>
<!-- a small device -->
<SCL xmlns="http://www.iec.ch/61850/2003/SCL" version="2007" revision="A">
  <Header id="demo &amp; test" nameStructure="IEDName"/>
  <Communication>
    <SubNetwork name="SN1" type="8-MMS">
      <Text>station bus</Text>
      <BitRate unit="b/s" multiplier="M">100</BitRate>
      <ConnectedAP iedName="IED1" apName="AP1">
        <Address>
          <P type="IP">192.168.0.15</P>
          <P type="IP-SUBNET">255.255.255.0</P>
          <P type="OSI-AP-Title">1 3 9999 33</P>
          <P type="OSI-AE-Qualifier">33</P>
          <P type="OSI-PSEL">00 00 00 01</P>
          <P type="OSI-SSEL">0001</P>
          <P type="OSI-TSEL">0001</P>
        </Address>
        <GSE ldInst="LD0" cbName="gcb1">
          <Address>
            <P type="MAC-Address">01-0C-CD-01-00-01</P>
            <P type="APPID">0001</P>
            <P type="VLAN-PRIORITY">4</P>
            <P type="VLAN-ID">000</P>
          </Address>
          <MinTime unit="s" multiplier="m">4</MinTime>
          <MaxTime unit="s" multiplier="m">1000</MaxTime>
        </GSE>
        <SMV ldInst="LD0" cbName="svcb1">
          <Address>
            <P type="MAC-Address">01-0C-CD-04-00-01</P>
            <P type="APPID">4000</P>
          </Address>
        </SMV>
        <PhysConn type="Connection"><P type="Plug">RJ45</P></PhysConn>
      </ConnectedAP>
    </SubNetwork>
  </Communication>
  <IED name="IED1" manufacturer="ACME">
    <Services nameLength="64">
      <DynAssociation/>
      <GetDirectory/>
      <GetDataObjectDefinition/>
      <GetDataSetValue/>
      <ReadWrite/>
      <ConfLogControl max="1"/>
      <GOOSE max="8"/>
      <ReportSettings cbName="Conf" datSet="Dyn" rptID="Dyn" optFields="Dyn" bufTime="Dyn" trgOps="Dyn" intgPd="Dyn"/>
    </Services>
    <AccessPoint name="AP0">
      <Server><LDevice inst="Other"><LN0 lnClass="LLN0" inst="" lnType="X"/></LDevice></Server>
    </AccessPoint>
    <AccessPoint name="AP1">
      <Server>
        <Authentication none="true"/>
        <LDevice inst="LD0" desc="protection">
          <LN0 lnClass="LLN0" inst="" lnType="LLN0_T">
            <DataSet name="ds1" desc="measurements">
              <FCDA ldInst="LD0" prefix="" lnClass="MMXU" lnInst="1" doName="TotW" daName="mag" fc="MX"/>
              <FCDA ldInst="LD0" lnClass="MMXU" lnInst="1" doName="TotW" daName="q" fc="MX"/>
            </DataSet>
            <ReportControl name="brcb" rptID="rpt 1" datSet="ds1" confRev="1" buffered="true" bufTime="50" intgPd="1000">
              <TrgOps dchg="true" qchg="false"/>
              <OptFields seqNum="true" timeStamp="true" dataSet="true" reasonCode="true" configRef="true"/>
              <RptEnabled max="5"/>
            </ReportControl>
            <LogControl name="lcb" datSet="ds1" logName="log1" logEna="true">
              <TrgOps qchg="true" gi="false"/>
            </LogControl>
            <GSEControl name="gcb1" datSet="ds1" confRev="2" appID="IED1/LD0$GO$gcb1"/>
            <SampledValueControl name="svcb1" smvID="sv1" smpRate="80" nofASDU="1" datSet="ds1" confRev="1">
              <SmvOpts sampleRate="true" refreshTime="true"/>
            </SampledValueControl>
            <SettingControl numOfSGs="2" actSG="1"/>
            <DOI name="Mod">
              <DAI name="stVal" valKind="RO"><Val>on</Val></DAI>
              <SDI name="origin" ix="2"><DAI name="orCat"><Val sGroup="1"> remote </Val></DAI></SDI>
              <DAI name="ctlModel"><Val>status-only</Val></DAI>
            </DOI>
            <Inputs>
              <ExtRef iedName="IED2" ldInst="LD0" lnClass="XCBR" lnInst="1" doName="Pos" daName="stVal" intAddr="in1"/>
            </Inputs>
          </LN0>
          <LN prefix="Q0" lnClass="MMXU" inst="1" lnType="MMXU_T" desc=" power ">
            <DOI name="TotW"><DAI name="units" sAddr="a.b"/></DOI>
          </LN>
          <LN lnClass="XCBR" inst="1" lnType="XCBR_T"/>
        </LDevice>
      </Server>
    </AccessPoint>
  </IED>
  <DataTypeTemplates>
    <LNodeType id="MMXU_T" lnClass="MMXU">
      <DO name="TotW" type="MV_T"/>
      <DO name="Beh" type="ENS_T"/>
    </LNodeType>
    <DOType id="MV_T" cdc="MV">
      <DA name="mag" bType="Struct" type="AV_T" fc="MX" dchg="true"/>
      <DA name="q" bType="Quality" fc="MX" qchg="true"/>
      <SDO name="sub" type="MV_T"/>
      <DA name="db" bType="INT32U" fc="CF"><Val>100</Val></DA>
    </DOType>
    <DAType id="AV_T">
      <BDA name="f" bType="FLOAT32"><Val>0.5</Val></BDA>
    </DAType>
    <EnumType id="Beh">
      <EnumVal ord="1">on</EnumVal>
      <EnumVal ord="2">blocked</EnumVal>
      <EnumVal ord="5">off</EnumVal>
    </EnumType>
  </DataTypeTemplates>
</SCL>
"#;

#[test]
fn a_whole_document_is_read() {
    let info = scl_parse(DOC, "IED1", "AP1").unwrap();
    assert_eq!(info.edition, 2);
    assert_eq!(info.header.id, "demo & test");
    assert_eq!(info.subnet_vec.len(), 1);
    let cap = &info.subnet_vec[0].cap_vec[0];
    assert_eq!(cap.address.ip, [192, 168, 0, 15]);
    assert_eq!(cap.address.psel_len, 4);
    assert_eq!(cap.address.ssel_len, 2);
    assert_eq!(cap.address.tsel_len, 2);
    assert_eq!(cap.address.ae_title.ap_title.num_comps, 4);
    assert_eq!(cap.address.ae_title.ae_qual, 33);
    assert_eq!(cap.gse_vec.len(), 1);
    assert_eq!(cap.gse_vec[0].mac, [1, 0x0c, 0xcd, 1, 0, 1]);
    assert_eq!(cap.gse_vec[0].appid, 1);
    assert_eq!(cap.gse_vec[0].vlanpri, 4);
    assert_eq!(cap.gse_vec[0].vlanid, 0);
    assert_eq!(cap.gse_vec[0].mintime, 4);
    assert_eq!(cap.gse_vec[0].maxtime, 1000);
    assert_eq!(cap.smv_vec.len(), 1);
    assert_eq!(cap.smv_vec[0].appid, 0x4000);
    assert_eq!(info.server_vec.len(), 1);
    let server = &info.server_vec[0];
    assert_eq!(server.iedname, "IED1");
    assert_eq!(server.apname, "AP1");
    assert!(server.scl_services.getdirectory);
    assert!(server.scl_services.readwrite);
    assert!(!server.scl_services.filehandling);
    assert_eq!(server.scl_services.goose.max, 8);
    assert_eq!(server.scl_services.reportsettings.cbname, "Conf");
    assert_eq!(server.ld_vec.len(), 1);
    let ld = &server.ld_vec[0];
    assert_eq!(ld.domname, "IED1LD0");
    assert_eq!(ld.desc, "protection");
    assert_eq!(ld.ln_vec.len(), 3);
    let ln0 = &ld.ln_vec[0];
    assert_eq!(ln0.varname, "LLN0");
    assert_eq!(ln0.dataset_vec[0].fcda_vec.len(), 2);
    assert_eq!(ln0.dataset_vec[0].fcda_vec[1].daname, "q");
    assert_eq!(ln0.rcb_vec[0].rptid, "rpt 1");
    assert_eq!(ln0.rcb_vec[0].trgops, [0x44]);
    assert_eq!(ln0.rcb_vec[0].optflds, [0x78, 0x80]);
    assert_eq!(ln0.rcb_vec[0].maxclient, 5);
    assert_eq!(ln0.lcb_vec[0].trgops, [0x20]);
    assert!(ln0.lcb_vec[0].logena);
    assert_eq!(ln0.gcb_vec[0].appid, "IED1/LD0$GO$gcb1");
    assert_eq!(ln0.svcb_vec[0].optflds, [0xe0]);
    assert_eq!(ln0.sgcb.numofsgs, 2);
    assert_eq!(ln0.dai_vec.len(), 3);
    assert_eq!(ln0.dai_vec[0].flattened, "Mod$stVal");
    assert_eq!(ln0.dai_vec[0].val, "on");
    assert_eq!(ln0.dai_vec[0].valkind, "RO");
    assert_eq!(ln0.dai_vec[1].flattened, "Mod$origin[2]$orCat");
    assert_eq!(ln0.dai_vec[1].sgval_vec[0].val, "remote");
    assert_eq!(ln0.dai_vec[2].flattened, "Mod$ctlModel");
    assert_eq!(ln0.dai_vec[2].val, "status-only");
    assert_eq!(ln0.extref_vec[0].intaddr, "in1");
    assert_eq!(ld.ln_vec[1].varname, "Q0MMXU1");
    assert_eq!(ld.ln_vec[1].desc, "power");
    assert_eq!(ld.ln_vec[1].dai_vec[0].flattened, "TotW$units");
    assert_eq!(ld.ln_vec[1].dai_vec[0].saddr, "a.b");
    assert_eq!(ld.ln_vec[2].varname, "XCBR1");
    assert_eq!(info.lntype_vec[0].do_vec.len(), 2);
    assert_eq!(info.dotype_vec[0].da_vec.len(), 4);
    assert_eq!(info.dotype_vec[0].da_vec[2].objtype, 1);
    assert_eq!(info.dotype_vec[0].da_vec[3].val, "100");
    assert_eq!(info.datype_vec[0].bda_vec[0].val, "0.5");
    assert_eq!(info.enumtype_vec[0].enumval_vec.len(), 3);
    assert_eq!(info.enumtype_vec[0].enumval_vec[2].ord, 5);
    assert_eq!(info.enumtype_vec[0].enumval_vec[2].enumval, "off");
}

#[test]
fn the_other_access_point_of_the_document() {
    let info = scl_parse(DOC, "IED1", "AP0").unwrap();
    assert_eq!(info.server_vec.len(), 1);
    assert_eq!(info.server_vec[0].apname, "AP0");
    assert_eq!(info.server_vec[0].ld_vec[0].inst, "Other");
    assert_eq!(info.server_vec[0].ld_vec[0].ln_vec.len(), 1);
    assert_eq!(info.subnet_vec.len(), 1);
    assert_eq!(info.lntype_vec.len(), 1);
}

#[test]
fn a_device_or_access_point_that_is_not_there() {
    let info = scl_parse(DOC, "IED1", "AP7").unwrap();
    assert_eq!(info.server_vec.len(), 0);
    assert_eq!(info.enumtype_vec.len(), 1);
    let info = scl_parse(DOC, "IED9", "AP1").unwrap();
    assert_eq!(info.server_vec.len(), 0);
    assert_eq!(info.subnet_vec[0].cap_vec.len(), 1);
}

#[test]
fn options_reach_the_walk() {
    let opts = Some(SclOptions { forceedition: 1, includeowner: false });
    let info = scl_parse_cid(DOC, "IED1", "AP1", opts).unwrap();
    assert_eq!(info.edition, 1);
    assert_eq!(info.server_vec[0].ld_vec[0].ln_vec[0].svcb_vec[0].optflds, [0xa0]);
    let info = scl_parse_cid(DOC, "IED1", "AP1", None).unwrap();
    assert_eq!(info.edition, 2);
}

#[test]
fn an_illegal_device_name_is_refused() {
    assert_eq!(scl_parse(DOC, "IED 1", "AP1").unwrap_err(), SclError::IllegalIedName);
    assert_eq!(scl_parse("<<<", "IED-1", "AP1").unwrap_err(), SclError::IllegalIedName);
}

#[test]
fn an_empty_text_gives_an_empty_tree() {
    let info = scl_parse("", "IED1", "AP1").unwrap();
    assert_eq!(info.edition, 0);
    assert_eq!(info.server_vec.len(), 0);
    let info = scl_parse("  \n ", "IED1", "AP1").unwrap();
    assert_eq!(info.edition, 0);
}

#[test]
fn attributes_are_unescaped_and_kept_in_order() {
    let doc = r#"<SCL><Header id="a&lt;b&#x41;&quot;"/></SCL>"#;
    let info = scl_parse(doc, "IED1", "AP1").unwrap();
    assert_eq!(info.header.id, "a<bA\"");
    let doc = "<SCL><Header id='single'/></SCL>";
    assert_eq!(scl_parse(doc, "IED1", "AP1").unwrap().header.id, "single");
}

#[test]
fn texts_are_unescaped_and_trimmed() {
    let doc = r#"<SCL><DataTypeTemplates><EnumType id="E"><EnumVal ord="1">  a &amp; b
    </EnumVal></EnumType></DataTypeTemplates></SCL>"#;
    let info = scl_parse(doc, "IED1", "AP1").unwrap();
    assert_eq!(info.enumtype_vec[0].enumval_vec[0].enumval, "a & b");
}

#[test]
fn bad_markup_is_refused() {
    assert_eq!(scl_parse("<SCL><Header id=\"a\" id=\"b\"/></SCL>", "IED1", "AP1").unwrap_err(), SclError::BadMarkup);
    assert_eq!(scl_parse("<SCL><Header id=a/></SCL>", "IED1", "AP1").unwrap_err(), SclError::BadMarkup);
    assert_eq!(scl_parse("<SCL><Header id=\"&nothing;\"/></SCL>", "IED1", "AP1").unwrap_err(), SclError::BadMarkup);
    assert_eq!(
        scl_parse("<SCL><DataTypeTemplates><EnumType id=\"E\"><EnumVal ord=\"1\">&bad;</EnumVal></EnumType></DataTypeTemplates></SCL>", "IED1", "AP1").unwrap_err(),
        SclError::BadMarkup
    );
    assert_eq!(scl_parse("<SCL><Header id=\"a\"", "IED1", "AP1").unwrap_err(), SclError::BadMarkup);
}

#[test]
fn tags_that_do_not_match_are_refused() {
    let r = scl_parse("<SCL><Communication></Comm></SCL>", "IED1", "AP1");
    assert!(r.is_err());
    let r = scl_parse("</SCL>", "IED1", "AP1");
    assert!(r.is_err());
}

#[test]
fn a_document_that_ends_early_keeps_what_was_read() {
    let info = scl_parse("<SCL version=\"2007\" revision=\"A\"><Header id=\"h\"/>", "IED1", "AP1").unwrap();
    assert_eq!(info.edition, 2);
    assert_eq!(info.header.id, "h");
}

#[test]
fn status_codes_come_through() {
    assert_eq!(scl_parse("<SCL><Header/></SCL>", "IED1", "AP1").unwrap_err(), SclError::Parse(13));
    assert_eq!(
        scl_parse("<SCL><Header id=\"a\"/><Header id=\"b\"/></SCL>", "IED1", "AP1").unwrap_err(),
        SclError::Parse(4)
    );
    let deep = "<a>".repeat(31);
    assert_eq!(scl_parse(&deep, "IED1", "AP1").unwrap_err(), SclError::Parse(6));
    assert!(scl_parse(&"<a>".repeat(30), "IED1", "AP1").is_ok());
    assert_eq!(
        scl_parse("<SCL><DataTypeTemplates/><DataTypeTemplates/></SCL>", "IED1", "AP1").unwrap_err(),
        SclError::Parse(4)
    );
    assert!(scl_parse("<SCL><IED name=\"IED1\"/><IED name=\"IED2\"/></SCL>", "IED1", "AP1").is_ok());
}

#[test]
fn a_document_in_upper_case_is_another_document() {
    let info = scl_parse("<scl version=\"2007\" revision=\"A\"><header id=\"h\"/></scl>", "IED1", "AP1").unwrap();
    assert_eq!(info.edition, 0);
    assert_eq!(info.header.id, "");
}

fn pairs(content: &[u8], name_len: usize) -> Option<(String, Vec<(String, String)>)> {
    tag_info_of(content, name_len)
        .map(|t| (t.tag, t.atts.into_iter().map(|a| (a.key, a.value)).collect()))
}

fn pair(k: &str, v: &str) -> (String, String) {
    (k.to_string(), v.to_string())
}

#[test]
fn bytes_are_read_as_utf8() {
    assert_eq!(bytes_text(b"LN0").as_deref(), Some("LN0"));
    assert_eq!(bytes_text(b"").as_deref(), Some(""));
    assert_eq!(bytes_text("Sch\u{fc}tz".as_bytes()).as_deref(), Some("Sch\u{fc}tz"));
    assert_eq!(bytes_text(&[0x4c, 0xff]), None);
    assert_eq!(bytes_text(&[0xc3]), None);
}

#[test]
fn a_tag_is_read_from_its_content() {
    assert_eq!(
        pairs(b"LN lnClass=\"MMXU\" inst='1'", 2),
        Some(("LN".to_string(), vec![pair("lnClass", "MMXU"), pair("inst", "1")]))
    );
    assert_eq!(pairs(b"SCL", 3), Some(("SCL".to_string(), vec![])));
    assert_eq!(pairs(b"SCL  ", 3), Some(("SCL".to_string(), vec![])));
    assert_eq!(
        pairs(b"Header id=\"a &amp; b &#65;\"", 6),
        Some(("Header".to_string(), vec![pair("id", "a & b A")]))
    );
    assert_eq!(pairs(b"P type = \" IP \"", 1), Some(("P".to_string(), vec![pair("type", " IP ")])));
}

#[test]
fn a_tag_that_cannot_be_read_gives_nothing() {
    assert_eq!(pairs(b"LN", 3), None);
    assert_eq!(pairs(b"LN inst=\"1\" inst=\"2\"", 2), None);
    assert_eq!(pairs(b"LN inst=1", 2), None);
    assert_eq!(pairs(b"LN inst", 2), None);
    assert_eq!(pairs(b"LN inst=\"&nothing;\"", 2), None);
    assert_eq!(pairs(&[0x4c, 0xff, 0x20, 0x61, 0x3d, 0x22, 0x22], 2), None);
    assert_eq!(pairs(&[0x4c, 0x4e, 0x20, 0xff, 0x3d, 0x22, 0x22], 2), None);
}

#[test]
fn a_piece_stands_for_an_event() {
    match event_of(&XmlPiece::Start(b"IED name=\"IED1\"".to_vec(), 3)) {
        Some(XmlEvent::Start(t)) => {
            assert_eq!(t.tag, "IED");
            assert_eq!(t.attr("name").as_deref(), Some("IED1"));
        },
        other => panic!("{:?}", other),
    }
    match event_of(&XmlPiece::Empty(b"Header id=\"h\"".to_vec(), 6)) {
        Some(XmlEvent::Empty(t)) => {
            assert_eq!(t.tag, "Header");
            assert_eq!(t.attr("id").as_deref(), Some("h"));
        },
        other => panic!("{:?}", other),
    }
    match event_of(&XmlPiece::End(b"IED".to_vec())) {
        Some(XmlEvent::End(t)) => {
            assert_eq!(t.tag, "IED");
            assert!(t.atts.is_empty());
        },
        other => panic!("{:?}", other),
    }
    match event_of(&XmlPiece::Text(b"1 &lt; 2".to_vec())) {
        Some(XmlEvent::Text(s)) => assert_eq!(s, "1 < 2"),
        other => panic!("{:?}", other),
    }
    assert!(matches!(event_of(&XmlPiece::Other), Some(XmlEvent::Other)));
}

#[test]
fn a_piece_that_cannot_be_read_stands_for_no_event() {
    assert!(event_of(&XmlPiece::Start(b"IED name".to_vec(), 3)).is_none());
    assert!(event_of(&XmlPiece::Empty(b"IED".to_vec(), 4)).is_none());
    assert!(event_of(&XmlPiece::End(vec![0xff])).is_none());
    assert!(event_of(&XmlPiece::Text(b"&nothing;".to_vec())).is_none());
    assert!(event_of(&XmlPiece::Text(vec![0xc3])).is_none());
}

fn small_document() -> Vec<XmlPiece> {
    vec![
        XmlPiece::Other,
        XmlPiece::Start(b"SCL version=\"2007\" revision=\"A\"".to_vec(), 3),
        XmlPiece::Empty(b"Header id=\"h\"".to_vec(), 6),
        XmlPiece::Start(b"IED name=\"IED1\"".to_vec(), 3),
        XmlPiece::Empty(b"AccessPoint name=\"AP1\"".to_vec(), 11),
        XmlPiece::Empty(b"AccessPoint name=\"AP2\"".to_vec(), 11),
        XmlPiece::End(b"IED".to_vec()),
        XmlPiece::End(b"SCL".to_vec()),
    ]
}

#[test]
fn pieces_are_read_as_a_document() {
    let info = scl_parse_pieces(&small_document(), true, "IED1", "AP1", None).unwrap();
    assert_eq!(info.edition, 2);
    assert_eq!(info.header.id, "h");
    assert_eq!(info.server_vec.len(), 1);
    assert_eq!(info.server_vec[0].iedname, "IED1");
    assert_eq!(info.server_vec[0].apname, "AP1");
    let info = scl_parse_pieces(&small_document(), true, "IED1", "AP3", None).unwrap();
    assert_eq!(info.server_vec.len(), 0);
    let info = scl_parse_pieces(&vec![], true, "IED1", "AP1", None).unwrap();
    assert_eq!(info.server_vec.len(), 0);
    assert_eq!(
        scl_parse_pieces(&small_document(), true, "IED 1", "AP1", None).unwrap_err(),
        SclError::IllegalIedName
    );
}

#[test]
fn pieces_that_are_no_whole_document_are_bad_markup() {
    assert_eq!(
        scl_parse_pieces(&small_document(), false, "IED1", "AP1", None).unwrap_err(),
        SclError::BadMarkup
    );
    assert_eq!(scl_parse_pieces(&vec![], false, "IED1", "AP1", None).unwrap_err(), SclError::BadMarkup);
    let mut doc = small_document();
    doc.insert(4, XmlPiece::Text(b"&nothing;".to_vec()));
    assert_eq!(scl_parse_pieces(&doc, true, "IED1", "AP1", None).unwrap_err(), SclError::BadMarkup);
    let mut doc = small_document();
    doc.push(XmlPiece::End(vec![0xff]));
    assert_eq!(scl_parse_pieces(&doc, true, "IED1", "AP1", None).unwrap_err(), SclError::BadMarkup);
}

#[test]
fn an_error_of_the_walk_comes_before_bad_markup_behind_it() {
    let mut doc = small_document();
    doc.insert(3, XmlPiece::Empty(b"Header id=\"again\"".to_vec(), 6));
    doc.push(XmlPiece::Text(b"&nothing;".to_vec()));
    assert_eq!(scl_parse_pieces(&doc, true, "IED1", "AP1", None).unwrap_err(), SclError::Parse(4));
    assert_eq!(scl_parse_pieces(&doc, false, "IED1", "AP1", None).unwrap_err(), SclError::Parse(4));
    assert_eq!(
        scl_parse("<SCL><Header id=\"a\"/><Header id=\"b\"/><IED name=></SCL>", "IED1", "AP1").unwrap_err(),
        SclError::Parse(4)
    );
    assert_eq!(
        scl_parse("<SCL><Header id=\"a\"/><IED name=><Header id=\"b\"/></SCL>", "IED1", "AP1").unwrap_err(),
        SclError::BadMarkup
    );
    let mut doc = small_document();
    doc.insert(2, XmlPiece::Text(b"&nothing;".to_vec()));
    doc.insert(4, XmlPiece::Empty(b"Header id=\"again\"".to_vec(), 6));
    assert_eq!(scl_parse_pieces(&doc, true, "IED1", "AP1", None).unwrap_err(), SclError::BadMarkup);
}

#[test]
fn a_text_is_read_as_its_pieces_are() {
    let text = "<?xml version=\"1.0\"?><SCL version=\"2007\" revision=\"A\"><Header id=\"h\"/>\
        <IED name=\"IED1\"><AccessPoint name=\"AP1\"/><AccessPoint name=\"AP2\"/></IED></SCL>";
    let from_text = scl_parse(text, "IED1", "AP2").unwrap();
    let from_pieces = scl_parse_pieces(&small_document(), true, "IED1", "AP2", None).unwrap();
    assert_eq!(from_text.server_vec.len(), 1);
    assert_eq!(from_pieces.server_vec.len(), 1);
    assert_eq!(from_text.server_vec[0].apname, from_pieces.server_vec[0].apname);
    assert_eq!(from_text.header.id, from_pieces.header.id);
    assert_eq!(from_text.edition, from_pieces.edition);
}
