use xml_to_json::fields::{find_end, find_field, find_run, read_fields, Field, FieldValue};
use xml_to_json::xml_events::{tokenize, XmlToken};
use xml_to_json::{LoadError, MergModuleDataSet};

// Extract from TheDemoPlankII.xml
const BAD_DATA: &str = r#"<?xml version="1.0" standalone="yes"?>
        <MergModuleDataSet>
            <mergModules moduleId="1">
                <moduleName>CANACC4</moduleName>
                <moduleEvents>32</moduleEvents>
                <moduleValues>2</moduleValues>
                <numNvs>16</numNvs>
            </mergModules>
            <userEvents>
                <eventId>1</eventId>
                <ownerNode>2011</ownerNode>
                <nodeName>CANVOUT</nodeName>
                <eventName>TO UP Reverse</eventName>
                <Values />
                <eventNode>2011</eventNode>
                <eventValue>13</eventValue>
                </userEvents>
            <userNodes>
                <moduleId>46</moduleId>
                <moduleName>CANPiWi</moduleName>
                <nodeNum>257</nodeNum>
                <nodeName>ThePlankMkII</nodeName>
                <numEvents>1</numEvents>
                <inUse>true</inUse>
                <Flim>true</Flim>
                <NodeVars>7BB315AE150663616E70697769000000000000000000546865506C616E6B7475726E6F75742E747874200000000100</NodeVars>
                <maxEvents>0</maxEvents>
                <Version>6</Version>
                <CanId>100</CanId>
                <maxNVs>47</maxNVs>
                <ProcId>Raspberry Pi</ProcId>
            </userNodes>
        </MergModuleDataSet>"#;

const GOOD_DATA: &str = r#"<?xml version="1.0" standalone="yes"?>
        <MergModuleDataSet>
            <mergModules moduleId="1">
                <moduleName>CANACC4</moduleName>
                <moduleType>1</moduleType>
                <moduleEvents>32</moduleEvents>
                <moduleValues>2</moduleValues>
                <numNvs>16</numNvs>
            </mergModules>
            <userEvents>
                <eventId>1</eventId>
                <ownerNode>2011</ownerNode>
                <nodeName>CANVOUT</nodeName>
                <eventName>TO UP Reverse</eventName>
                <Values />
                <eventNode>2011</eventNode>
                <eventValue>13</eventValue>
            </userEvents>
            <userNodes>
                <moduleId>46</moduleId>
                <moduleName>CANPiWi</moduleName>
                <nodeNum>257</nodeNum>
                <nodeName>ThePlankMkII</nodeName>
                <numEvents>1</numEvents>
                <inUse>true</inUse>
                <Flim>true</Flim>
                <NodeVars>7BB315AE150663616E70697769000000000000000000546865506C616E6B7475726E6F75742E747874200000000100</NodeVars>
                <maxEvents>0</maxEvents>
                <Version>6</Version>
                <CanId>100</CanId>
                <maxNVs>47</maxNVs>
                <ProcId>Raspberry Pi</ProcId>
            </userNodes>
        </MergModuleDataSet>"#;

const MODULE_GOOD_DATA: &str = r#"<?xml version="1.0" standalone="yes"?>
        <MergModuleDataSet>
            <mergModules moduleId="1">
                <moduleName>CANACC4</moduleName>
                <moduleType>1</moduleType>
                <moduleEvents>32</moduleEvents>
                <moduleValues>2</moduleValues>
                <numNvs>16</numNvs>
            </mergModules>
            <userEvents>
                <eventId>1</eventId>
                <ownerNode>2011</ownerNode>
                <nodeName>CANVOUT</nodeName>
                <eventName>TO UP Reverse</eventName>
                <Values />
                <eventNode>2011</eventNode>
                <eventValue>13</eventValue>
                </userEvents>
            <userNodes>
                <moduleId>46</moduleId>
                <moduleName>CANPiWi</moduleName>
                <nodeNum>257</nodeNum>
                <nodeName>ThePlankMkII</nodeName>
                <numEvents>1</numEvents>
                <inUse>true</inUse>
                <Flim>true</Flim>
                <NodeVars>7BB315AE150663616E70697769000000000000000000546865506C616E6B7475726E6F75742E747874200000000100</NodeVars>
                <maxEvents>0</maxEvents>
                <Version>6</Version>
                <CanId>100</CanId>
                <maxNVs>47</maxNVs>
                <ProcId>Raspberry Pi</ProcId>
            </userNodes>
        </MergModuleDataSet>"#;

const CONFIGURATION: &str = r#"<?xml version="1.0" standalone="yes"?>
        <MergModuleDataSet>
            <mergModules moduleId="1">
                <moduleName>CANACC4</moduleName>
                <moduleType>1</moduleType>
                <moduleEvents>32</moduleEvents>
                <moduleValues>2</moduleValues>
                <numNvs>16</numNvs>
            </mergModules>
            <userEvents>
                <eventId>1</eventId>
                <ownerNode>2011</ownerNode>
                <nodeName>CANVOUT</nodeName>
                <eventName>TO UP Reverse</eventName>
                <Values />
                <eventNode>2011</eventNode>
                <eventValue>13</eventValue>
                </userEvents>
            <userNodes>
                <moduleId>46</moduleId>
                <moduleName>CANPiWi</moduleName>
                <nodeNum>257</nodeNum>
                <nodeName>ThePlankMkII</nodeName>
                <numEvents>1</numEvents>
                <inUse>true</inUse>
                <Flim>true</Flim>
                <NodeVars>7BB315AE150663616E70697769000000000000000000546865506C616E6B7475726E6F75742E747874200000000100</NodeVars>
                <maxEvents>0</maxEvents>
                <Version>6</Version>
                <CanId>100</CanId>
                <maxNVs>47</maxNVs>
                <ProcId>Raspberry Pi</ProcId>
            </userNodes>
        </MergModuleDataSet>"#;

fn load(text: &str) -> Result<MergModuleDataSet, LoadError> {
    MergModuleDataSet::populate("memory.xml", Some(text.as_bytes()))
}

fn event(id: &str, owner: &str, name: &str, node: &str, value: &str) -> String {
    format!(
        "<userEvents><eventId>{}</eventId><ownerNode>{}</ownerNode><nodeName>n</nodeName>\
         <eventName>{}</eventName><Values/><eventNode>{}</eventNode>\
         <eventValue>{}</eventValue></userEvents>",
        id, owner, name, node, value
    )
}

fn start(name: &str, attributes: Vec<(&str, &str)>) -> XmlToken {
    XmlToken::StartElement {
        name: name.to_string(),
        attributes: attributes.into_iter().map(|(k, v)| (k.to_string(), v.to_string())).collect(),
    }
}

#[test]
fn lib_read_fcu_file_missing() {
    let xml_file = "static/nonexistent_file.json";
    let md = MergModuleDataSet::read_fcu_file(xml_file, None);
    match md {
        Ok(_) => assert!(false, "'Ok' returned)"),
        Err(_) => assert!(true, "'Err' returned"),
    }
}

#[test]
fn lib_read_fcu_file_not_valid() {
    let xml_file = "static/bad_fcu_data.xml";
    let bad_result = MergModuleDataSet::read_fcu_file(xml_file, Some(BAD_DATA.as_bytes()));
    match bad_result {
        Ok(_) => assert!(false, "'Ok' returned"),
        Err(_) => {
            assert!(true, "'Err' returned");
        }
    }
}

#[test]
fn lib_read_fcu_file_successfully() {
    let xml_file = "static/good_fcu_data.xml";
    let good_result = MergModuleDataSet::read_fcu_file(xml_file, Some(GOOD_DATA.as_bytes()));
    match good_result {
        Ok(_) => assert!(true, "'Ok' returned"),
        Err(e) => {
            assert!(false, "'Err' returned - {}", e.message());
        }
    }
}

#[test]
fn fcu_module_data_read_fcu_file_missing() {
    let xml_file = "static/nonexistent_file.json";
    let md = MergModuleDataSet::read_fcu_file(xml_file, None).ok();
    match md {
        Some(_) => assert!(false, "'Some' returned)"),
        None => assert!(true, "'None' returned"),
    }
}

#[test]
fn fcu_module_data_read_fcu_file_not_valid() {
    let xml_file = "static/bad_fcu_data.xml";
    let bad_result = MergModuleDataSet::read_fcu_file(xml_file, Some(BAD_DATA.as_bytes())).ok();
    match bad_result {
        Some(_) => assert!(false, "'Some' returned"),
        None => {
            assert!(true, "'None' returned");
        }
    }
}

#[test]
fn fcu_module_data_read_fcu_file_successfully() {
    let xml_file = "static/good_fcu_data.xml";
    let good_result =
        MergModuleDataSet::read_fcu_file(xml_file, Some(MODULE_GOOD_DATA.as_bytes())).ok();
    match good_result {
        Some(_) => assert!(true, "'Some' returned"),
        None => {
            assert!(false, "'None' returned");
        }
    }
}

#[test]
fn local_test() {
    let cfg_file = "tests/test_fcu_cfg.xml";
    // Deserialize the string into the MergModuleDataSet structures
    let test_config = MergModuleDataSet::populate(cfg_file, Some(CONFIGURATION.as_bytes()));
    match test_config {
        Ok(tc) => {
            assert_eq!(tc.userEvents.len(), 1, "userEvents count");
            assert_eq!(tc.userEvents[0].eventNode, 2011);
        }
        Err(e) => assert!(false, "{}", e.message()),
    }
}

#[test]
fn missing_file_is_open_failed_with_its_path() {
    let result = MergModuleDataSet::populate("static/nonexistent_file.json", None);
    assert_eq!(result, Err(LoadError::OpenFailed("static/nonexistent_file.json".to_string())));
    let again = MergModuleDataSet::read_fcu_file("static/nonexistent_file.json", None);
    assert_eq!(again, Err(LoadError::OpenFailed("static/nonexistent_file.json".to_string())));
}

#[test]
fn missing_required_element_is_parse_failed() {
    assert_eq!(load(BAD_DATA), Err(LoadError::ParseFailed));
}

#[test]
fn error_messages() {
    assert_eq!(LoadError::OpenFailed("x".to_string()).message(), "error opening file");
    assert_eq!(LoadError::ParseFailed.message(), "error during serialization");
}

#[test]
fn good_data_is_fully_bound() {
    let data = load(GOOD_DATA).unwrap();
    assert_eq!(data.mergModules.len(), 1);
    let module = &data.mergModules[0];
    assert_eq!(module.moduleId, 1);
    assert_eq!(module.moduleName, "CANACC4");
    assert_eq!(module.moduleType, 1);
    assert_eq!(module.moduleEvents, 32);
    assert_eq!(module.moduleValues, 2);
    assert_eq!(module.numNvs, 16);
    assert_eq!(data.userEvents.len(), 1);
    let event = &data.userEvents[0];
    assert_eq!(event.eventId, 1);
    assert_eq!(event.ownerNode, 2011);
    assert_eq!(event.nodeName, "CANVOUT");
    assert_eq!(event.eventName, "TO UP Reverse");
    assert_eq!(event.Values, "");
    assert_eq!(event.eventNode, 2011);
    assert_eq!(event.eventValue, 13);
    assert_eq!(data.userNodes.len(), 1);
    let node = &data.userNodes[0];
    assert_eq!(node.moduleId, 46);
    assert_eq!(node.moduleName, "CANPiWi");
    assert_eq!(node.nodeNum, 257);
    assert_eq!(node.nodeName, "ThePlankMkII");
    assert_eq!(node.numEvents, 1);
    assert!(node.inUse);
    assert!(node.Flim);
    assert!(node.NodeVars.starts_with("7BB315AE"));
    assert_eq!(node.maxEvents, 0);
    assert_eq!(node.Version, "6");
    assert_eq!(node.CanId, 100);
    assert_eq!(node.maxNVs, 47);
    assert_eq!(node.ProcId, "Raspberry Pi");
}

#[test]
fn records_come_in_document_order() {
    let text = format!(
        "<d>{}{}{}</d>",
        event("1", "5", "first", "5", "1"),
        event("2", "6", "second", "7", "2"),
        event("3", "8", "third", "8", "3")
    );
    let data = load(&text).unwrap();
    let names: Vec<&str> = data.userEvents.iter().map(|e| e.eventName.as_str()).collect();
    assert_eq!(names, vec!["first", "second", "third"]);
    assert!(data.mergModules.is_empty());
    assert!(data.userNodes.is_empty());
}

#[test]
fn document_without_records_is_an_empty_dataset() {
    let data = load("<MergModuleDataSet></MergModuleDataSet>").unwrap();
    assert!(data.mergModules.is_empty());
    assert!(data.userEvents.is_empty());
    assert!(data.userNodes.is_empty());
    let data = load("<MergModuleDataSet/>").unwrap();
    assert!(data.userEvents.is_empty());
}

#[test]
fn numbers_are_sixteen_bit() {
    assert_eq!(load(&format!("<d>{}</d>", event("65535", "0", "e", "0", "1"))).unwrap().userEvents[0].eventId, 65535);
    assert_eq!(load(&format!("<d>{}</d>", event("65536", "0", "e", "0", "1"))), Err(LoadError::ParseFailed));
    assert_eq!(load(&format!("<d>{}</d>", event("99999999999999999999", "0", "e", "0", "1"))), Err(LoadError::ParseFailed));
    assert_eq!(load(&format!("<d>{}</d>", event("-1", "0", "e", "0", "1"))), Err(LoadError::ParseFailed));
    assert_eq!(load(&format!("<d>{}</d>", event("abc", "0", "e", "0", "1"))), Err(LoadError::ParseFailed));
    assert_eq!(load(&format!("<d>{}</d>", event("1.5", "0", "e", "0", "1"))), Err(LoadError::ParseFailed));
    assert_eq!(load(&format!("<d>{}</d>", event("", "0", "e", "0", "1"))), Err(LoadError::ParseFailed));
    assert_eq!(load(&format!("<d>{}</d>", event("+13", "0", "e", "0", "1"))).unwrap().userEvents[0].eventId, 13);
    assert_eq!(load(&format!("<d>{}</d>", event("0013", "0", "e", "0", "1"))).unwrap().userEvents[0].eventId, 13);
    assert_eq!(load(&format!("<d>{}</d>", event(" 7 ", "0", "e", "0", "1"))).unwrap().userEvents[0].eventId, 7);
}

fn node(in_use: &str) -> String {
    format!(
        "<d><userNodes><moduleId>1</moduleId><moduleName>m</moduleName><nodeNum>2</nodeNum>\
         <nodeName>n</nodeName><numEvents>3</numEvents>{}<Flim>0</Flim><NodeVars/>\
         <maxEvents>4</maxEvents><Version>v</Version><CanId>5</CanId><maxNVs>6</maxNVs>\
         <ProcId>p</ProcId></userNodes></d>",
        in_use
    )
}

#[test]
fn truth_values() {
    assert!(load(&node("<inUse>true</inUse>")).unwrap().userNodes[0].inUse);
    assert!(load(&node("<inUse>1</inUse>")).unwrap().userNodes[0].inUse);
    assert!(!load(&node("<inUse>false</inUse>")).unwrap().userNodes[0].inUse);
    assert!(!load(&node("<inUse>0</inUse>")).unwrap().userNodes[0].inUse);
    assert!(!load(&node("<inUse/>")).unwrap().userNodes[0].inUse);
    assert!(!load(&node("<inUse>true</inUse>")).unwrap().userNodes[0].Flim);
    assert_eq!(load(&node("<inUse>yes</inUse>")), Err(LoadError::ParseFailed));
    assert_eq!(load(&node("<inUse>TRUE</inUse>")), Err(LoadError::ParseFailed));
    assert_eq!(load(&node("")), Err(LoadError::ParseFailed));
}

#[test]
fn a_field_may_be_an_attribute() {
    let text = "<d><userEvents eventId=\"1\" ownerNode=\"2\" nodeName=\"n\" eventName=\"e\" \
                Values=\"\" eventNode=\"3\"><eventValue>4</eventValue></userEvents></d>";
    let data = load(text).unwrap();
    assert_eq!(data.userEvents[0].eventId, 1);
    assert_eq!(data.userEvents[0].ownerNode, 2);
    assert_eq!(data.userEvents[0].eventName, "e");
    assert_eq!(data.userEvents[0].eventNode, 3);
    assert_eq!(data.userEvents[0].eventValue, 4);
}

#[test]
fn a_field_given_twice_is_rejected() {
    let text = "<d><userEvents eventId=\"1\"><eventId>1</eventId><ownerNode>2</ownerNode>\
                <nodeName>n</nodeName><eventName>e</eventName><Values/><eventNode>3</eventNode>\
                <eventValue>4</eventValue></userEvents></d>";
    assert_eq!(load(text), Err(LoadError::ParseFailed));
    let text = "<d><userEvents><eventId>1</eventId><ownerNode>2</ownerNode>\
                <nodeName>n</nodeName><eventName>e</eventName><eventName>f</eventName><Values/>\
                <eventNode>3</eventNode><eventValue>4</eventValue></userEvents></d>";
    assert_eq!(load(text), Err(LoadError::ParseFailed));
}

#[test]
fn unknown_fields_are_passed_over() {
    let text = "<d note=\"x\"><extra><userEvents/><deep><deeper>1</deeper></deep></extra>\
                <userEvents colour=\"red\"><eventId>1</eventId><ownerNode>2</ownerNode>\
                <nodeName>n</nodeName><other><eventId>9</eventId></other><eventName>e</eventName>\
                <Values/><eventNode>3</eventNode><eventValue>4</eventValue></userEvents></d>";
    let data = load(text).unwrap();
    assert_eq!(data.userEvents.len(), 1);
    assert_eq!(data.userEvents[0].eventId, 1);
}

#[test]
fn a_value_with_markup_inside_is_rejected() {
    let text = "<d><userEvents><eventId>1</eventId><ownerNode>2</ownerNode>\
                <nodeName>n</nodeName><eventName>e<b/></eventName><Values/>\
                <eventNode>3</eventNode><eventValue>4</eventValue></userEvents></d>";
    assert_eq!(load(text), Err(LoadError::ParseFailed));
}

#[test]
fn records_of_a_kind_stand_together() {
    let module = "<mergModules moduleId=\"1\"><moduleName>m</moduleName>\
                  <moduleType>1</moduleType><moduleEvents>2</moduleEvents>\
                  <moduleValues>3</moduleValues><numNvs>4</numNvs></mergModules>";
    let apart = format!(
        "<d>{}{}{}</d>",
        event("1", "5", "a", "5", "1"),
        module,
        event("2", "5", "b", "5", "1")
    );
    assert_eq!(load(&apart), Err(LoadError::ParseFailed));
    let together = format!(
        "<d>{}{}{}</d>",
        event("1", "5", "a", "5", "1"),
        event("2", "5", "b", "5", "1"),
        module
    );
    let data = load(&together).unwrap();
    assert_eq!(data.userEvents.len(), 2);
    assert_eq!(data.mergModules.len(), 1);
    let with_text = format!(
        "<d>{} and {}</d>",
        event("1", "5", "a", "5", "1"),
        event("2", "5", "b", "5", "1")
    );
    assert_eq!(load(&with_text).unwrap().userEvents.len(), 2);
    let as_attribute = "<d userEvents=\"1\"></d>";
    assert_eq!(load(as_attribute), Err(LoadError::ParseFailed));
}

#[test]
fn text_is_unescaped_and_trimmed() {
    let text = format!("<d>{}</d>", event("1", "5", "  a &lt;b&gt; &amp; <![CDATA[<c>]]> ", "5", "1"));
    assert_eq!(load(&text).unwrap().userEvents[0].eventName, "a <b> & <c>");
}

#[test]
fn comments_and_instructions_are_passed_over() {
    let text = format!(
        "<?xml version=\"1.0\"?><!-- head --><?pi data?><d><!-- c -->{}<?pi?></d><!-- tail -->",
        event("1<!-- inside -->2", "5", "a", "5", "1")
    );
    assert_eq!(load(&text).unwrap().userEvents[0].eventId, 12);
}

#[test]
fn malformed_documents_are_parse_failed() {
    assert_eq!(load(""), Err(LoadError::ParseFailed));
    assert_eq!(load("not xml"), Err(LoadError::ParseFailed));
    assert_eq!(load("<d><userEvents></d>"), Err(LoadError::ParseFailed));
    assert_eq!(load("<d>"), Err(LoadError::ParseFailed));
    assert_eq!(load("<d></d><e></e>"), Err(LoadError::ParseFailed));
    assert_eq!(load("<d><userEvents>text only</userEvents></d>"), Err(LoadError::ParseFailed));
    assert_eq!(
        MergModuleDataSet::populate("x", Some(&[0xff, 0xfe, 0x00])),
        Err(LoadError::ParseFailed)
    );
}

#[test]
fn new_gives_the_dataset_or_the_error() {
    let data = MergModuleDataSet::new("static/good_fcu_data.xml", Some(MODULE_GOOD_DATA.as_bytes()))
        .unwrap();
    assert_eq!(data.userEvents.len(), 1);
    assert_eq!(data.userEvents[0].eventName, "TO UP Reverse");
    assert_eq!(data.mergModules.len(), 1);
    assert_eq!(data.userNodes.len(), 1);
    assert_eq!(
        MergModuleDataSet::new("static/nonexistent_file.json", None),
        Err(LoadError::OpenFailed("static/nonexistent_file.json".to_string()))
    );
    assert_eq!(
        MergModuleDataSet::new("static/bad_fcu_data.xml", Some(BAD_DATA.as_bytes())),
        Err(LoadError::ParseFailed)
    );
    let empty = MergModuleDataSet::new("empty.xml", Some(b"<MergModuleDataSet/>")).unwrap();
    assert!(empty.mergModules.is_empty() && empty.userEvents.is_empty());
    assert!(empty.userNodes.is_empty());
    assert_eq!(
        MergModuleDataSet::new("same.xml", Some(GOOD_DATA.as_bytes())),
        MergModuleDataSet::populate("same.xml", Some(GOOD_DATA.as_bytes()))
    );
}

#[test]
fn loading_twice_gives_the_same_dataset() {
    assert_eq!(load(GOOD_DATA), load(GOOD_DATA));
}

#[test]
fn tokens_of_a_small_document() {
    let tokens = tokenize(b"<?xml version=\"1.0\"?><!-- c --><a x=\"1\" y=\"2\"> t <b/></a>").unwrap();
    assert_eq!(
        tokens,
        vec![
            start("a", vec![("x", "1"), ("y", "2")]),
            XmlToken::Characters("t".to_string()),
            start("b", vec![]),
            XmlToken::EndElement,
            XmlToken::EndElement,
            XmlToken::EndDocument,
        ]
    );
    assert_eq!(tokenize(b"<a>"), None);
}

#[test]
fn dataset_from_tokens() {
    let mut tokens = vec![start("root", vec![]), start("userEvents", vec![("eventId", "7")])];
    for (name, text) in [
        ("ownerNode", "1"),
        ("nodeName", "n"),
        ("eventName", "e"),
        ("Values", "v"),
        ("eventNode", "2"),
        ("eventValue", "3"),
    ] {
        tokens.push(start(name, vec![]));
        tokens.push(XmlToken::Characters(text.to_string()));
        tokens.push(XmlToken::EndElement);
    }
    tokens.push(XmlToken::EndElement);
    tokens.push(XmlToken::EndElement);
    assert_eq!(MergModuleDataSet::from_tokens(&tokens), None);
    tokens.push(XmlToken::EndDocument);
    let data = MergModuleDataSet::from_tokens(&tokens).unwrap();
    assert_eq!(data.userEvents.len(), 1);
    assert_eq!(data.userEvents[0].eventId, 7);
    assert_eq!(data.userEvents[0].Values, "v");
    assert_eq!(data.userEvents[0].eventValue, 3);
    tokens.push(XmlToken::EndDocument);
    assert_eq!(MergModuleDataSet::from_tokens(&tokens), None);
    tokens.pop();
    tokens.pop();
    tokens.pop();
    tokens.push(XmlToken::EndDocument);
    assert_eq!(MergModuleDataSet::from_tokens(&tokens), None);
    assert_eq!(MergModuleDataSet::from_tokens(&vec![]), None);
    assert_eq!(MergModuleDataSet::from_tokens(&vec![XmlToken::EndDocument]), None);
    assert_eq!(
        MergModuleDataSet::from_tokens(&vec![
            start("r", vec![]),
            XmlToken::CData,
            XmlToken::EndElement,
            XmlToken::EndDocument
        ]),
        None
    );
    assert!(MergModuleDataSet::from_tokens(&vec![
        start("r", vec![]),
        XmlToken::Characters("t".to_string()),
        XmlToken::EndElement,
        XmlToken::EndDocument
    ])
    .is_some());
}

#[test]
fn fields_of_an_element() {
    let tokens = vec![
        start("r", vec![("k", "v")]),
        XmlToken::Characters("loose".to_string()),
        start("empty", vec![]),
        XmlToken::EndElement,
        start("text", vec![("ignored", "1")]),
        XmlToken::Characters("t".to_string()),
        XmlToken::EndElement,
        start("nested", vec![]),
        start("inner", vec![]),
        XmlToken::EndElement,
        XmlToken::EndElement,
        start("text", vec![]),
        XmlToken::Characters("u".to_string()),
        XmlToken::EndElement,
        XmlToken::EndElement,
    ];
    let fields = read_fields(&tokens, 0).unwrap();
    let field = |name: &str, value: FieldValue, at: usize| Field { name: name.to_string(), value, at };
    assert_eq!(
        fields,
        vec![
            field("k", FieldValue::Attribute("v".to_string()), 0),
            field("empty", FieldValue::Empty, 2),
            field("text", FieldValue::Text("t".to_string()), 4),
            field("nested", FieldValue::Nested, 7),
            field("text", FieldValue::Text("u".to_string()), 11),
        ]
    );
    assert_eq!(find_field(&fields, "k"), Some(0));
    assert_eq!(find_field(&fields, "nested"), Some(3));
    assert_eq!(find_field(&fields, "text"), None);
    assert_eq!(find_field(&fields, "absent"), None);
    assert_eq!(find_run(&fields, "text"), None);
    assert_eq!(find_run(&fields, "k"), None);
    assert_eq!(find_run(&fields, "empty"), Some((1, 2)));
    let (from, to) = find_run(&fields, "absent").unwrap();
    assert_eq!(from, to);
    assert_eq!(read_fields(&tokens, 8).unwrap(), vec![]);
    assert_eq!(read_fields(&tokens, 1), None);
    assert_eq!(read_fields(&tokens, 99), None);
    assert_eq!(find_end(&tokens, 0), Some(15));
    assert_eq!(find_end(&tokens, 7), Some(11));
    assert_eq!(find_end(&tokens, 2), Some(4));
    assert_eq!(find_end(&tokens, 14), None);
    assert_eq!(find_end(&tokens, 15), None);
    assert_eq!(find_end(&tokens, usize::MAX), None);
    assert_eq!(read_fields(&tokens[..14].to_vec(), 0), None);
}
