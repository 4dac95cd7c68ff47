use sudoaudit::installer::ToolKind;
use sudoaudit::reporter::{count_sections, generate_report_md, generate_slither_report_md};
use sudoaudit::serialize::{
    detector_from_json, findings_from_json, issue_from_json, mythril_from_json, parse,
    parse_mythril_output, parse_slither_output, parse_text, slither_from_json, Finding, FindingSet,
    Json, JsonNumber, MythrilAnalysis, MythrilIssue, ParseError, SlitherAnalysis, SlitherDetector,
    SlitherResults,
};

fn reason<T: std::fmt::Debug>(r: Result<T, ParseError>) -> String {
    match r {
        Err(ParseError::ParseFailed { reason }) => reason,
        Ok(v) => panic!("expected a failure, got {:?}", v),
    }
}

fn text(s: &str) -> Json {
    Json::Text(s.to_string())
}

fn object(entries: Vec<(&str, Json)>) -> Json {
    Json::Object(entries.into_iter().map(|(k, v)| (k.to_string(), v)).collect())
}

#[test]
fn clean_slither_run_yields_the_fixed_message() {
    let raw = "{\"success\":true,\"results\":{\"detectors\":[]}}";
    let set = parse(raw.as_bytes(), ToolKind::Slither).unwrap();
    assert_eq!(set, FindingSet { success: true, findings: vec![] });
    let analysis = parse_slither_output(raw).unwrap();
    assert!(analysis.success);
    assert_eq!(analysis.results.detectors.len(), 0);
    assert_eq!(generate_slither_report_md(&analysis.results), "✅ No vulnerabilities detected by Slither.\n");
}

#[test]
fn one_detector_is_preserved_verbatim() {
    let raw = "{\"success\":true,\"results\":{\"detectors\":[{\"check\":\"reentrancy\",\"impact\":\"High\",\"confidence\":\"Medium\",\"description\":\"...\"}]}}";
    let analysis = parse_slither_output(raw).unwrap();
    assert_eq!(
        analysis,
        SlitherAnalysis {
            success: true,
            results: SlitherResults {
                detectors: vec![SlitherDetector {
                    check: "reentrancy".to_string(),
                    impact: "High".to_string(),
                    confidence: "Medium".to_string(),
                    description: "...".to_string(),
                }],
            },
        }
    );
    let set = parse(raw.as_bytes(), ToolKind::Slither).unwrap();
    assert_eq!(
        set,
        FindingSet {
            success: true,
            findings: vec![Finding {
                severity: "High".to_string(),
                confidence: Some("Medium".to_string()),
                title: "reentrancy".to_string(),
                description: "...".to_string(),
            }],
        }
    );
    assert_eq!(
        generate_slither_report_md(&analysis.results),
        "# Slither Security Analysis Report\n\n## 🚨 reentrancy\n\n- **Impact:** High\n- **Confidence:** Medium\n\n### Description\n...\n\n---\n\n"
    );
}

#[test]
fn absent_or_null_collection_is_empty() {
    for raw in [
        "{\"success\":true,\"results\":{}}",
        "{\"success\":true,\"results\":{\"detectors\":null}}",
        "{\"results\":{\"detectors\":[]},\"success\":true,\"extra\":[1,2.5,-3]}",
    ] {
        let set = parse(raw.as_bytes(), ToolKind::Slither).unwrap();
        assert_eq!(set, FindingSet { success: true, findings: vec![] });
    }
    for raw in ["{\"success\":false}", "{\"success\":false,\"issues\":null}", "{\"issues\":[],\"success\":false}"] {
        let set = parse(raw.as_bytes(), ToolKind::Mythril).unwrap();
        assert_eq!(set, FindingSet { success: false, findings: vec![] });
        assert_eq!(parse_mythril_output(raw).unwrap(), MythrilAnalysis { success: false, issues: vec![] });
    }
}

#[test]
fn missing_required_field_is_a_parse_failure() {
    assert_eq!(reason(parse_slither_output("{\"results\":{\"detectors\":[]}}")), "missing field `success`");
    assert_eq!(reason(parse_slither_output("{\"success\":true}")), "missing field `results`");
    assert_eq!(reason(parse_mythril_output("{\"issues\":[]}")), "missing field `success`");
    assert_eq!(reason(parse_mythril_output("{}")), "missing field `success`");
    assert_eq!(reason(parse("{}".as_bytes(), ToolKind::Slither)), "missing field `success`");
    assert_eq!(reason(parse("{}".as_bytes(), ToolKind::Mythril)), "missing field `success`");
    assert_eq!(
        reason(parse_slither_output("{\"success\":true,\"results\":{\"detectors\":[{\"check\":\"c\",\"impact\":\"i\",\"confidence\":\"x\"}]}}")),
        "missing field `description`"
    );
    assert_eq!(
        reason(parse_mythril_output("{\"success\":true,\"issues\":[{\"title\":\"t\",\"description\":\"d\"}]}")),
        "missing field `severity`"
    );
}

#[test]
fn wrong_kind_of_value_is_a_parse_failure() {
    assert_eq!(reason(parse_slither_output("{\"success\":\"yes\",\"results\":{}}")), "invalid type for field `success`");
    assert_eq!(reason(parse_slither_output("{\"success\":null,\"results\":{}}")), "invalid type for field `success`");
    assert_eq!(reason(parse_slither_output("{\"success\":true,\"results\":[]}")), "invalid type for field `results`");
    assert_eq!(reason(parse_slither_output("{\"success\":true,\"results\":null}")), "invalid type for field `results`");
    assert_eq!(
        reason(parse_slither_output("{\"success\":true,\"results\":{\"detectors\":{}}}")),
        "invalid type for field `detectors`"
    );
    assert_eq!(
        reason(parse_slither_output("{\"success\":true,\"results\":{\"detectors\":[7]}}")),
        "expected an object"
    );
    assert_eq!(
        reason(parse_slither_output("{\"success\":true,\"results\":{\"detectors\":[{\"check\":1,\"impact\":\"i\",\"confidence\":\"c\",\"description\":\"d\"}]}}")),
        "invalid type for field `check`"
    );
    assert_eq!(reason(parse_mythril_output("{\"success\":true,\"issues\":\"none\"}")), "invalid type for field `issues`");
    assert_eq!(reason(parse_slither_output("[true, {}]")), "expected an object");
    assert_eq!(reason(parse_mythril_output("true")), "expected an object");
}

#[test]
fn malformed_json_fails_with_the_message_of_its_rejection() {
    for text in ["{", "not json", "", "{\"success\":true,", "[1,]", "{\"a\":1}x"] {
        let message = serde_json::from_str::<serde_json::Value>(text).unwrap_err().to_string();
        assert_eq!(reason(parse_slither_output(text)), message);
        assert_eq!(reason(parse_mythril_output(text)), message);
        assert_eq!(reason(parse_text(text, ToolKind::Mythril)), message);
        assert_eq!(reason(parse(text.as_bytes(), ToolKind::Slither)), message);
    }
    assert_eq!(reason(parse_slither_output("{")), "EOF while parsing an object at line 1 column 1");
}

#[test]
fn failed_run_with_issues_keeps_its_issues() {
    let raw = "{\"success\":false,\"issues\":[{\"title\":\"t\",\"description\":\"d\",\"severity\":\"High\"}]}";
    let set = parse(raw.as_bytes(), ToolKind::Mythril).unwrap();
    assert!(!set.success);
    assert_eq!(set.findings.len(), 1);
    assert_eq!(
        generate_report_md(&set, ToolKind::Mythril),
        "# Mythril Security Analysis Report\n\n## 🔥 t\n\n- **Severity:** High\n\n### Description\nd\n\n---\n\n"
    );
    assert_eq!(count_sections(&generate_report_md(&set, ToolKind::Mythril), ToolKind::Mythril), 1);
}

#[test]
fn malformed_json_is_a_parse_failure() {
    assert!(!reason(parse_slither_output("{")).is_empty());
    assert!(!reason(parse_mythril_output("not json")).is_empty());
    assert!(!reason(parse_text("", ToolKind::Slither)).is_empty());
    assert!(!reason(parse("{\"success\":true,".as_bytes(), ToolKind::Mythril)).is_empty());
}

#[test]
fn output_that_is_not_utf8_is_a_parse_failure() {
    assert_eq!(reason(parse(&[0x7b, 0xff, 0x7d], ToolKind::Slither)), "the output is not UTF-8 text");
    assert_eq!(reason(parse(&[0xc3], ToolKind::Mythril)), "the output is not UTF-8 text");
}

#[test]
fn mythril_issue_address_may_be_absent() {
    let raw = "{\"success\":true,\"issues\":[{\"title\":\"Integer Overflow\",\"description\":\"d1\",\"severity\":\"High\",\"address\":142,\"swc-id\":\"101\"},{\"title\":\"t2\",\"description\":\"d2\",\"severity\":\"Low\"},{\"title\":\"t3\",\"description\":\"d3\",\"severity\":\"Medium\",\"address\":null}]}";
    let analysis = parse_mythril_output(raw).unwrap();
    assert_eq!(
        analysis,
        MythrilAnalysis {
            success: true,
            issues: vec![
                MythrilIssue {
                    title: "Integer Overflow".to_string(),
                    description: "d1".to_string(),
                    severity: "High".to_string(),
                    address: Some(142),
                },
                MythrilIssue {
                    title: "t2".to_string(),
                    description: "d2".to_string(),
                    severity: "Low".to_string(),
                    address: None,
                },
                MythrilIssue {
                    title: "t3".to_string(),
                    description: "d3".to_string(),
                    severity: "Medium".to_string(),
                    address: None,
                },
            ],
        }
    );
    let set = analysis.findings();
    assert!(set.success);
    assert_eq!(set.findings.len(), 3);
    assert_eq!(
        set.findings[0],
        Finding {
            severity: "High".to_string(),
            confidence: None,
            title: "Integer Overflow".to_string(),
            description: "d1".to_string(),
        }
    );
    assert_eq!(set.findings[2].title, "t3");
    assert_eq!(parse(raw.as_bytes(), ToolKind::Mythril).unwrap(), set);
}

#[test]
fn mythril_issue_address_must_fit_thirty_two_bits() {
    let issue = |address: &str| {
        format!(
            "{{\"success\":true,\"issues\":[{{\"title\":\"t\",\"description\":\"d\",\"severity\":\"s\",\"address\":{}}}]}}",
            address
        )
    };
    assert_eq!(parse_mythril_output(&issue("0")).unwrap().issues[0].address, Some(0));
    assert_eq!(parse_mythril_output(&issue("4294967295")).unwrap().issues[0].address, Some(4294967295));
    for bad in ["4294967296", "-1", "1.5", "1e2", "\"142\"", "true", "[]", "18446744073709551616"] {
        assert_eq!(reason(parse_mythril_output(&issue(bad))), "invalid type for field `address`");
    }
}

#[test]
fn findings_keep_the_order_of_the_output() {
    let raw = "{\"success\":true,\"results\":{\"detectors\":[{\"check\":\"b\",\"impact\":\"Low\",\"confidence\":\"High\",\"description\":\"2\"},{\"check\":\"a\",\"impact\":\"High\",\"confidence\":\"Low\",\"description\":\"1\"},{\"check\":\"c\",\"impact\":\"Medium\",\"confidence\":\"Medium\",\"description\":\"3\"}]}}";
    let set = parse(raw.as_bytes(), ToolKind::Slither).unwrap();
    let titles: Vec<&str> = set.findings.iter().map(|f| f.title.as_str()).collect();
    assert_eq!(titles, vec!["b", "a", "c"]);
    assert_eq!(set, parse_slither_output(raw).unwrap().findings());
}

#[test]
fn first_failing_item_gives_the_reason() {
    let raw = "{\"success\":true,\"issues\":[{\"title\":\"t\",\"description\":\"d\",\"severity\":\"s\"},{\"title\":\"t\"},{\"description\":\"d\"}]}";
    assert_eq!(reason(parse_mythril_output(raw)), "missing field `description`");
}

#[test]
fn documents_are_read_from_values() {
    let detector = object(vec![
        ("check", text("c")),
        ("impact", text("i")),
        ("confidence", text("x")),
        ("description", text("d")),
        ("elements", Json::Array(vec![Json::Null])),
    ]);
    assert_eq!(
        detector_from_json(&detector),
        Ok(SlitherDetector {
            check: "c".to_string(),
            impact: "i".to_string(),
            confidence: "x".to_string(),
            description: "d".to_string(),
        })
    );
    assert_eq!(reason(detector_from_json(&Json::Null)), "expected an object");
    let doc = object(vec![
        ("success", Json::Bool(false)),
        ("results", object(vec![("detectors", Json::Array(vec![detector]))])),
    ]);
    let analysis = slither_from_json(&doc).unwrap();
    assert!(!analysis.success);
    assert_eq!(analysis.results.detectors.len(), 1);
    assert_eq!(findings_from_json(&doc, ToolKind::Slither).unwrap().findings.len(), 1);
    assert_eq!(findings_from_json(&doc, ToolKind::Mythril), Ok(FindingSet { success: false, findings: vec![] }));
    let issue = object(vec![
        ("title", text("t")),
        ("description", text("d")),
        ("severity", text("s")),
        ("address", Json::Number(JsonNumber::Unsigned(9))),
    ]);
    assert_eq!(issue_from_json(&issue).unwrap().address, Some(9));
    let signed = object(vec![
        ("title", text("t")),
        ("description", text("d")),
        ("severity", text("s")),
        ("address", Json::Number(JsonNumber::Signed(-9))),
    ]);
    assert_eq!(reason(issue_from_json(&signed)), "invalid type for field `address`");
    assert_eq!(reason(mythril_from_json(&Json::Array(vec![]))), "expected an object");
}

#[test]
fn first_entry_of_a_name_wins() {
    let doc = object(vec![("success", Json::Bool(true)), ("success", Json::Bool(false))]);
    assert!(mythril_from_json(&doc).unwrap().success);
}
