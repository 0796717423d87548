use namimado::location::Url;
use namimado::render::report::{
    inspector_text, navigate_report_text, FrameworkShare, ReportCell, ReportSummary,
};

fn empty_report() -> ReportSummary {
    ReportSummary {
        frameworks: vec![],
        routes_matched: None,
        queries_dispatched: vec![],
        effects_fired: 0,
        agents_fired: 0,
        transforms_applied: 0,
        transform_hits: vec![],
        state_snapshot: vec![],
        derived_snapshot: vec![],
        inline_lisp_evaluated: 0,
        inline_lisp_failed: 0,
        normalize_applied: 0,
        normalize_hits: vec![],
        wasm_agents_fired: 0,
        wasm_agent_hits: vec![],
    }
}

fn full_report() -> ReportSummary {
    let mut r = empty_report();
    r.frameworks = vec![FrameworkShare {
        name: "react".to_string(),
        confidence: "0.85".to_string(),
        percent: "85".to_string(),
    }];
    r.routes_matched = Some("docs".to_string());
    r.queries_dispatched = vec!["q1".to_string(), "q2".to_string()];
    r.effects_fired = 3;
    r.agents_fired = 1;
    r.transforms_applied = 22;
    r.transform_hits = (0..22).map(|i| format!("h{i}")).collect();
    r.state_snapshot = vec![ReportCell { name: "count".to_string(), value: "2".to_string() }];
    r.derived_snapshot = vec![ReportCell {
        name: "a-very-long-cell-name".to_string(),
        value: "\"x\"".to_string(),
    }];
    r.inline_lisp_evaluated = 4;
    r.inline_lisp_failed = 1;
    r.normalize_applied = 12;
    r.normalize_hits = (0..12).map(|i| format!("n{i}")).collect();
    r.wasm_agents_fired = 0;
    r
}

#[test]
fn inspector_of_an_empty_report() {
    let text = inspector_text(&empty_report());
    assert_eq!(
        text,
        "SUBSTRATE\n─────────\neffects     0\nagents      0\ntransforms  0\n\
         inline-lisp 0 ok · 0 err\nnormalize   0\nwasm-agents 0\n"
    );
}

#[test]
fn inspector_of_a_full_report() {
    let text = inspector_text(&full_report());
    let mut expected = String::from(
        "SUBSTRATE\n─────────\neffects     3\nagents      1\ntransforms  22\n\
         inline-lisp 4 ok · 1 err\nnormalize   12\n",
    );
    for i in 0..10 {
        expected.push_str(&format!("  · n{i}\n"));
    }
    expected.push_str("wasm-agents 0\nroute       docs\nqueries     q1, q2\n");
    expected.push_str("\nFRAMEWORKS\n──────────\n  react (85%)\n");
    expected.push_str("\nTRANSFORM HITS\n──────────────\n");
    for i in 0..20 {
        expected.push_str(&format!("  · h{i}\n"));
    }
    expected.push_str("  … +2 more\n");
    expected.push_str("\nSTATE CELLS\n───────────\n  count          2\n");
    expected.push_str("\nDERIVED\n───────\n  a-very-long-cell-name \"x\"\n");
    assert_eq!(text, expected);
}

#[test]
fn navigate_report_lines() {
    let url = Url::parse("https://example.com").unwrap();
    let text = navigate_report_text(&url, 1234, Some("Example"), &full_report());
    let rule = "────────────────────────────────────────";
    let mut expected = format!(
        "{rule}\n namimado navigate  https://example.com/\n 1234 bytes fetched\n title: Example\n{rule}\n"
    );
    expected.push_str("route matched:  docs\nqueries:        q1, q2\nframeworks:     react (0.85)\n");
    expected.push_str("effects fired:  3\nagents fired:   1\ntransforms:     22\n");
    for i in 0..22 {
        expected.push_str(&format!("  • h{i}\n"));
    }
    expected.push_str("state cells:\n  count = 2\nderived values:\n  a-very-long-cell-name = \"x\"\n");
    assert_eq!(text, expected);
}

#[test]
fn navigate_report_without_title_or_matches() {
    let url = Url::parse("about:blank").unwrap();
    let text = navigate_report_text(&url, 0, None, &empty_report());
    let rule = "────────────────────────────────────────";
    assert_eq!(
        text,
        format!(
            "{rule}\n namimado navigate  about:blank\n 0 bytes fetched\n{rule}\n\
             effects fired:  0\nagents fired:   0\ntransforms:     0\n"
        )
    );
}
