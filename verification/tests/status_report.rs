use twoliter::status::{
    color_result, create_simple_json, CrdData, CrdState, Report, Status, StatusColumn,
    StatusOutput, TestSummary,
};

fn status(output: Option<StatusOutput>) -> Status {
    Status {
        output,
        arch: None,
        variant: None,
        refresh: None,
        test: false,
        passed: false,
        failed: false,
        running: false,
    }
}

fn test(variant: &str, arch: &str, cluster: &str, test_type: &str, state: &str) -> CrdData {
    CrdData {
        crd_type: "Test".to_string(),
        test_type: test_type.to_string(),
        cluster: cluster.to_string(),
        arch: arch.to_string(),
        variant: variant.to_string(),
        status: state.to_string(),
    }
}

fn fields(row: &TestSummary) -> Vec<(&str, &str)> {
    row.fields.iter().map(|(name, value)| (name.as_str(), value.as_str())).collect()
}

#[test]
fn selection_has_no_state_and_no_labels_by_default() {
    let plan = status(None).run_status();
    assert_eq!(plan.selection.state, None);
    assert_eq!(plan.selection.labels, "");
    assert!(!plan.selection.tests_only);
    assert_eq!(plan.report, Report::Table);
}

#[test]
fn selection_prefers_running_over_passed_over_failed() {
    let mut flags = status(None);
    flags.failed = true;
    assert_eq!(flags.run_status().selection.state, Some(CrdState::Failed));
    flags.passed = true;
    assert_eq!(flags.run_status().selection.state, Some(CrdState::Passed));
    flags.running = true;
    assert_eq!(flags.run_status().selection.state, Some(CrdState::NotFinished));
}

#[test]
fn selection_carries_architecture_and_variant_as_labels() {
    let mut flags = status(None);
    flags.test = true;
    flags.arch = Some("x86_64".to_string());
    assert_eq!(flags.run_status().selection.labels, "testsys/arch=x86_64");
    flags.variant = Some("aws-k8s-1.30".to_string());
    let plan = flags.run_status();
    assert_eq!(plan.selection.labels, "testsys/arch=x86_64,testsys/variant=aws-k8s-1.30");
    assert!(plan.selection.tests_only);
    flags.arch = None;
    assert_eq!(flags.run_status().selection.labels, "testsys/variant=aws-k8s-1.30");
}

#[test]
fn each_form_of_report_has_its_columns() {
    let six = vec![
        StatusColumn::Name,
        StatusColumn::CrdType,
        StatusColumn::State,
        StatusColumn::Passed,
        StatusColumn::Failed,
        StatusColumn::Skipped,
    ];
    let mut eight = six.clone();
    eight.push(StatusColumn::BuildId);
    eight.push(StatusColumn::LastUpdate);

    let plan = status(Some(StatusOutput::Json)).run_status();
    assert_eq!(plan.columns, six);
    assert_eq!(plan.report, Report::JsonOnly);

    let plan = status(Some(StatusOutput::Narrow)).run_status();
    assert_eq!(plan.columns, six);
    assert_eq!(plan.report, Report::Table);

    let plan = status(Some(StatusOutput::Wide)).run_status();
    assert_eq!(plan.columns, eight);
    assert_eq!(plan.report, Report::Table);

    let plan = status(None).run_status();
    assert_eq!(plan.columns, eight);

    let plan = status(Some(StatusOutput::SimpleJson)).run_status();
    assert!(plan.columns.is_empty());
    assert_eq!(plan.report, Report::SimpleJson);

    let plan = status(Some(StatusOutput::Chart)).run_status();
    assert!(plan.columns.is_empty());
    assert_eq!(plan.report, Report::Chart);

    let plan = status(Some(StatusOutput::Condensed)).run_status();
    assert_eq!(
        plan.columns,
        vec![
            StatusColumn::CondensedCrdType,
            StatusColumn::CondensedTestType,
            StatusColumn::CondensedCluster,
            StatusColumn::CondensedArch,
            StatusColumn::CondensedVariant,
            StatusColumn::CondensedStatus,
            StatusColumn::CondensedPassed,
            StatusColumn::CondensedFailed,
            StatusColumn::CondensedSkipped,
        ]
    );
    assert_eq!(plan.report, Report::Table);
}

#[test]
fn results_have_their_styles() {
    for result in ["pass", "passed", "Passed"] {
        assert_eq!(color_result(result), "FwBg");
    }
    for result in ["error", "fail", "failed", "Failed"] {
        assert_eq!(color_result(result), "FdBr");
    }
    for result in ["ipv4", "ipv6"] {
        assert_eq!(color_result(result), "FdBy");
    }
    for result in ["skip", "n/a", "skipped", "Skipped"] {
        assert_eq!(color_result(result), "FwBs");
    }
    for result in ["", "running", "PASSED", "pass "] {
        assert_eq!(color_result(result), "");
    }
}

#[test]
fn tests_are_grouped_by_variant_architecture_and_cluster() {
    let rows = create_simple_json(&vec![
        test("aws-k8s", "x86_64", "c1", "conformance", "passed"),
        test("aws-k8s", "aarch64", "c1", "smoke", "running"),
        test("aws-k8s", "x86_64", "c1", "smoke", "failed"),
        test("aws-k8s", "x86_64", "c2", "macis", "passed"),
    ]);
    assert_eq!(rows.len(), 3);
    assert_eq!(rows[0].arch, "aarch64");
    assert_eq!(rows[0].get("smoke").unwrap(), "running");
    assert_eq!(rows[0].get("conformance").unwrap(), "n/a");
    assert_eq!(
        fields(&rows[1]),
        vec![
            ("arch", "x86_64"),
            ("cluster", "c1"),
            ("conformance", "passed"),
            ("karpenter", "n/a"),
            ("macis", "n/a"),
            ("migration", "n/a"),
            ("smoke", "failed"),
            ("variant", "aws-k8s"),
        ]
    );
    assert_eq!(rows[2].cluster, "c2");
    assert_eq!(rows[2].get("macis").unwrap(), "passed");
    assert_eq!(rows[2].get("unknown"), None);
}

#[test]
fn summaries_come_in_the_order_of_variant_architecture_and_cluster() {
    let rows = create_simple_json(&vec![
        test("b", "x", "2", "smoke", "passed"),
        test("a", "y", "1", "smoke", "passed"),
        test("b", "x", "1", "smoke", "passed"),
        test("a", "x", "9", "smoke", "passed"),
        test("ab", "", "", "smoke", "passed"),
        test("a", "x", "10", "smoke", "passed"),
    ]);
    let keys: Vec<(&str, &str, &str)> = rows
        .iter()
        .map(|row| (row.variant.as_str(), row.arch.as_str(), row.cluster.as_str()))
        .collect();
    assert_eq!(
        keys,
        vec![
            ("a", "x", "10"),
            ("a", "x", "9"),
            ("a", "y", "1"),
            ("ab", "", ""),
            ("b", "x", "1"),
            ("b", "x", "2"),
        ]
    );
    let mut sorted = keys.clone();
    sorted.sort();
    assert_eq!(keys, sorted);
}

#[test]
fn migration_that_waits_or_is_in_error_counts_as_failed() {
    let rows = create_simple_json(&vec![
        test("v", "a", "c1", "migration", "waiting"),
        test("v", "a", "c2", "migration", "error"),
        test("v", "a", "c3", "migration", "passed"),
        test("v", "a", "c4", "smoke", "waiting"),
    ]);
    assert_eq!(rows[0].get("migration").unwrap(), "failed");
    assert_eq!(rows[1].get("migration").unwrap(), "failed");
    assert_eq!(rows[2].get("migration").unwrap(), "passed");
    assert_eq!(rows[3].get("smoke").unwrap(), "waiting");
}

#[test]
fn later_result_of_a_test_type_replaces_the_earlier() {
    let rows = create_simple_json(&vec![
        test("v", "a", "c", "karpenter", "running"),
        test("v", "a", "c", "karpenter", "passed"),
    ]);
    assert_eq!(rows.len(), 1);
    assert_eq!(rows[0].get("karpenter").unwrap(), "passed");
    assert_eq!(rows[0].fields.len(), 8);
}

#[test]
fn unusual_test_type_gets_a_field_of_its_own() {
    let rows = create_simple_json(&vec![test("v", "a", "c", "workload", "passed")]);
    assert_eq!(rows[0].fields.len(), 9);
    assert_eq!(rows[0].fields[8], ("workload".to_string(), "passed".to_string()));
    let rows = create_simple_json(&vec![test("v", "a", "c", "boot", "passed")]);
    assert_eq!(rows[0].fields[1], ("boot".to_string(), "passed".to_string()));
    let names: Vec<&str> = rows[0].fields.iter().map(|(name, _)| name.as_str()).collect();
    let mut sorted = names.clone();
    sorted.sort();
    assert_eq!(names, sorted);
}

#[test]
fn objects_that_are_no_tests_are_left_out() {
    let mut resource = test("v", "a", "c", "smoke", "passed");
    resource.crd_type = "Resource".to_string();
    assert!(create_simple_json(&vec![resource]).is_empty());
    assert!(create_simple_json(&Vec::new()).is_empty());
}

#[test]
fn chart_row_shows_results_in_their_styles() {
    let rows = create_simple_json(&vec![
        test("aws-k8s", "x86_64", "c1", "conformance", "passed"),
        test("aws-k8s", "x86_64", "c1", "migration", "error"),
        test("aws-k8s", "x86_64", "c1", "smoke", "ipv6"),
    ]);
    let cells = rows[0].chart_row().expect("every column is there");
    let shown: Vec<(&str, &str)> =
        cells.iter().map(|cell| (cell.text.as_str(), cell.style.as_str())).collect();
    assert_eq!(
        shown,
        vec![
            ("c1", ""),
            ("aws-k8s", ""),
            ("x86_64", ""),
            ("passed", "FwBg"),
            ("failed", "FdBr"),
            ("ipv6", "FdBy"),
            ("n/a", "FwBs"),
            ("n/a", "FwBs"),
        ]
    );
}

#[test]
fn chart_row_of_a_summary_that_lacks_a_column_is_none() {
    let row = TestSummary {
        variant: "v".to_string(),
        arch: "a".to_string(),
        cluster: "c".to_string(),
        fields: vec![("cluster".to_string(), "c".to_string())],
    };
    assert!(row.chart_row().is_none());
}
