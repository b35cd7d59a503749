//! What a status report selects and shows of the test runs of a cluster.
use vstd::prelude::*;
use vstd::string::StringExecFns;
use crate::text::{before, join, joined, text_before, text_eq, texts};

verus! {

/// The forms a status report can take.
#[derive(Debug, Clone, Copy, PartialEq, Eq, Structural)]
pub enum StatusOutput {
    /// The status as JSON.
    Json,
    /// One JSON object per variant, architecture and cluster.
    SimpleJson,
    /// The condensed status table.
    Condensed,
    /// A chart of the results.
    Chart,
    /// The status table with few columns.
    Narrow,
    /// The status table with all columns.
    Wide,
}

/// The states by which test runs are selected.
#[derive(Debug, Clone, Copy, PartialEq, Eq, Structural)]
pub enum CrdState {
    NotFinished,
    Passed,
    Failed,
}

/// The columns of a status table.
#[derive(Debug, Clone, Copy, PartialEq, Eq, Structural)]
pub enum StatusColumn {
    Name,
    CrdType,
    State,
    Passed,
    Failed,
    Skipped,
    BuildId,
    LastUpdate,
    CondensedCrdType,
    CondensedTestType,
    CondensedCluster,
    CondensedArch,
    CondensedVariant,
    CondensedStatus,
    CondensedPassed,
    CondensedFailed,
    CondensedSkipped,
}

/// What is printed besides the status table.
#[derive(Debug, Clone, Copy, PartialEq, Eq, Structural)]
pub enum Report {
    /// The status is logged as JSON, and no table is printed.
    JsonOnly,
    /// The table alone.
    Table,
    /// The simple JSON, then the table.
    SimpleJson,
    /// The chart, then the table.
    Chart,
}

/// What a status report is asked to show.
#[derive(Debug)]
pub struct Status {
    /// The form of the report.
    pub output: Option<StatusOutput>,
    /// The architecture to report on.
    pub arch: Option<String>,
    /// The variant to report on.
    pub variant: Option<String>,
    /// The seconds after which the report is made anew.
    pub refresh: Option<u64>,
    /// Only tests.
    pub test: bool,
    /// Only what passed.
    pub passed: bool,
    /// Only what failed.
    pub failed: bool,
    /// Only what has not finished.
    pub running: bool,
}

/// Which test runs a report is about.
#[derive(Debug)]
pub struct SelectionParams {
    /// The labels that a run must carry, `name=value`, separated by commas.
    pub labels: String,
    /// The state that a run must be in.
    pub state: Option<CrdState>,
    /// Whether only tests are selected.
    pub tests_only: bool,
}

/// What is to be asked of the cluster and what is to be shown of the
/// answer.
#[derive(Debug)]
pub struct StatusPlan {
    pub selection: SelectionParams,
    pub columns: Vec<StatusColumn>,
    pub report: Report,
}

/// The state that the flags select: what has not finished before what
/// passed, and that before what failed.
pub open spec fn selected_state(running: bool, passed: bool, failed: bool) -> Option<CrdState> {
    if running {
        Some(CrdState::NotFinished)
    } else if passed {
        Some(CrdState::Passed)
    } else if failed {
        Some(CrdState::Failed)
    } else {
        None
    }
}

/// The label conditions for an architecture and a variant.
pub open spec fn selected_labels(arch: Option<Seq<char>>, variant: Option<Seq<char>>) -> Seq<
    Seq<char>,
> {
    let for_arch = match arch {
        Some(arch) => seq!["testsys/arch="@ + arch],
        None => Seq::empty(),
    };
    match variant {
        Some(variant) => for_arch.push("testsys/variant="@ + variant),
        None => for_arch,
    }
}

/// The columns that each form of report shows.
pub open spec fn shown_columns(output: Option<StatusOutput>) -> Seq<StatusColumn> {
    match output {
        Some(StatusOutput::Json) | Some(StatusOutput::Narrow) => seq![
            StatusColumn::Name,
            StatusColumn::CrdType,
            StatusColumn::State,
            StatusColumn::Passed,
            StatusColumn::Failed,
            StatusColumn::Skipped,
        ],
        Some(StatusOutput::SimpleJson) | Some(StatusOutput::Chart) => Seq::empty(),
        Some(StatusOutput::Condensed) => seq![
            StatusColumn::CondensedCrdType,
            StatusColumn::CondensedTestType,
            StatusColumn::CondensedCluster,
            StatusColumn::CondensedArch,
            StatusColumn::CondensedVariant,
            StatusColumn::CondensedStatus,
            StatusColumn::CondensedPassed,
            StatusColumn::CondensedFailed,
            StatusColumn::CondensedSkipped,
        ],
        Some(StatusOutput::Wide) | None => seq![
            StatusColumn::Name,
            StatusColumn::CrdType,
            StatusColumn::State,
            StatusColumn::Passed,
            StatusColumn::Failed,
            StatusColumn::Skipped,
            StatusColumn::BuildId,
            StatusColumn::LastUpdate,
        ],
    }
}

/// What each form of report prints besides the table.
pub open spec fn shown_report(output: Option<StatusOutput>) -> Report {
    match output {
        Some(StatusOutput::Json) => Report::JsonOnly,
        Some(StatusOutput::SimpleJson) => Report::SimpleJson,
        Some(StatusOutput::Chart) => Report::Chart,
        _ => Report::Table,
    }
}

/// The characters of a string, where there is one.
pub open spec fn shown_text(text: Option<String>) -> Option<Seq<char>> {
    match text {
        Some(text) => Some(text@),
        None => None,
    }
}

impl Status {
    /// Says which test runs the report is about, which columns it shows
    /// and what it prints besides.
    pub fn run_status(&self) -> (plan: StatusPlan)
        ensures
            plan.selection.state == selected_state(self.running, self.passed, self.failed),
            plan.selection.tests_only == self.test,
            plan.selection.labels@ == joined(
                selected_labels(shown_text(self.arch), shown_text(self.variant)),
                ","@,
            ),
            plan.columns@ == shown_columns(self.output),
            plan.report == shown_report(self.output),
    {
        let state = if self.running {
            Some(CrdState::NotFinished)
        } else if self.passed {
            Some(CrdState::Passed)
        } else if self.failed {
            Some(CrdState::Failed)
        } else {
            None
        };
        let mut labels: Vec<String> = Vec::new();
        match &self.arch {
            Some(arch) => {
                let mut label = String::from_str("testsys/arch=");
                label.append(arch.as_str());
                labels.push(label);
            },
            None => {},
        }
        match &self.variant {
            Some(variant) => {
                let mut label = String::from_str("testsys/variant=");
                label.append(variant.as_str());
                labels.push(label);
            },
            None => {},
        }
        proof {
            assert(texts(labels@) =~= selected_labels(
                shown_text(self.arch),
                shown_text(self.variant),
            ));
        }
        let selection = SelectionParams {
            labels: join(&labels, ","),
            state,
            tests_only: self.test,
        };
        let mut columns: Vec<StatusColumn> = Vec::new();
        let report = match self.output {
            Some(StatusOutput::SimpleJson) => Report::SimpleJson,
            Some(StatusOutput::Chart) => Report::Chart,
            Some(StatusOutput::Condensed) => {
                columns.push(StatusColumn::CondensedCrdType);
                columns.push(StatusColumn::CondensedTestType);
                columns.push(StatusColumn::CondensedCluster);
                columns.push(StatusColumn::CondensedArch);
                columns.push(StatusColumn::CondensedVariant);
                columns.push(StatusColumn::CondensedStatus);
                columns.push(StatusColumn::CondensedPassed);
                columns.push(StatusColumn::CondensedFailed);
                columns.push(StatusColumn::CondensedSkipped);
                Report::Table
            },
            other => {
                columns.push(StatusColumn::Name);
                columns.push(StatusColumn::CrdType);
                columns.push(StatusColumn::State);
                columns.push(StatusColumn::Passed);
                columns.push(StatusColumn::Failed);
                columns.push(StatusColumn::Skipped);
                match other {
                    Some(StatusOutput::Json) => Report::JsonOnly,
                    Some(StatusOutput::Narrow) => Report::Table,
                    _ => {
                        columns.push(StatusColumn::BuildId);
                        columns.push(StatusColumn::LastUpdate);
                        Report::Table
                    },
                }
            },
        };
        proof {
            assert(columns@ =~= shown_columns(self.output));
        }
        StatusPlan { selection, columns, report }
    }
}

/// The style in which a chart shows a result: by whether it passed, failed,
/// is an address family, or was skipped. Any other result has no style.
pub open spec fn result_style(result: Seq<char>) -> Seq<char> {
    if result == "pass"@ || result == "passed"@ || result == "Passed"@ {
        "FwBg"@
    } else if result == "error"@ || result == "fail"@ || result == "failed"@ || result
        == "Failed"@ {
        "FdBr"@
    } else if result == "ipv4"@ || result == "ipv6"@ {
        "FdBy"@
    } else if result == "skip"@ || result == "n/a"@ || result == "skipped"@ || result
        == "Skipped"@ {
        "FwBs"@
    } else {
        ""@
    }
}

/// Picks the style in which a chart shows a result.
pub fn color_result(result: &str) -> (style: &'static str)
    ensures
        style@ == result_style(result@),
{
    if text_eq(result, "pass") || text_eq(result, "passed") || text_eq(result, "Passed") {
        "FwBg"
    } else if text_eq(result, "error") || text_eq(result, "fail") || text_eq(result, "failed")
        || text_eq(result, "Failed") {
        "FdBr"
    } else if text_eq(result, "ipv4") || text_eq(result, "ipv6") {
        "FdBy"
    } else if text_eq(result, "skip") || text_eq(result, "n/a") || text_eq(result, "skipped")
        || text_eq(result, "Skipped") {
        "FwBs"
    } else {
        ""
    }
}

/// What a report reads of one object of the cluster.
#[derive(Debug)]
pub struct CrdData {
    /// The kind of the object; tests are of kind `Test`.
    pub crd_type: String,
    /// The type of the test.
    pub test_type: String,
    pub cluster: String,
    pub arch: String,
    pub variant: String,
    /// The state of the run.
    pub status: String,
}

/// What a `CrdData` says.
pub struct CrdDataView {
    pub crd_type: Seq<char>,
    pub test_type: Seq<char>,
    pub cluster: Seq<char>,
    pub arch: Seq<char>,
    pub variant: Seq<char>,
    pub status: Seq<char>,
}

impl View for CrdData {
    type V = CrdDataView;

    open spec fn view(&self) -> CrdDataView {
        CrdDataView {
            crd_type: self.crd_type@,
            test_type: self.test_type@,
            cluster: self.cluster@,
            arch: self.arch@,
            variant: self.variant@,
            status: self.status@,
        }
    }
}

/// The views of a list of objects.
pub open spec fn crd_views(crds: Seq<CrdData>) -> Seq<CrdDataView> {
    crds.map_values(|crd: CrdData| crd@)
}

/// The results of the tests of one variant on one architecture and
/// cluster: named values, each name once.
#[derive(Debug)]
pub struct TestSummary {
    pub variant: String,
    pub arch: String,
    pub cluster: String,
    pub fields: Vec<(String, String)>,
}

/// What a `TestSummary` says.
pub struct TestSummaryView {
    pub variant: Seq<char>,
    pub arch: Seq<char>,
    pub cluster: Seq<char>,
    pub fields: Seq<(Seq<char>, Seq<char>)>,
}

/// The views of a list of named values.
pub open spec fn field_views(fields: Seq<(String, String)>) -> Seq<(Seq<char>, Seq<char>)> {
    fields.map_values(|field: (String, String)| (field.0@, field.1@))
}

impl View for TestSummary {
    type V = TestSummaryView;

    open spec fn view(&self) -> TestSummaryView {
        TestSummaryView {
            variant: self.variant@,
            arch: self.arch@,
            cluster: self.cluster@,
            fields: field_views(self.fields@),
        }
    }
}

/// The views of a list of summaries.
pub open spec fn summary_views(rows: Seq<TestSummary>) -> Seq<TestSummaryView> {
    rows.map_values(|row: TestSummary| row@)
}

/// The place of the first field named `name` among `fields[from..]`, or
/// the length of `fields` where there is none.
pub open spec fn field_index(fields: Seq<(Seq<char>, Seq<char>)>, name: Seq<char>, from: int) -> int
    decreases fields.len() - from,
{
    if from < 0 || from >= fields.len() {
        fields.len() as int
    } else if fields[from].0 == name {
        from
    } else {
        field_index(fields, name, from + 1)
    }
}

/// The place of `name` among fields kept in the order of their names: that
/// of the first of `fields[from..]` whose name does not come before
/// `name`, or the length of `fields`.
pub open spec fn field_place(fields: Seq<(Seq<char>, Seq<char>)>, name: Seq<char>, from: int) -> int
    decreases fields.len() - from,
{
    if from < 0 || from >= fields.len() {
        fields.len() as int
    } else if !text_before(fields[from].0, name) {
        from
    } else {
        field_place(fields, name, from + 1)
    }
}

/// The fields with `name` set to `value`: in the place of the field of
/// that name, or put in at the place that the order of names gives it.
pub open spec fn with_field(fields: Seq<(Seq<char>, Seq<char>)>, name: Seq<char>, value: Seq<
    char,
>) -> Seq<(Seq<char>, Seq<char>)> {
    let at = field_place(fields, name, 0);
    if at < fields.len() && fields[at].0 == name {
        fields.update(at, (name, value))
    } else {
        fields.insert(at, (name, value))
    }
}

impl TestSummaryView {
    /// Whether this summary is for the variant, architecture and cluster
    /// of `crd`.
    pub open spec fn is_for(self, crd: CrdDataView) -> bool {
        self.variant == crd.variant && self.arch == crd.arch && self.cluster == crd.cluster
    }

    /// Whether this summary comes before the one for `crd`: by variant,
    /// then by architecture, then by cluster.
    pub open spec fn comes_before(self, crd: CrdDataView) -> bool {
        ||| text_before(self.variant, crd.variant)
        ||| self.variant == crd.variant && text_before(self.arch, crd.arch)
        ||| self.variant == crd.variant && self.arch == crd.arch && text_before(
            self.cluster,
            crd.cluster,
        )
    }
}

/// The place of the summary for `crd` among summaries kept in order: that
/// of the first of `rows[from..]` that does not come before it, or the
/// length of `rows`.
pub open spec fn summary_place(rows: Seq<TestSummaryView>, crd: CrdDataView, from: int) -> int
    decreases rows.len() - from,
{
    if from < 0 || from >= rows.len() {
        rows.len() as int
    } else if !rows[from].comes_before(crd) {
        from
    } else {
        summary_place(rows, crd, from + 1)
    }
}

/// The summary of a variant, architecture and cluster before any test is
/// entered: no result for any of the five usual test types.
pub open spec fn blank_summary(crd: CrdDataView) -> TestSummaryView {
    TestSummaryView {
        variant: crd.variant,
        arch: crd.arch,
        cluster: crd.cluster,
        fields: seq![
            ("arch"@, crd.arch),
            ("cluster"@, crd.cluster),
            ("conformance"@, "n/a"@),
            ("karpenter"@, "n/a"@),
            ("macis"@, "n/a"@),
            ("migration"@, "n/a"@),
            ("smoke"@, "n/a"@),
            ("variant"@, crd.variant),
        ],
    }
}

/// The result that is entered for a test: its state, but a migration that
/// waits or is in error counts as failed.
pub open spec fn entered_result(crd: CrdDataView) -> Seq<char> {
    if crd.test_type == "migration"@ && (crd.status == "waiting"@ || crd.status == "error"@) {
        "failed"@
    } else {
        crd.status
    }
}

/// The summary with the result of `crd` entered under its type of test.
pub open spec fn with_result(row: TestSummaryView, crd: CrdDataView) -> TestSummaryView {
    TestSummaryView { fields: with_field(row.fields, crd.test_type, entered_result(crd)), ..row }
}

/// The summaries with one more object entered. Only tests are entered: in
/// the summary for their variant, architecture and cluster, which is put
/// in at its place in the order where it is the first of its group.
pub open spec fn with_crd(rows: Seq<TestSummaryView>, crd: CrdDataView) -> Seq<TestSummaryView> {
    if crd.crd_type != "Test"@ {
        rows
    } else {
        let at = summary_place(rows, crd, 0);
        if at < rows.len() && rows[at].is_for(crd) {
            rows.update(at, with_result(rows[at], crd))
        } else {
            rows.insert(at, with_result(blank_summary(crd), crd))
        }
    }
}

/// The summaries of a list of objects, one per variant, architecture and
/// cluster, in the order of these three, each with its fields in the
/// order of their names.
pub open spec fn simple_summaries(crds: Seq<CrdDataView>) -> Seq<TestSummaryView>
    decreases crds.len(),
{
    if crds.len() == 0 {
        Seq::empty()
    } else {
        with_crd(simple_summaries(crds.drop_last()), crds.last())
    }
}

/// Sets `name` to `value` among fields kept in the order of their names.
fn set_field(fields: &mut Vec<(String, String)>, name: String, value: String)
    ensures
        field_views(final(fields)@) == with_field(field_views(old(fields)@), name@, value@),
{
    let mut i: usize = 0;
    while i < fields.len()
        invariant
            i <= fields.len(),
            *fields == *old(fields),
            field_place(field_views(fields@), name@, 0) == field_place(
                field_views(fields@),
                name@,
                i as int,
            ),
        decreases fields.len() - i,
    {
        proof {
            assert(field_views(fields@)[i as int] == (fields@[i as int].0@, fields@[i as int].1@));
        }
        if !before(fields[i].0.as_str(), name.as_str()) {
            if fields[i].0 == name {
                proof {
                    assert(field_views(fields@.update(i as int, (name, value))) =~= field_views(
                        fields@,
                    ).update(i as int, (name@, value@)));
                }
                fields.set(i, (name, value));
            } else {
                proof {
                    assert(field_views(fields@.insert(i as int, (name, value))) =~= field_views(
                        fields@,
                    ).insert(i as int, (name@, value@)));
                }
                fields.insert(i, (name, value));
            }
            return ;
        }
        i += 1;
    }
    proof {
        assert(field_views(fields@.push((name, value))) =~= field_views(fields@).insert(
            fields@.len() as int,
            (name@, value@),
        ));
    }
    fields.push((name, value));
}

/// Whether the summary comes before the one for `crd`.
fn comes_before(row: &TestSummary, crd: &CrdData) -> (first: bool)
    ensures
        first == row@.comes_before(crd@),
{
    if before(row.variant.as_str(), crd.variant.as_str()) {
        return true;
    }
    if row.variant != crd.variant {
        return false;
    }
    if before(row.arch.as_str(), crd.arch.as_str()) {
        return true;
    }
    if row.arch != crd.arch {
        return false;
    }
    before(row.cluster.as_str(), crd.cluster.as_str())
}

/// Finds the place of the summary for `crd`.
fn find_summary(rows: &Vec<TestSummary>, crd: &CrdData) -> (at: usize)
    ensures
        at == summary_place(summary_views(rows@), crd@, 0),
        at <= rows.len(),
{
    let mut at: usize = 0;
    while at < rows.len()
        invariant
            at <= rows.len(),
            summary_place(summary_views(rows@), crd@, 0) == summary_place(
                summary_views(rows@),
                crd@,
                at as int,
            ),
        decreases rows.len() - at,
    {
        proof {
            assert(summary_views(rows@)[at as int] == rows@[at as int]@);
        }
        if !comes_before(&rows[at], crd) {
            return at;
        }
        at += 1;
    }
    at
}

/// A text field of a blank summary.
fn named(name: &str, value: &str) -> (field: (String, String))
    ensures
        field.0@ == name@,
        field.1@ == value@,
{
    (String::from_str(name), String::from_str(value))
}

/// Groups the tests among `crds` by variant, architecture and cluster and
/// enters for each group the result of every type of test. The groups come
/// in the order of variant, architecture and cluster, and the fields of
/// each in the order of their names.
pub fn create_simple_json(crds: &Vec<CrdData>) -> (rows: Vec<TestSummary>)
    ensures
        summary_views(rows@) == simple_summaries(crd_views(crds@)),
{
    let mut rows: Vec<TestSummary> = Vec::new();
    let mut n: usize = 0;
    proof {
        assert(crd_views(crds@).take(0) =~= Seq::empty());
        assert(summary_views(rows@) =~= Seq::empty());
    }
    while n < crds.len()
        invariant
            n <= crds.len(),
            summary_views(rows@) == simple_summaries(crd_views(crds@).take(n as int)),
        decreases crds.len() - n,
    {
        let crd = &crds[n];
        proof {
            let upto = crd_views(crds@).take(n + 1);
            assert(upto.drop_last() =~= crd_views(crds@).take(n as int));
            assert(upto.last() == crd@);
        }
        if text_eq(crd.crd_type.as_str(), "Test") {
            let ghost earlier = summary_views(rows@);
            let at = find_summary(&rows, crd);
            let result = if text_eq(crd.test_type.as_str(), "migration") && (text_eq(
                crd.status.as_str(),
                "waiting",
            ) || text_eq(crd.status.as_str(), "error")) {
                String::from_str("failed")
            } else {
                crd.status.clone()
            };
            let found = at < rows.len() && rows[at].variant == crd.variant && rows[at].arch
                == crd.arch && rows[at].cluster == crd.cluster;
            proof {
                if at < rows.len() {
                    assert(earlier[at as int] == rows@[at as int]@);
                }
            }
            if found {
                let mut row = rows.remove(at);
                set_field(&mut row.fields, crd.test_type.clone(), result);
                proof {
                    assert(summary_views(rows@.insert(at as int, row)) =~= earlier.update(
                        at as int,
                        row@,
                    ));
                }
                rows.insert(at, row);
            } else {
                let mut fields: Vec<(String, String)> = Vec::new();
                fields.push((String::from_str("arch"), crd.arch.clone()));
                fields.push((String::from_str("cluster"), crd.cluster.clone()));
                fields.push(named("conformance", "n/a"));
                fields.push(named("karpenter", "n/a"));
                fields.push(named("macis", "n/a"));
                fields.push(named("migration", "n/a"));
                fields.push(named("smoke", "n/a"));
                fields.push((String::from_str("variant"), crd.variant.clone()));
                proof {
                    assert(field_views(fields@) =~= blank_summary(crd@).fields);
                }
                set_field(&mut fields, crd.test_type.clone(), result);
                let row = TestSummary {
                    variant: crd.variant.clone(),
                    arch: crd.arch.clone(),
                    cluster: crd.cluster.clone(),
                    fields,
                };
                proof {
                    assert(summary_views(rows@.insert(at as int, row)) =~= earlier.insert(
                        at as int,
                        row@,
                    ));
                }
                rows.insert(at, row);
            }
        }
        n += 1;
    }
    proof {
        assert(crd_views(crds@).take(crds@.len() as int) =~= crd_views(crds@));
    }
    rows
}

/// The value of the first field named `name`.
pub open spec fn field_value(fields: Seq<(Seq<char>, Seq<char>)>, name: Seq<char>) -> Option<
    Seq<char>,
> {
    let at = field_index(fields, name, 0);
    if at < fields.len() {
        Some(fields[at].1)
    } else {
        None
    }
}

/// One cell of the chart: its text and the style it is shown in.
#[derive(Debug)]
pub struct ChartCell {
    pub text: String,
    pub style: String,
}

/// What a `ChartCell` says.
pub struct ChartCellView {
    pub text: Seq<char>,
    pub style: Seq<char>,
}

impl View for ChartCell {
    type V = ChartCellView;

    open spec fn view(&self) -> ChartCellView {
        ChartCellView { text: self.text@, style: self.style@ }
    }
}

/// The views of a row of cells.
pub open spec fn cell_views(cells: Seq<ChartCell>) -> Seq<ChartCellView> {
    cells.map_values(|cell: ChartCell| cell@)
}

/// The names of the columns of the chart, in order; the first three are
/// shown plain, the others in the style of their result.
pub open spec fn chart_columns() -> Seq<Seq<char>> {
    seq![
        "cluster"@,
        "variant"@,
        "arch"@,
        "conformance"@,
        "migration"@,
        "smoke"@,
        "karpenter"@,
        "macis"@,
    ]
}

/// The cell of the chart for column `column` of a summary.
pub open spec fn chart_cell(fields: Seq<(Seq<char>, Seq<char>)>, column: int) -> Option<
    ChartCellView,
> {
    match field_value(fields, chart_columns()[column]) {
        Some(text) => Some(
            ChartCellView {
                text,
                style: if column < 3 {
                    ""@
                } else {
                    result_style(text)
                },
            },
        ),
        None => None,
    }
}

/// The first `n` cells of the chart's row for a summary, if it has a
/// field for each of those columns.
pub open spec fn chart_cells(fields: Seq<(Seq<char>, Seq<char>)>, n: int) -> Option<
    Seq<ChartCellView>,
>
    decreases n,
{
    if n <= 0 {
        Some(Seq::empty())
    } else {
        match (chart_cells(fields, n - 1), chart_cell(fields, n - 1)) {
            (Some(before), Some(cell)) => Some(before.push(cell)),
            _ => None,
        }
    }
}

/// A summary that lacks one of the first `n` columns lacks it among more
/// columns too.
pub proof fn lemma_chart_cells_missing(fields: Seq<(Seq<char>, Seq<char>)>, n: int, m: int)
    requires
        0 <= n <= m,
        chart_cells(fields, n).is_none(),
    ensures
        chart_cells(fields, m).is_none(),
    decreases m - n,
{
    if n < m {
        lemma_chart_cells_missing(fields, n, m - 1);
    }
}

impl TestSummary {
    /// The value of the field named `name`.
    pub fn get(&self, name: &str) -> (value: Option<&String>)
        ensures
            match value {
                Some(value) => field_value(self@.fields, name@) == Some(value@),
                None => field_value(self@.fields, name@).is_none(),
            },
    {
        let mut i: usize = 0;
        while i < self.fields.len()
            invariant
                i <= self.fields.len(),
                field_index(self@.fields, name@, 0) == field_index(self@.fields, name@, i as int),
            decreases self.fields.len() - i,
        {
            proof {
                assert(self@.fields[i as int] == (
                    self.fields@[i as int].0@,
                    self.fields@[i as int].1@,
                ));
            }
            if text_eq(self.fields[i].0.as_str(), name) {
                return Some(&self.fields[i].1);
            }
            i += 1;
        }
        None
    }

    /// The row of the chart for this summary: cluster, variant and
    /// architecture, then the results of the five usual types of test, each
    /// in the style of its result. `None` where one of them is missing.
    pub fn chart_row(&self) -> (cells: Option<Vec<ChartCell>>)
        ensures
            match cells {
                Some(cells) => chart_cells(self@.fields, 8) == Some(cell_views(cells@)),
                None => chart_cells(self@.fields, 8).is_none(),
            },
    {
        let columns: [&str; 8] = [
            "cluster",
            "variant",
            "arch",
            "conformance",
            "migration",
            "smoke",
            "karpenter",
            "macis",
        ];
        proof {
            assert(Seq::new(8, |i: int| columns@[i]@) =~= chart_columns());
        }
        let mut cells: Vec<ChartCell> = Vec::new();
        let mut i: usize = 0;
        proof {
            assert(cell_views(cells@) =~= Seq::empty());
        }
        while i < 8
            invariant
                i <= 8,
                forall|k: int| 0 <= k < 8 ==> (#[trigger] columns@[k])@ == chart_columns()[k],
                chart_cells(self@.fields, i as int) == Some(cell_views(cells@)),
            decreases 8 - i,
        {
            let text = match self.get(columns[i]) {
                Some(text) => text,
                None => {
                    proof {
                        lemma_chart_cells_missing(self@.fields, i + 1, 8);
                    }
                    return None;
                },
            };
            let style = if i < 3 {
                String::new()
            } else {
                String::from_str(color_result(text.as_str()))
            };
            let cell = ChartCell { text: text.clone(), style };
            proof {
                assert(cell_views(cells@.push(cell)) =~= cell_views(cells@).push(cell@));
                reveal_strlit("");
                assert(""@ =~= Seq::<char>::empty());
            }
            cells.push(cell);
            i += 1;
        }
        Some(cells)
    }
}

} // verus!
