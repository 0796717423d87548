//! The text of a substrate report: what one navigate pass fired, as the
//! headless `navigate` command prints it and as the inspector panel shows it.

use vstd::prelude::*;

use crate::browser::bookmark::string_views;
use crate::browser::history::first_n;
use crate::location::Url;
use crate::text::{decimal, push_char, push_decimal, push_str};

verus! {

/// A framework that a page was recognised as using, with the detector's
/// confidence already rendered: with two decimals (`0.85`) and as a whole
/// percentage (`85`).
pub struct FrameworkShare {
    pub name: String,
    pub confidence: String,
    pub percent: String,
}

/// The model of a framework share.
pub struct FrameworkShareView {
    pub name: Seq<char>,
    pub confidence: Seq<char>,
    pub percent: Seq<char>,
}

impl View for FrameworkShare {
    type V = FrameworkShareView;

    open spec fn view(&self) -> FrameworkShareView {
        FrameworkShareView { name: self.name@, confidence: self.confidence@, percent: self.percent@ }
    }
}

/// A named state cell or derived value, its value rendered as JSON text.
pub struct ReportCell {
    pub name: String,
    pub value: String,
}

/// The model of a cell.
pub struct ReportCellView {
    pub name: Seq<char>,
    pub value: Seq<char>,
}

impl View for ReportCell {
    type V = ReportCellView;

    open spec fn view(&self) -> ReportCellView {
        ReportCellView { name: self.name@, value: self.value@ }
    }
}

/// What one navigate pass fired, as plain values.
pub struct ReportSummary {
    pub frameworks: Vec<FrameworkShare>,
    pub routes_matched: Option<String>,
    pub queries_dispatched: Vec<String>,
    pub effects_fired: usize,
    pub agents_fired: usize,
    pub transforms_applied: usize,
    pub transform_hits: Vec<String>,
    pub state_snapshot: Vec<ReportCell>,
    pub derived_snapshot: Vec<ReportCell>,
    pub inline_lisp_evaluated: usize,
    pub inline_lisp_failed: usize,
    pub normalize_applied: usize,
    pub normalize_hits: Vec<String>,
    pub wasm_agents_fired: usize,
    pub wasm_agent_hits: Vec<String>,
}

/// The model of a report.
pub struct ReportSummaryView {
    pub frameworks: Seq<FrameworkShareView>,
    pub routes_matched: Option<Seq<char>>,
    pub queries_dispatched: Seq<Seq<char>>,
    pub effects_fired: nat,
    pub agents_fired: nat,
    pub transforms_applied: nat,
    pub transform_hits: Seq<Seq<char>>,
    pub state_snapshot: Seq<ReportCellView>,
    pub derived_snapshot: Seq<ReportCellView>,
    pub inline_lisp_evaluated: nat,
    pub inline_lisp_failed: nat,
    pub normalize_applied: nat,
    pub normalize_hits: Seq<Seq<char>>,
    pub wasm_agents_fired: nat,
    pub wasm_agent_hits: Seq<Seq<char>>,
}

/// The views of a sequence of framework shares.
pub open spec fn share_views(s: Seq<FrameworkShare>) -> Seq<FrameworkShareView> {
    s.map_values(|f: FrameworkShare| f@)
}

/// The views of a sequence of cells.
pub open spec fn cell_views(s: Seq<ReportCell>) -> Seq<ReportCellView> {
    s.map_values(|c: ReportCell| c@)
}

impl View for ReportSummary {
    type V = ReportSummaryView;

    open spec fn view(&self) -> ReportSummaryView {
        ReportSummaryView {
            frameworks: share_views(self.frameworks@),
            routes_matched: match self.routes_matched {
                Some(r) => Some(r@),
                None => None,
            },
            queries_dispatched: string_views(self.queries_dispatched@),
            effects_fired: self.effects_fired as nat,
            agents_fired: self.agents_fired as nat,
            transforms_applied: self.transforms_applied as nat,
            transform_hits: string_views(self.transform_hits@),
            state_snapshot: cell_views(self.state_snapshot@),
            derived_snapshot: cell_views(self.derived_snapshot@),
            inline_lisp_evaluated: self.inline_lisp_evaluated as nat,
            inline_lisp_failed: self.inline_lisp_failed as nat,
            normalize_applied: self.normalize_applied as nat,
            normalize_hits: string_views(self.normalize_hits@),
            wasm_agents_fired: self.wasm_agents_fired as nat,
            wasm_agent_hits: string_views(self.wasm_agent_hits@),
        }
    }
}

/// How many transform hits the inspector lists before it summarises the rest.
pub const INSPECTOR_HIT_LIMIT: usize = 20;

/// How many normalize and WASM-agent hits the inspector lists.
pub const INSPECTOR_SHORT_LIMIT: usize = 10;

/// The column width that cell names are padded to in the inspector.
pub const CELL_NAME_WIDTH: usize = 14;

/// A line break.
pub open spec fn nl() -> Seq<char> {
    "\n"@
}

/// `n` spaces.
pub open spec fn spaces(n: nat) -> Seq<char> {
    Seq::new(n, |i: int| ' ')
}

/// `s` padded on the right with spaces to `width` characters (as `{:<width}`
/// does); longer text stays as it is.
pub open spec fn padded(s: Seq<char>, width: nat) -> Seq<char> {
    if s.len() < width {
        s + spaces((width - s.len()) as nat)
    } else {
        s
    }
}

/// The items with `sep` between each two of them.
pub open spec fn joined(items: Seq<Seq<char>>, sep: Seq<char>) -> Seq<char>
    decreases items.len(),
{
    if items.len() == 0 {
        Seq::empty()
    } else if items.len() == 1 {
        items[0]
    } else {
        joined(items.drop_last(), sep) + sep + items.last()
    }
}

/// Each item on a line of its own, after `lead`.
pub open spec fn item_lines(lead: Seq<char>, items: Seq<Seq<char>>) -> Seq<char>
    decreases items.len(),
{
    if items.len() == 0 {
        Seq::empty()
    } else {
        item_lines(lead, items.drop_last()) + lead + items.last() + nl()
    }
}

/// A framework as the navigate command names it: `name (0.85)`.
pub open spec fn share_label(f: FrameworkShareView) -> Seq<char> {
    f.name + " ("@ + f.confidence + ")"@
}

/// The navigate command's names of the frameworks.
pub open spec fn share_labels(fs: Seq<FrameworkShareView>) -> Seq<Seq<char>> {
    fs.map_values(|f: FrameworkShareView| share_label(f))
}

/// The inspector's framework lines: `  name (85%)`.
pub open spec fn share_lines(fs: Seq<FrameworkShareView>) -> Seq<char>
    decreases fs.len(),
{
    if fs.len() == 0 {
        Seq::empty()
    } else {
        share_lines(fs.drop_last()) + "  "@ + fs.last().name + " ("@ + fs.last().percent + "%)"@ + nl()
    }
}

/// The inspector's cell lines: the name padded to its column, then the value.
pub open spec fn padded_cell_lines(cs: Seq<ReportCellView>) -> Seq<char>
    decreases cs.len(),
{
    if cs.len() == 0 {
        Seq::empty()
    } else {
        padded_cell_lines(cs.drop_last()) + "  "@ + padded(cs.last().name, CELL_NAME_WIDTH as nat)
            + " "@ + cs.last().value + nl()
    }
}

/// The navigate command's cell lines: `  name = value`.
pub open spec fn assigned_cell_lines(cs: Seq<ReportCellView>) -> Seq<char>
    decreases cs.len(),
{
    if cs.len() == 0 {
        Seq::empty()
    } else {
        assigned_cell_lines(cs.drop_last()) + "  "@ + cs.last().name + " = "@ + cs.last().value + nl()
    }
}

/// `text` where `cond` holds, else nothing.
pub open spec fn when(cond: bool, text: Seq<char>) -> Seq<char> {
    if cond {
        text
    } else {
        Seq::empty()
    }
}

/// The summary block that opens the inspector: the counters, with up to ten
/// normalize and WASM-agent hits, the matched route and the queries.
pub open spec fn inspector_summary(r: ReportSummaryView) -> Seq<char> {
    "SUBSTRATE\n─────────\n"@
        + "effects     "@ + decimal(r.effects_fired) + nl()
        + "agents      "@ + decimal(r.agents_fired) + nl()
        + "transforms  "@ + decimal(r.transforms_applied) + nl()
        + "inline-lisp "@ + decimal(r.inline_lisp_evaluated) + " ok · "@ + decimal(r.inline_lisp_failed) + " err\n"@
        + "normalize   "@ + decimal(r.normalize_applied) + nl()
        + item_lines("  · "@, first_n(r.normalize_hits, INSPECTOR_SHORT_LIMIT as int))
        + "wasm-agents "@ + decimal(r.wasm_agents_fired) + nl()
        + item_lines("  · "@, first_n(r.wasm_agent_hits, INSPECTOR_SHORT_LIMIT as int))
        + match r.routes_matched {
            Some(route) => "route       "@ + route + nl(),
            None => Seq::empty(),
        }
        + when(r.queries_dispatched.len() > 0, "queries     "@ + joined(r.queries_dispatched, ", "@) + nl())
}

/// The transform-hit block of the inspector: up to twenty hits, and how many
/// more there are.
pub open spec fn inspector_hits(r: ReportSummaryView) -> Seq<char> {
    when(
        r.transform_hits.len() > 0,
        "\nTRANSFORM HITS\n──────────────\n"@
            + item_lines("  · "@, first_n(r.transform_hits, INSPECTOR_HIT_LIMIT as int))
            + when(
            r.transform_hits.len() > INSPECTOR_HIT_LIMIT,
            "  … +"@ + decimal((r.transform_hits.len() - INSPECTOR_HIT_LIMIT) as nat) + " more\n"@,
        ),
    )
}

/// The inspector panel's text for a report.
pub open spec fn inspector_spec(r: ReportSummaryView) -> Seq<char> {
    inspector_summary(r)
        + when(r.frameworks.len() > 0, "\nFRAMEWORKS\n──────────\n"@ + share_lines(r.frameworks))
        + inspector_hits(r)
        + when(r.state_snapshot.len() > 0, "\nSTATE CELLS\n───────────\n"@ + padded_cell_lines(r.state_snapshot))
        + when(r.derived_snapshot.len() > 0, "\nDERIVED\n───────\n"@ + padded_cell_lines(r.derived_snapshot))
}

/// The rule printed above and below the navigate command's header.
pub open spec fn rule_line() -> Seq<char> {
    "────────────────────────────────────────"@ + nl()
}

/// The header of the navigate command's report: the final URL, the size
/// and the title between two rules.
pub open spec fn navigate_header(final_url: Seq<char>, fetched: nat, title: Option<Seq<char>>) -> Seq<char> {
    rule_line()
        + " namimado navigate  "@ + final_url + nl()
        + " "@ + decimal(fetched) + " bytes fetched\n"@
        + match title {
            Some(t) => " title: "@ + t + nl(),
            None => Seq::empty(),
        }
        + rule_line()
}

/// What the navigate command prints of what matched: the route, the
/// queries and the frameworks.
pub open spec fn navigate_matches(r: ReportSummaryView) -> Seq<char> {
    (match r.routes_matched {
        Some(route) => "route matched:  "@ + route + nl(),
        None => Seq::empty(),
    })
        + when(r.queries_dispatched.len() > 0, "queries:        "@ + joined(r.queries_dispatched, ", "@) + nl())
        + when(r.frameworks.len() > 0, "frameworks:     "@ + joined(share_labels(r.frameworks), ", "@) + nl())
}

/// What the navigate command prints of what fired: the counters, every
/// transform hit, and the state cells and derived values.
pub open spec fn navigate_fired(r: ReportSummaryView) -> Seq<char> {
    "effects fired:  "@ + decimal(r.effects_fired) + nl()
        + "agents fired:   "@ + decimal(r.agents_fired) + nl()
        + "transforms:     "@ + decimal(r.transforms_applied) + nl()
        + item_lines("  • "@, r.transform_hits)
        + when(r.state_snapshot.len() > 0, "state cells:\n"@ + assigned_cell_lines(r.state_snapshot))
        + when(r.derived_snapshot.len() > 0, "derived values:\n"@ + assigned_cell_lines(r.derived_snapshot))
}

/// The lines that the headless navigate command prints for a page at
/// `final_url`, `fetched` bytes long, titled `title`.
pub open spec fn navigate_report_spec(
    final_url: Seq<char>,
    fetched: nat,
    title: Option<Seq<char>>,
    r: ReportSummaryView,
) -> Seq<char> {
    navigate_header(final_url, fetched, title) + navigate_matches(r) + navigate_fired(r)
}

/// Appends a line break.
fn push_nl(out: &mut String)
    ensures
        final(out)@ == old(out)@ + nl(),
{
    push_str(out, "\n");
}

/// Appends the first `limit` items (all, when there are fewer), each on a
/// line of its own after `lead`.
fn push_item_lines(out: &mut String, lead: &str, items: &Vec<String>, limit: usize)
    ensures
        final(out)@ == old(out)@ + item_lines(lead@, first_n(string_views(items@), limit as int)),
{
    let n = if limit < items.len() { limit } else { items.len() };
    let ghost all = string_views(items@);
    let ghost base = old(out)@;
    let mut i: usize = 0;
    while i < n
        invariant
            i <= n,
            n <= items@.len(),
            n == if (limit as int) < items@.len() { limit as int } else { items@.len() as int },
            all == string_views(items@),
            out@ == base + item_lines(lead@, all.take(i as int)),
        decreases n - i,
    {
        proof {
            assert(all.take(i + 1).drop_last() =~= all.take(i as int));
            assert(all.take(i + 1).last() == items@[i as int]@);
        }
        push_str(out, lead);
        push_str(out, items[i].as_str());
        push_nl(out);
        proof {
            assert(out@ =~= base + item_lines(lead@, all.take(i + 1)));
        }
        i = i + 1;
    }
    proof {
        assert(all.take(n as int) =~= first_n(all, limit as int));
    }
}

/// Appends the items with `sep` between each two.
fn push_joined(out: &mut String, items: &Vec<String>, sep: &str)
    ensures
        final(out)@ == old(out)@ + joined(string_views(items@), sep@),
{
    let ghost all = string_views(items@);
    let ghost base = old(out)@;
    let mut i: usize = 0;
    while i < items.len()
        invariant
            i <= items@.len(),
            all == string_views(items@),
            out@ == base + joined(all.take(i as int), sep@),
        decreases items@.len() - i,
    {
        proof {
            assert(all.take(i + 1).drop_last() =~= all.take(i as int));
            assert(all.take(i + 1).last() == items@[i as int]@);
        }
        if i > 0 {
            push_str(out, sep);
        }
        push_str(out, items[i].as_str());
        proof {
            if i == 0 {
                assert(all.take(1)[0] == items@[0]@);
            }
            assert(out@ =~= base + joined(all.take(i + 1), sep@));
        }
        i = i + 1;
    }
    proof {
        assert(all.take(items@.len() as int) =~= all);
    }
}

/// Appends the navigate command's names of the frameworks, comma-separated.
fn push_share_labels(out: &mut String, fs: &Vec<FrameworkShare>)
    ensures
        final(out)@ == old(out)@ + joined(share_labels(share_views(fs@)), ", "@),
{
    let ghost all = share_labels(share_views(fs@));
    let ghost base = old(out)@;
    let mut i: usize = 0;
    while i < fs.len()
        invariant
            i <= fs@.len(),
            all == share_labels(share_views(fs@)),
            out@ == base + joined(all.take(i as int), ", "@),
        decreases fs@.len() - i,
    {
        let f = &fs[i];
        proof {
            assert(all.take(i + 1).drop_last() =~= all.take(i as int));
            assert(all.take(i + 1).last() == share_label(f@));
        }
        let ghost before = out@;
        if i > 0 {
            push_str(out, ", ");
        }
        let ghost mid = out@;
        push_str(out, f.name.as_str());
        push_str(out, " (");
        push_str(out, f.confidence.as_str());
        push_str(out, ")");
        proof {
            assert(out@ =~= mid + share_label(f@));
            if i == 0 {
                assert(all.take(1)[0] == share_label(f@));
            }
            assert(out@ =~= base + joined(all.take(i + 1), ", "@));
        }
        i = i + 1;
    }
    proof {
        assert(all.take(fs@.len() as int) =~= all);
    }
}

/// Appends the inspector's framework lines.
fn push_share_lines(out: &mut String, fs: &Vec<FrameworkShare>)
    ensures
        final(out)@ == old(out)@ + share_lines(share_views(fs@)),
{
    let ghost all = share_views(fs@);
    let ghost base = old(out)@;
    let mut i: usize = 0;
    while i < fs.len()
        invariant
            i <= fs@.len(),
            all == share_views(fs@),
            out@ == base + share_lines(all.take(i as int)),
        decreases fs@.len() - i,
    {
        let f = &fs[i];
        proof {
            assert(all.take(i + 1).drop_last() =~= all.take(i as int));
            assert(all.take(i + 1).last() == f@);
        }
        push_str(out, "  ");
        push_str(out, f.name.as_str());
        push_str(out, " (");
        push_str(out, f.percent.as_str());
        push_str(out, "%)");
        push_nl(out);
        proof {
            assert(out@ =~= base + share_lines(all.take(i + 1)));
        }
        i = i + 1;
    }
    proof {
        assert(all.take(fs@.len() as int) =~= all);
    }
}

/// Appends `s` padded with spaces to `width` characters.
fn push_padded(out: &mut String, s: &str, width: usize)
    ensures
        final(out)@ == old(out)@ + padded(s@, width as nat),
{
    push_str(out, s);
    let n = s.unicode_len();
    if n < width {
        let mut k: usize = n;
        let ghost mid = out@;
        while k < width
            invariant
                n <= k <= width,
                n == s@.len(),
                out@ == mid + spaces((k - n) as nat),
            decreases width - k,
        {
            push_char(out, ' ');
            proof {
                assert(out@ =~= mid + spaces((k + 1 - n) as nat));
            }
            k = k + 1;
        }
        proof {
            assert(out@ =~= old(out)@ + padded(s@, width as nat));
        }
    }
}

/// Appends the cell lines, with the name padded to its column (`padded`) or
/// followed by ` = `.
fn push_cell_lines(out: &mut String, cs: &Vec<ReportCell>, pad: bool)
    ensures
        final(out)@ == old(out)@ + if pad {
            padded_cell_lines(cell_views(cs@))
        } else {
            assigned_cell_lines(cell_views(cs@))
        },
{
    let ghost all = cell_views(cs@);
    let ghost base = old(out)@;
    let mut i: usize = 0;
    while i < cs.len()
        invariant
            i <= cs@.len(),
            all == cell_views(cs@),
            out@ == base + if pad {
                padded_cell_lines(all.take(i as int))
            } else {
                assigned_cell_lines(all.take(i as int))
            },
        decreases cs@.len() - i,
    {
        let c = &cs[i];
        proof {
            assert(all.take(i + 1).drop_last() =~= all.take(i as int));
            assert(all.take(i + 1).last() == c@);
        }
        push_str(out, "  ");
        if pad {
            push_padded(out, c.name.as_str(), CELL_NAME_WIDTH);
            push_str(out, " ");
        } else {
            push_str(out, c.name.as_str());
            push_str(out, " = ");
        }
        push_str(out, c.value.as_str());
        push_nl(out);
        proof {
            if pad {
                assert(out@ =~= base + padded_cell_lines(all.take(i + 1)));
            } else {
                assert(out@ =~= base + assigned_cell_lines(all.take(i + 1)));
            }
        }
        i = i + 1;
    }
    proof {
        assert(all.take(cs@.len() as int) =~= all);
    }
}

/// Appends a counter line: `label` and then the number.
fn push_count_line(out: &mut String, label: &str, n: usize)
    ensures
        final(out)@ == old(out)@ + label@ + decimal(n as nat) + nl(),
{
    push_str(out, label);
    push_decimal(out, n as u64);
    push_nl(out);
}

/// The opening block of the inspector text.
fn inspector_summary_text(r: &ReportSummary) -> (res: String)
    ensures
        res@ == inspector_summary(r@),
{
    let mut out = String::new();
    push_str(&mut out, "SUBSTRATE\n─────────\n");
    push_count_line(&mut out, "effects     ", r.effects_fired);
    push_count_line(&mut out, "agents      ", r.agents_fired);
    push_count_line(&mut out, "transforms  ", r.transforms_applied);
    push_str(&mut out, "inline-lisp ");
    push_decimal(&mut out, r.inline_lisp_evaluated as u64);
    push_str(&mut out, " ok · ");
    push_decimal(&mut out, r.inline_lisp_failed as u64);
    push_str(&mut out, " err\n");
    push_count_line(&mut out, "normalize   ", r.normalize_applied);
    push_item_lines(&mut out, "  · ", &r.normalize_hits, INSPECTOR_SHORT_LIMIT);
    push_count_line(&mut out, "wasm-agents ", r.wasm_agents_fired);
    push_item_lines(&mut out, "  · ", &r.wasm_agent_hits, INSPECTOR_SHORT_LIMIT);
    let ghost before_route = out@;
    match &r.routes_matched {
        Some(route) => {
            push_str(&mut out, "route       ");
            push_str(&mut out, route.as_str());
            push_nl(&mut out);
        },
        None => {},
    }
    let ghost before_queries = out@;
    if r.queries_dispatched.len() > 0 {
        push_str(&mut out, "queries     ");
        push_joined(&mut out, &r.queries_dispatched, ", ");
        push_nl(&mut out);
    }
    proof {
        assert(before_queries =~= before_route + match r@.routes_matched {
            Some(route) => "route       "@ + route + nl(),
            None => Seq::empty(),
        });
        assert(out@ =~= inspector_summary(r@));
    }
    out
}

/// The transform-hit block of the inspector text.
fn inspector_hits_text(r: &ReportSummary) -> (res: String)
    ensures
        res@ == inspector_hits(r@),
{
    let mut out = String::new();
    if r.transform_hits.len() > 0 {
        push_str(&mut out, "\nTRANSFORM HITS\n──────────────\n");
        push_item_lines(&mut out, "  · ", &r.transform_hits, INSPECTOR_HIT_LIMIT);
        let ghost listed = out@;
        if r.transform_hits.len() > INSPECTOR_HIT_LIMIT {
            push_str(&mut out, "  … +");
            push_decimal(&mut out, (r.transform_hits.len() - INSPECTOR_HIT_LIMIT) as u64);
            push_str(&mut out, " more\n");
        }
        proof {
            assert(out@ =~= inspector_hits(r@));
        }
    } else {
        proof {
            assert(out@ =~= inspector_hits(r@));
        }
    }
    out
}

/// The inspector panel's text for a report: the counters, the frameworks
/// with their confidence as a percentage, up to twenty transform hits (and
/// how many more there are), and the state cells and derived values with
/// their names in a column.
pub fn inspector_text(r: &ReportSummary) -> (res: String)
    ensures
        res@ == inspector_spec(r@),
{
    let mut out = inspector_summary_text(r);
    let ghost s1 = out@;
    if r.frameworks.len() > 0 {
        push_str(&mut out, "\nFRAMEWORKS\n──────────\n");
        push_share_lines(&mut out, &r.frameworks);
    }
    let ghost s2 = out@;
    let hits = inspector_hits_text(r);
    push_str(&mut out, hits.as_str());
    let ghost s3 = out@;
    if r.state_snapshot.len() > 0 {
        push_str(&mut out, "\nSTATE CELLS\n───────────\n");
        push_cell_lines(&mut out, &r.state_snapshot, true);
    }
    let ghost s4 = out@;
    if r.derived_snapshot.len() > 0 {
        push_str(&mut out, "\nDERIVED\n───────\n");
        push_cell_lines(&mut out, &r.derived_snapshot, true);
    }
    proof {
        assert(s2 =~= s1 + when(r@.frameworks.len() > 0, "\nFRAMEWORKS\n──────────\n"@ + share_lines(r@.frameworks)));
        assert(s4 =~= s3 + when(
            r@.state_snapshot.len() > 0,
            "\nSTATE CELLS\n───────────\n"@ + padded_cell_lines(r@.state_snapshot),
        ));
        assert(out@ =~= s4 + when(
            r@.derived_snapshot.len() > 0,
            "\nDERIVED\n───────\n"@ + padded_cell_lines(r@.derived_snapshot),
        ));
        assert(out@ =~= inspector_spec(r@));
    }
    out
}

/// The header of the navigate command's report.
fn navigate_header_text(final_url: &Url, fetched_bytes: usize, title: Option<&str>) -> (res: String)
    ensures
        res@ == navigate_header(
            final_url@.text,
            fetched_bytes as nat,
            match title {
                Some(t) => Some(t@),
                None => None,
            },
        ),
{
    let mut out = String::new();
    push_str(&mut out, "────────────────────────────────────────");
    push_nl(&mut out);
    push_str(&mut out, " namimado navigate  ");
    push_str(&mut out, final_url.as_str());
    push_nl(&mut out);
    push_str(&mut out, " ");
    push_decimal(&mut out, fetched_bytes as u64);
    push_str(&mut out, " bytes fetched\n");
    let ghost before_title = out@;
    match title {
        Some(t) => {
            push_str(&mut out, " title: ");
            push_str(&mut out, t);
            push_nl(&mut out);
        },
        None => {},
    }
    let ghost after_title = out@;
    push_str(&mut out, "────────────────────────────────────────");
    push_nl(&mut out);
    proof {
        assert(after_title =~= before_title + match title {
            Some(t) => " title: "@ + t@ + nl(),
            None => Seq::empty(),
        });
        assert(out@ =~= after_title + rule_line());
    }
    out
}

/// What the navigate command prints of what matched.
fn navigate_matches_text(r: &ReportSummary) -> (res: String)
    ensures
        res@ == navigate_matches(r@),
{
    let mut out = String::new();
    match &r.routes_matched {
        Some(route) => {
            push_str(&mut out, "route matched:  ");
            push_str(&mut out, route.as_str());
            push_nl(&mut out);
        },
        None => {},
    }
    let ghost s1 = out@;
    if r.queries_dispatched.len() > 0 {
        push_str(&mut out, "queries:        ");
        push_joined(&mut out, &r.queries_dispatched, ", ");
        push_nl(&mut out);
    }
    let ghost s2 = out@;
    if r.frameworks.len() > 0 {
        push_str(&mut out, "frameworks:     ");
        push_share_labels(&mut out, &r.frameworks);
        push_nl(&mut out);
    }
    proof {
        let rv = r@;
        assert(s1 =~= match rv.routes_matched {
            Some(route) => "route matched:  "@ + route + nl(),
            None => Seq::empty(),
        });
        assert(s2 =~= s1 + when(
            rv.queries_dispatched.len() > 0,
            "queries:        "@ + joined(rv.queries_dispatched, ", "@) + nl(),
        ));
        assert(out@ =~= s2 + when(
            rv.frameworks.len() > 0,
            "frameworks:     "@ + joined(share_labels(rv.frameworks), ", "@) + nl(),
        ));
    }
    out
}

/// What the navigate command prints of what fired.
fn navigate_fired_text(r: &ReportSummary) -> (res: String)
    ensures
        res@ == navigate_fired(r@),
{
    let mut out = String::new();
    push_count_line(&mut out, "effects fired:  ", r.effects_fired);
    push_count_line(&mut out, "agents fired:   ", r.agents_fired);
    push_count_line(&mut out, "transforms:     ", r.transforms_applied);
    push_item_lines(&mut out, "  • ", &r.transform_hits, r.transform_hits.len());
    let ghost s4 = out@;
    if r.state_snapshot.len() > 0 {
        push_str(&mut out, "state cells:\n");
        push_cell_lines(&mut out, &r.state_snapshot, false);
    }
    let ghost s5 = out@;
    if r.derived_snapshot.len() > 0 {
        push_str(&mut out, "derived values:\n");
        push_cell_lines(&mut out, &r.derived_snapshot, false);
    }
    proof {
        let rv = r@;
        assert(first_n(rv.transform_hits, r.transform_hits.len() as int) =~= rv.transform_hits);
        assert(s5 =~= s4 + when(
            rv.state_snapshot.len() > 0,
            "state cells:\n"@ + assigned_cell_lines(rv.state_snapshot),
        ));
        assert(out@ =~= s5 + when(
            rv.derived_snapshot.len() > 0,
            "derived values:\n"@ + assigned_cell_lines(rv.derived_snapshot),
        ));
        assert(out@ =~= navigate_fired(rv));
    }
    out
}

/// What the headless `navigate` command prints for a page at `final_url`,
/// `fetched_bytes` long, titled `title`: a header between two rules, the
/// matched route, the queries, the frameworks with their confidence, the
/// counters, every transform hit, and the state cells and derived values.
pub fn navigate_report_text(
    final_url: &Url,
    fetched_bytes: usize,
    title: Option<&str>,
    r: &ReportSummary,
) -> (res: String)
    ensures
        res@ == navigate_report_spec(
            final_url@.text,
            fetched_bytes as nat,
            match title {
                Some(t) => Some(t@),
                None => None,
            },
            r@,
        ),
{
    let mut out = navigate_header_text(final_url, fetched_bytes, title);
    let matched = navigate_matches_text(r);
    push_str(&mut out, matched.as_str());
    let fired = navigate_fired_text(r);
    push_str(&mut out, fired.as_str());
    out
}

} // verus!
