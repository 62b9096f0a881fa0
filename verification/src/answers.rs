//! The text each tool answers with, built from the summaries of the API's
//! answers.

use vstd::prelude::*;
use crate::application::{ApplicationDetailOutput, ApplicationSummaryOutput};
use crate::diff::ServerSideDiffSummary;
use crate::tree::{ResourceNodeSummary, ResourceTreeSummary};
use crate::events::{EventListSummary, EventSummary};
use crate::logs::{level_name, AnalyzedLogEntry, LogLevel, PodLogsSummary};
use crate::manifests::{ManifestSummary, ParsedManifest};
use crate::revision::{ApplicationHistorySummary, RevisionHistorySummary, RevisionMetadataSummary};
use crate::operations::{
    ApplicationRollbackSummary, ApplicationSyncSummary, ApplicationSyncWindow, ApplicationSyncWindowsSummary,
    RefreshApplicationSummary,
};
use crate::manifests::ApplicationResourceSummary;
use crate::report::{
    first_n, indented_lines, list_line, opt_signed_line, push_indented_lines, push_opt_signed_line, push_top_counts,
    top_counts_text, opt_bool_line, opt_count_line, opt_wrapped, pair_lines, push_list_line, push_opt_bool_line,
    push_opt_count_line, push_opt_wrapped, push_pair_lines,
    bool_text, count_string, counts_text, joined, opt_line, push_bool, push_count, push_counts, push_joined,
    push_opt_line, push_rule, push_if, rule, only_if, double_rule, push_double_rule,
};
use crate::tally::{counts_view, string_views};
use crate::text::{append_signed, debug_quoted, debug_text, decimal, lines, lines_of, signed_decimal};

verus! {

/// The answer of a tool: its text, and whether the summary it was built
/// from follows as JSON data.
pub struct ToolAnswer {
    pub text: String,
    pub with_data: bool,
}

/// The block that carries a summary as JSON data after the text.
pub open spec fn data_block_text(json: Seq<char>) -> Seq<char> {
    "\n--- JSON Data ---\n"@ + json
}

/// The block that carries a summary as JSON data after the text.
pub fn data_block(json: &str) -> (r: String)
    ensures
        r@ == data_block_text(json@),
{
    let mut out = "\n--- JSON Data ---\n".to_owned();
    out.append(json);
    out
}

/// A number followed by `. `, counting from one.
pub open spec fn ordinal(i: nat) -> Seq<char> {
    decimal(i + 1) + ". "@
}

fn ordinal_string(i: usize) -> (r: String)
    requires
        i < usize::MAX,
    ensures
        r@ == ordinal(i as nat),
{
    let mut s = count_string(i + 1);
    s.append(". ");
    s
}

// ---------------------------------------------------------------------
// list_applications
// ---------------------------------------------------------------------

/// The entry of one application in the list.
pub open spec fn app_entry_text(i: nat, app: ApplicationSummaryOutput) -> Seq<char> {
    ordinal(i) + app.name@ + "\n"@ + opt_line("   Project: "@, app.project) + opt_line("   Repository: "@, app.repo_url)
        + opt_line("   Target Revision: "@, app.target_revision)
        + opt_line("   Destination Server: "@, app.destination_server)
        + opt_line("   Destination Namespace: "@, app.destination_namespace)
        + opt_line("   Sync Status: "@, app.sync_status) + opt_line("   Health Status: "@, app.health_status)
        + only_if(app.auto_sync == Some(true), "   Auto Sync: Enabled\n"@) + "\n"@
}

/// The entries of the applications in the list, numbered from one.
pub open spec fn app_entries_text(apps: Seq<ApplicationSummaryOutput>) -> Seq<char>
    decreases apps.len(),
{
    if apps.len() == 0 {
        Seq::empty()
    } else {
        app_entries_text(apps.drop_last()) + app_entry_text((apps.len() - 1) as nat, apps.last())
    }
}

/// The text of `list_applications`.
pub open spec fn list_applications_text(apps: Seq<ApplicationSummaryOutput>) -> Seq<char> {
    if apps.len() == 0 {
        "No applications found matching the criteria"@
    } else {
        "Found "@ + decimal(apps.len()) + " application(s):\n\n"@ + app_entries_text(apps)
    }
}

fn app_entry(i: usize, app: &ApplicationSummaryOutput) -> (r: String)
    requires
        i < usize::MAX,
    ensures
        r@ == app_entry_text(i as nat, *app),
{
    let mut out = ordinal_string(i);
    out.append(app.name.as_str());
    out.append("\n");
    push_opt_line(&mut out, "   Project: ", &app.project);
    push_opt_line(&mut out, "   Repository: ", &app.repo_url);
    push_opt_line(&mut out, "   Target Revision: ", &app.target_revision);
    push_opt_line(&mut out, "   Destination Server: ", &app.destination_server);
    push_opt_line(&mut out, "   Destination Namespace: ", &app.destination_namespace);
    push_opt_line(&mut out, "   Sync Status: ", &app.sync_status);
    push_opt_line(&mut out, "   Health Status: ", &app.health_status);
    push_if(&mut out, app.auto_sync == Some(true), "   Auto Sync: Enabled\n");
    out.append("\n");
    out
}

/// The answer of `list_applications`; the summaries follow as data unless
/// there are none.
pub fn list_applications_answer(apps: &Vec<ApplicationSummaryOutput>) -> (r: ToolAnswer)
    ensures
        r.text@ == list_applications_text(apps@),
        r.with_data == (apps@.len() > 0),
{
    if apps.len() == 0 {
        return ToolAnswer { text: "No applications found matching the criteria".to_owned(), with_data: false };
    }
    let mut out = "Found ".to_owned();
    push_count(&mut out, apps.len());
    out.append(" application(s):\n\n");
    let ghost start = out@;
    let n = apps.len();
    assert(start + app_entries_text(apps@.take(0)) =~= start);
    for i in 0..n
        invariant
            n == apps@.len(),
            out@ == start + app_entries_text(apps@.take(i as int)),
    {
        let entry = app_entry(i, &apps[i]);
        out.append(entry.as_str());
        proof {
            assert(apps@.take(i + 1).drop_last() =~= apps@.take(i as int));
            assert(out@ =~= start + app_entries_text(apps@.take(i + 1)));
        }
    }
    assert(apps@.take(n as int) =~= apps@);
    ToolAnswer { text: out, with_data: true }
}


// ---------------------------------------------------------------------
// list_application_names
// ---------------------------------------------------------------------

/// The numbered lines of application names.
pub open spec fn name_lines(names: Seq<String>) -> Seq<char>
    decreases names.len(),
{
    if names.len() == 0 {
        Seq::empty()
    } else {
        name_lines(names.drop_last()) + ordinal((names.len() - 1) as nat) + names.last()@ + "\n"@
    }
}

/// The names as `{:?}` writes them, each quoted.
pub open spec fn debug_views(names: Seq<String>) -> Seq<Seq<char>> {
    names.map_values(|s: String| debug_text(s@))
}

/// The text of `list_application_names`: a numbered list, then the names
/// as an array.
pub open spec fn list_application_names_text(names: Seq<String>) -> Seq<char> {
    if names.len() == 0 {
        "No applications found matching the criteria"@
    } else {
        "Found "@ + decimal(names.len()) + " application(s):\n\n"@ + name_lines(names)
            + "\n--- Application Names Array ---\n"@ + "["@ + joined(debug_views(names), ", "@) + "]"@
    }
}

/// The answer of `list_application_names` (its text only).
pub fn list_application_names_answer(names: &Vec<String>) -> (r: String)
    ensures
        r@ == list_application_names_text(names@),
{
    if names.len() == 0 {
        return "No applications found matching the criteria".to_owned();
    }
    let mut out = "Found ".to_owned();
    push_count(&mut out, names.len());
    out.append(" application(s):\n\n");
    let ghost start = out@;
    let n = names.len();
    assert(start + name_lines(names@.take(0)) =~= start);
    let mut quoted: Vec<String> = Vec::new();
    for i in 0..n
        invariant
            n == names@.len(),
            out@ == start + name_lines(names@.take(i as int)),
            quoted@.len() == i,
            string_views(quoted@) == debug_views(names@.take(i as int)),
    {
        let o = ordinal_string(i);
        out.append(o.as_str());
        out.append(names[i].as_str());
        out.append("\n");
        let ghost before = quoted@;
        quoted.push(debug_quoted(names[i].as_str()));
        proof {
            assert(forall|j: int| 0 <= j < i ==> #[trigger] string_views(quoted@)[j] == string_views(before)[j]);
            assert(forall|j: int| 0 <= j < i ==> #[trigger] debug_views(names@.take(i + 1))[j] == debug_views(names@.take(i as int))[j]);
            assert(names@.take(i + 1).drop_last() =~= names@.take(i as int));
            assert(out@ =~= start + name_lines(names@.take(i + 1)));
            assert(string_views(quoted@) =~= debug_views(names@.take(i + 1)));
        }
    }
    assert(names@.take(n as int) =~= names@);
    out.append("\n--- Application Names Array ---\n");
    out.append("[");
    push_joined(&mut out, &quoted, ", ");
    out.append("]");
    out
}

// ---------------------------------------------------------------------
// server_side_diff
// ---------------------------------------------------------------------

/// The number of diffs whose `modified` flag is `m`.
pub open spec fn count_modified(s: Seq<ServerSideDiffSummary>, m: bool) -> nat
    decreases s.len(),
{
    if s.len() == 0 {
        0
    } else {
        count_modified(s.drop_last(), m) + if s.last().modified == m { 1nat } else { 0nat }
    }
}

/// The line of one resource of a diff: numbered, with its kind and
/// namespace; a modified one also with its status.
pub open spec fn diff_line(i: nat, d: ServerSideDiffSummary) -> Seq<char> {
    ordinal(i) + d.resource_name@ + " ("@ + d.kind@ + ")"@ + opt_wrapped(" in namespace '"@, d.namespace, "'"@) + "\n"@
        + if d.modified { opt_line("   Status: "@, d.diff_summary) } else { Seq::empty() }
}

/// The lines of the resources whose `modified` flag is `m`, numbered among them.
pub open spec fn diff_lines(s: Seq<ServerSideDiffSummary>, m: bool) -> Seq<char>
    decreases s.len(),
{
    if s.len() == 0 {
        Seq::empty()
    } else {
        diff_lines(s.drop_last(), m) + if s.last().modified == m {
            diff_line(count_modified(s.drop_last(), m), s.last())
        } else {
            Seq::empty()
        }
    }
}

/// The text of `server_side_diff`: counts, then the modified resources,
/// then those in sync.
pub open spec fn server_side_diff_text(app_name: Seq<char>, s: Seq<ServerSideDiffSummary>) -> Seq<char> {
    if s.len() == 0 {
        "No resources found for application '"@ + app_name + "'"@
    } else {
        let modified = count_modified(s, true);
        "Server-Side Diff for application '"@ + app_name + "'\n"@ + "Total resources: "@ + decimal(s.len())
            + ", Modified: "@ + decimal(modified) + ", In sync: "@ + decimal((s.len() - modified) as nat) + "\n\n"@
            + "Modified Resources:\n"@
            + (if modified == 0 { "  (none)\n\n"@ } else { diff_lines(s, true) + "\n"@ })
            + "In Sync Resources:\n"@
            + (if count_modified(s, false) == 0 { "  (none)\n"@ } else { diff_lines(s, false) })
    }
}

proof fn lemma_count_modified(s: Seq<ServerSideDiffSummary>)
    ensures
        count_modified(s, true) + count_modified(s, false) == s.len(),
    decreases s.len(),
{
    if s.len() > 0 {
        lemma_count_modified(s.drop_last());
    }
}

fn diff_line_string(i: usize, d: &ServerSideDiffSummary) -> (r: String)
    requires
        i < usize::MAX,
    ensures
        r@ == diff_line(i as nat, *d),
{
    let mut out = ordinal_string(i);
    out.append(d.resource_name.as_str());
    out.append(" (");
    out.append(d.kind.as_str());
    out.append(")");
    push_opt_wrapped(&mut out, " in namespace '", &d.namespace, "'");
    out.append("\n");
    if d.modified {
        push_opt_line(&mut out, "   Status: ", &d.diff_summary);
    } else {
        assert(out@ + Seq::<char>::empty() =~= out@);
    }
    out
}

fn push_diff_lines(out: &mut String, s: &Vec<ServerSideDiffSummary>, m: bool) -> (count: usize)
    ensures
        final(out)@ == old(out)@ + diff_lines(s@, m),
        count == count_modified(s@, m),
{
    let ghost start = out@;
    let mut k: usize = 0;
    let n = s.len();
    assert(start + diff_lines(s@.take(0), m) =~= start);
    for i in 0..n
        invariant
            n == s@.len(),
            k == count_modified(s@.take(i as int), m),
            k <= i,
            out@ == start + diff_lines(s@.take(i as int), m),
    {
        proof {
            assert(s@.take(i + 1).drop_last() =~= s@.take(i as int));
        }
        if s[i].modified == m {
            let line = diff_line_string(k, &s[i]);
            out.append(line.as_str());
            k = k + 1;
        }
        proof {
            assert(out@ =~= start + diff_lines(s@.take(i + 1), m));
        }
    }
    assert(s@.take(n as int) =~= s@);
    k
}

/// The answer of `server_side_diff`; the summaries follow as data unless
/// there are none.
pub fn server_side_diff_answer(app_name: &str, s: &Vec<ServerSideDiffSummary>) -> (r: ToolAnswer)
    ensures
        r.text@ == server_side_diff_text(app_name@, s@),
        r.with_data == (s@.len() > 0),
{
    if s.len() == 0 {
        let mut out = "No resources found for application '".to_owned();
        out.append(app_name);
        out.append("'");
        return ToolAnswer { text: out, with_data: false };
    }
    let mut scratch = String::new();
    let modified = push_diff_lines(&mut scratch, s, true);
    proof {
        lemma_count_modified(s@);
    }
    let total = s.len();
    let mut out = "Server-Side Diff for application '".to_owned();
    out.append(app_name);
    out.append("'\n");
    out.append("Total resources: ");
    push_count(&mut out, total);
    out.append(", Modified: ");
    push_count(&mut out, modified);
    out.append(", In sync: ");
    push_count(&mut out, total - modified);
    out.append("\n\n");
    out.append("Modified Resources:\n");
    let ghost before_modified = out@;
    if modified == 0 {
        out.append("  (none)\n\n");
    } else {
        push_diff_lines(&mut out, s, true);
        out.append("\n");
    }
    assert(out@ =~= before_modified + (if modified == 0 { "  (none)\n\n"@ } else { diff_lines(s@, true) + "\n"@ }));
    out.append("In Sync Resources:\n");
    let ghost before_in_sync = out@;
    if total - modified == 0 {
        out.append("  (none)\n");
    } else {
        push_diff_lines(&mut out, s, false);
    }
    assert(out@ =~= before_in_sync + (if count_modified(s@, false) == 0 { "  (none)\n"@ } else { diff_lines(s@, false) }));
    ToolAnswer { text: out, with_data: true }
}

// ---------------------------------------------------------------------
// get_application
// ---------------------------------------------------------------------

/// The sync policy part of an application's detail, when it has one.
pub open spec fn sync_policy_text(d: ApplicationDetailOutput) -> Seq<char> {
    only_if(
        d.auto_sync_enabled is Some || d.auto_sync_prune is Some || d.auto_sync_self_heal is Some,
        "\nSync Policy:\n"@ + only_if(d.auto_sync_enabled == Some(true), "  Auto Sync: Enabled\n"@)
            + opt_bool_line("  Auto Prune: "@, d.auto_sync_prune) + opt_bool_line("  Self Heal: "@, d.auto_sync_self_heal),
    )
}

/// The labels part of an application's detail, when it has labels.
pub open spec fn labels_text(labels: Option<Vec<(String, String)>>) -> Seq<char> {
    match labels {
        Some(l) => only_if(l@.len() > 0, "\nLabels:\n"@ + pair_lines(l@, "  "@)),
        None => Seq::empty(),
    }
}

/// The text of `get_application`.
pub open spec fn get_application_text(d: ApplicationDetailOutput) -> Seq<char> {
    "Application: "@ + d.name@ + "\n\n"@ + opt_line("Namespace: "@, d.namespace) + opt_line("Project: "@, d.project)
        + opt_line("Created: "@, d.creation_timestamp) + "\nSource:\n"@ + opt_line("  Repository: "@, d.repo_url)
        + opt_line("  Path: "@, d.path) + opt_line("  Chart: "@, d.chart)
        + opt_line("  Target Revision: "@, d.target_revision) + "\nDestination:\n"@
        + opt_line("  Server: "@, d.destination_server) + opt_line("  Namespace: "@, d.destination_namespace)
        + opt_line("  Name: "@, d.destination_name) + "\nStatus:\n"@ + opt_line("  Sync Status: "@, d.sync_status)
        + opt_line("  Sync Revision: "@, d.sync_revision) + opt_line("  Health Status: "@, d.health_status)
        + opt_line("  Health Message: "@, d.health_message) + sync_policy_text(d) + labels_text(d.labels)
}

fn sync_policy_string(d: &ApplicationDetailOutput) -> (r: String)
    ensures
        r@ == sync_policy_text(*d),
{
    let mut p = "\nSync Policy:\n".to_owned();
    push_if(&mut p, d.auto_sync_enabled == Some(true), "  Auto Sync: Enabled\n");
    push_opt_bool_line(&mut p, "  Auto Prune: ", d.auto_sync_prune);
    push_opt_bool_line(&mut p, "  Self Heal: ", d.auto_sync_self_heal);
    let mut out = String::new();
    push_if(&mut out, d.auto_sync_enabled.is_some() || d.auto_sync_prune.is_some() || d.auto_sync_self_heal.is_some(), p.as_str());
    assert(out@ =~= sync_policy_text(*d));
    out
}

fn labels_string(labels: &Option<Vec<(String, String)>>) -> (r: String)
    ensures
        r@ == labels_text(*labels),
{
    match labels {
        Some(l) => {
            let mut p = "\nLabels:\n".to_owned();
            push_pair_lines(&mut p, l, "  ", l.len());
            assert(first_n(l@, l@.len()) =~= l@);
            let mut out = String::new();
            push_if(&mut out, l.len() > 0, p.as_str());
            assert(out@ =~= labels_text(*labels));
            out
        },
        None => String::new(),
    }
}

/// The answer of `get_application`; the detail follows as data.
pub fn get_application_answer(d: &ApplicationDetailOutput) -> (r: ToolAnswer)
    ensures
        r.text@ == get_application_text(*d),
        r.with_data,
{
    let mut out = "Application: ".to_owned();
    out.append(d.name.as_str());
    out.append("\n\n");
    push_opt_line(&mut out, "Namespace: ", &d.namespace);
    push_opt_line(&mut out, "Project: ", &d.project);
    push_opt_line(&mut out, "Created: ", &d.creation_timestamp);
    out.append("\nSource:\n");
    push_opt_line(&mut out, "  Repository: ", &d.repo_url);
    push_opt_line(&mut out, "  Path: ", &d.path);
    push_opt_line(&mut out, "  Chart: ", &d.chart);
    push_opt_line(&mut out, "  Target Revision: ", &d.target_revision);
    out.append("\nDestination:\n");
    push_opt_line(&mut out, "  Server: ", &d.destination_server);
    push_opt_line(&mut out, "  Namespace: ", &d.destination_namespace);
    push_opt_line(&mut out, "  Name: ", &d.destination_name);
    out.append("\nStatus:\n");
    push_opt_line(&mut out, "  Sync Status: ", &d.sync_status);
    push_opt_line(&mut out, "  Sync Revision: ", &d.sync_revision);
    push_opt_line(&mut out, "  Health Status: ", &d.health_status);
    push_opt_line(&mut out, "  Health Message: ", &d.health_message);
    let policy = sync_policy_string(d);
    out.append(policy.as_str());
    let labels = labels_string(&d.labels);
    out.append(labels.as_str());
    ToolAnswer { text: out, with_data: true }
}

// ---------------------------------------------------------------------
// resource_tree
// ---------------------------------------------------------------------

/// The parents part of a node's line: their number when there are some.
pub open spec fn parents_text(p: Option<usize>) -> Seq<char> {
    match p {
        Some(c) => only_if(c > 0, " - "@ + decimal(c as nat) + " parent(s)"@),
        None => Seq::empty(),
    }
}

/// The images part of a node's line, when it has images.
pub open spec fn images_text(images: Option<Vec<String>>) -> Seq<char> {
    match images {
        Some(v) => only_if(v@.len() > 0, "\n   Images: "@ + joined(string_views(v@), ", "@)),
        None => Seq::empty(),
    }
}

/// The line of one sample node.
pub open spec fn node_line(i: nat, n: ResourceNodeSummary) -> Seq<char> {
    ordinal(i) + n.name@ + " ("@ + n.kind@ + ")"@ + opt_wrapped(" in namespace '"@, n.namespace, "'"@)
        + opt_wrapped(" - Health: "@, n.health_status, ""@) + parents_text(n.parent_count) + images_text(n.images) + "\n"@
}

/// The numbered lines of the sample nodes.
pub open spec fn node_lines(s: Seq<ResourceNodeSummary>) -> Seq<char>
    decreases s.len(),
{
    if s.len() == 0 {
        Seq::empty()
    } else {
        node_lines(s.drop_last()) + node_line((s.len() - 1) as nat, s.last())
    }
}

/// The text of `resource_tree`.
pub open spec fn resource_tree_text(app_name: Seq<char>, t: ResourceTreeSummary) -> Seq<char> {
    "Resource Tree for application '"@ + app_name + "'\n"@ + "Total resources: "@ + decimal(t.total_nodes as nat) + "\n"@
        + "Orphaned resources: "@ + decimal(t.orphaned_nodes_count as nat) + "\n\n"@ + "Resources by Kind:\n"@
        + counts_text(counts_view(t.nodes_by_kind@)) + "\n"@ + "Health Summary:\n"@
        + counts_text(counts_view(t.health_summary@)) + "\n"@
        + only_if(t.sample_nodes@.len() > 0, "Sample Resources (showing up to 10):\n"@ + node_lines(t.sample_nodes@))
}

fn parents_string(p: Option<usize>) -> (r: String)
    ensures
        r@ == parents_text(p),
{
    match p {
        Some(c) => {
            let mut t = " - ".to_owned();
            push_count(&mut t, c);
            t.append(" parent(s)");
            let mut out = String::new();
            push_if(&mut out, c > 0, t.as_str());
            assert(out@ =~= parents_text(p));
            out
        },
        None => String::new(),
    }
}

fn images_string(images: &Option<Vec<String>>) -> (r: String)
    ensures
        r@ == images_text(*images),
{
    match images {
        Some(v) => {
            let mut t = "\n   Images: ".to_owned();
            push_joined(&mut t, v, ", ");
            let mut out = String::new();
            push_if(&mut out, v.len() > 0, t.as_str());
            assert(out@ =~= images_text(*images));
            out
        },
        None => String::new(),
    }
}

fn node_line_string(i: usize, n: &ResourceNodeSummary) -> (r: String)
    requires
        i < usize::MAX,
    ensures
        r@ == node_line(i as nat, *n),
{
    let mut out = ordinal_string(i);
    out.append(n.name.as_str());
    out.append(" (");
    out.append(n.kind.as_str());
    out.append(")");
    push_opt_wrapped(&mut out, " in namespace '", &n.namespace, "'");
    push_opt_wrapped(&mut out, " - Health: ", &n.health_status, "");
    let p = parents_string(n.parent_count);
    out.append(p.as_str());
    let im = images_string(&n.images);
    out.append(im.as_str());
    out.append("\n");
    out
}

/// The answer of `resource_tree`; the summary follows as data.
pub fn resource_tree_answer(app_name: &str, t: &ResourceTreeSummary) -> (r: ToolAnswer)
    ensures
        r.text@ == resource_tree_text(app_name@, *t),
        r.with_data,
{
    let mut out = "Resource Tree for application '".to_owned();
    out.append(app_name);
    out.append("'\n");
    out.append("Total resources: ");
    push_count(&mut out, t.total_nodes);
    out.append("\n");
    out.append("Orphaned resources: ");
    push_count(&mut out, t.orphaned_nodes_count);
    out.append("\n\n");
    out.append("Resources by Kind:\n");
    push_counts(&mut out, &t.nodes_by_kind);
    out.append("\n");
    out.append("Health Summary:\n");
    push_counts(&mut out, &t.health_summary);
    out.append("\n");
    let mut sample = "Sample Resources (showing up to 10):\n".to_owned();
    let ghost head = sample@;
    let n = t.sample_nodes.len();
    assert(head + node_lines(t.sample_nodes@.take(0)) =~= head);
    for i in 0..n
        invariant
            n == t.sample_nodes@.len(),
            sample@ == head + node_lines(t.sample_nodes@.take(i as int)),
    {
        let line = node_line_string(i, &t.sample_nodes[i]);
        sample.append(line.as_str());
        proof {
            assert(t.sample_nodes@.take(i + 1).drop_last() =~= t.sample_nodes@.take(i as int));
            assert(sample@ =~= head + node_lines(t.sample_nodes@.take(i + 1)));
        }
    }
    assert(t.sample_nodes@.take(n as int) =~= t.sample_nodes@);
    push_if(&mut out, n > 0, sample.as_str());
    ToolAnswer { text: out, with_data: true }
}


// ---------------------------------------------------------------------
// list_resource_events
// ---------------------------------------------------------------------

/// The number of events listed one by one at most.
pub const EVENT_LIMIT: usize = 20;

/// The number of reasons listed at most.
pub const REASON_LIMIT: usize = 10;

/// The object part of an event's line: ` - kind`, and `/name` when named.
pub open spec fn involved_text(e: EventSummary) -> Seq<char> {
    match e.involved_object_kind {
        Some(k) => " - "@ + k@ + opt_wrapped("/"@, e.involved_object_name, ""@),
        None => Seq::empty(),
    }
}

/// The count line of an event that happened more than once.
pub open spec fn event_count_text(c: Option<i32>) -> Seq<char> {
    match c {
        Some(n) => only_if(n > 1, "   Count: "@ + signed_decimal(n as int) + "\n"@),
        None => Seq::empty(),
    }
}

/// The timestamps line of an event: the first, and the last when it differs.
pub open spec fn timestamps_text(first: Option<String>, last: Option<String>) -> Seq<char> {
    match first {
        Some(f) => "   First: "@ + f@ + match last {
            Some(l) => only_if(f@ != l@, " | Last: "@ + l@),
            None => Seq::empty(),
        } + "\n"@,
        None => Seq::empty(),
    }
}

/// The lines of one event.
pub open spec fn event_text(i: nat, e: EventSummary) -> Seq<char> {
    "\n"@ + ordinal(i) + opt_wrapped("["@, e.event_type, "] "@) + opt_wrapped(""@, e.reason, ""@) + involved_text(e) + "\n"@
        + opt_line("   Message: "@, e.message) + event_count_text(e.count)
        + timestamps_text(e.first_timestamp, e.last_timestamp) + opt_line("   Source: "@, e.source_component)
}

/// The numbered lines of events.
pub open spec fn event_texts(s: Seq<EventSummary>) -> Seq<char>
    decreases s.len(),
{
    if s.len() == 0 {
        Seq::empty()
    } else {
        event_texts(s.drop_last()) + event_text((s.len() - 1) as nat, s.last())
    }
}

/// The text of `list_resource_events`: counts by type, the most frequent
/// reasons, then the first events.
pub open spec fn list_resource_events_text(app_name: Seq<char>, s: EventListSummary) -> Seq<char> {
    let types = counts_view(s.events_by_type@);
    let reasons = counts_view(s.events_by_reason@);
    if s.total_events == 0 {
        "No events found for application '"@ + app_name + "'"@
    } else {
        "Events for application '"@ + app_name + "'\n"@ + "Total events: "@ + decimal(s.total_events as nat) + "\n\n"@
            + only_if(types.len() > 0, "Events by Type:\n"@ + counts_text(types) + "\n"@)
            + only_if(reasons.len() > 0, "Events by Reason:\n"@ + top_counts_text(reasons, REASON_LIMIT as nat)
                + only_if(reasons.len() > REASON_LIMIT, "  ... and "@ + decimal((reasons.len() - REASON_LIMIT) as nat) + " more\n"@)
                + "\n"@)
            + "Recent Events (showing up to "@ + decimal(EVENT_LIMIT as nat) + "):\n"@
            + event_texts(first_n(s.events@, EVENT_LIMIT as nat))
            + only_if(s.total_events > EVENT_LIMIT, "\n... and "@ + decimal((s.total_events - EVENT_LIMIT) as nat)
                + " more events (total: "@ + decimal(s.total_events as nat) + ")\n"@)
    }
}

fn involved_string(e: &EventSummary) -> (r: String)
    ensures
        r@ == involved_text(*e),
{
    match &e.involved_object_kind {
        Some(k) => {
            let mut out = " - ".to_owned();
            out.append(k.as_str());
            push_opt_wrapped(&mut out, "/", &e.involved_object_name, "");
            out
        },
        None => String::new(),
    }
}

fn event_count_string(c: Option<i32>) -> (r: String)
    ensures
        r@ == event_count_text(c),
{
    match c {
        Some(n) => {
            let mut t = "   Count: ".to_owned();
            append_signed(&mut t, n as i64);
            t.append("\n");
            let mut out = String::new();
            push_if(&mut out, n > 1, t.as_str());
            assert(out@ =~= event_count_text(c));
            out
        },
        None => String::new(),
    }
}

fn timestamps_string(first: &Option<String>, last: &Option<String>) -> (r: String)
    ensures
        r@ == timestamps_text(*first, *last),
{
    match first {
        Some(f) => {
            let mut out = "   First: ".to_owned();
            out.append(f.as_str());
            let ghost mid = out@;
            match last {
                Some(l) => {
                    let mut t = " | Last: ".to_owned();
                    t.append(l.as_str());
                    push_if(&mut out, *f != *l, t.as_str());
                },
                None => {
                    assert(out@ =~= mid + Seq::<char>::empty());
                },
            }
            out.append("\n");
            out
        },
        None => String::new(),
    }
}

fn event_string(i: usize, e: &EventSummary) -> (r: String)
    requires
        i < usize::MAX,
    ensures
        r@ == event_text(i as nat, *e),
{
    let mut out = "\n".to_owned();
    let o = ordinal_string(i);
    out.append(o.as_str());
    push_opt_wrapped(&mut out, "[", &e.event_type, "] ");
    push_opt_wrapped(&mut out, "", &e.reason, "");
    let inv = involved_string(e);
    out.append(inv.as_str());
    out.append("\n");
    push_opt_line(&mut out, "   Message: ", &e.message);
    let c = event_count_string(e.count);
    out.append(c.as_str());
    let ts = timestamps_string(&e.first_timestamp, &e.last_timestamp);
    out.append(ts.as_str());
    push_opt_line(&mut out, "   Source: ", &e.source_component);
    out
}

/// The answer of `list_resource_events`; the summary follows as data
/// unless there are no events.
pub fn list_resource_events_answer(app_name: &str, s: &EventListSummary) -> (r: ToolAnswer)
    ensures
        r.text@ == list_resource_events_text(app_name@, *s),
        r.with_data == (s.total_events > 0),
{
    if s.total_events == 0 {
        let mut out = "No events found for application '".to_owned();
        out.append(app_name);
        out.append("'");
        return ToolAnswer { text: out, with_data: false };
    }
    let mut out = "Events for application '".to_owned();
    out.append(app_name);
    out.append("'\n");
    out.append("Total events: ");
    push_count(&mut out, s.total_events);
    out.append("\n\n");
    let mut types = "Events by Type:\n".to_owned();
    push_counts(&mut types, &s.events_by_type);
    types.append("\n");
    push_if(&mut out, s.events_by_type.len() > 0, types.as_str());
    let mut reasons = "Events by Reason:\n".to_owned();
    push_top_counts(&mut reasons, &s.events_by_reason, REASON_LIMIT);
    let n_reasons = s.events_by_reason.len();
    let mut more = "  ... and ".to_owned();
    if n_reasons > REASON_LIMIT {
        push_count(&mut more, n_reasons - REASON_LIMIT);
    } else {
        push_count(&mut more, 0);
    }
    more.append(" more\n");
    push_if(&mut reasons, n_reasons > REASON_LIMIT, more.as_str());
    reasons.append("\n");
    push_if(&mut out, n_reasons > 0, reasons.as_str());
    out.append("Recent Events (showing up to ");
    push_count(&mut out, EVENT_LIMIT);
    out.append("):\n");
    let ghost head = out@;
    let n = if s.events.len() <= EVENT_LIMIT { s.events.len() } else { EVENT_LIMIT };
    assert(head + event_texts(s.events@.take(0)) =~= head);
    for i in 0..n
        invariant
            n <= s.events@.len(),
            out@ == head + event_texts(s.events@.take(i as int)),
    {
        let line = event_string(i, &s.events[i]);
        out.append(line.as_str());
        proof {
            assert(s.events@.take(i + 1).drop_last() =~= s.events@.take(i as int));
            assert(out@ =~= head + event_texts(s.events@.take(i + 1)));
        }
    }
    assert(s.events@.take(n as int) =~= first_n(s.events@, EVENT_LIMIT as nat));
    let mut tail = "\n... and ".to_owned();
    if s.total_events > EVENT_LIMIT {
        push_count(&mut tail, s.total_events - EVENT_LIMIT);
    } else {
        push_count(&mut tail, 0);
    }
    tail.append(" more events (total: ");
    push_count(&mut tail, s.total_events);
    tail.append(")\n");
    push_if(&mut out, s.total_events > EVENT_LIMIT, tail.as_str());
    ToolAnswer { text: out, with_data: true }
}

// ---------------------------------------------------------------------
// pod_logs
// ---------------------------------------------------------------------

/// The marker shown before a log line of each level.
pub open spec fn level_marker(l: LogLevel) -> Seq<char> {
    match l {
        LogLevel::Fatal => "\u{1f480}"@,
        LogLevel::Error => "\u{274c}"@,
        LogLevel::Warning => "\u{26a0}\u{fe0f} "@,
        LogLevel::Info => "\u{2139}\u{fe0f} "@,
        LogLevel::Debug => "\u{1f41b}"@,
        LogLevel::Unknown => "  "@,
    }
}

/// The lines of one log entry; all but the last of `total` entries are
/// followed by an empty line.
pub open spec fn log_text(i: nat, total: nat, e: AnalyzedLogEntry) -> Seq<char> {
    level_marker(e.level) + opt_wrapped("["@, e.timestamp, "] "@) + " "@ + level_name(e.level)
        + only_if(e.level != LogLevel::Unknown, ": "@) + "\n"@ + "   "@ + e.content@ + "\n"@ + only_if(i + 1 < total, "\n"@)
}

/// The lines of the log entries.
pub open spec fn log_texts(s: Seq<AnalyzedLogEntry>, total: nat) -> Seq<char>
    decreases s.len(),
{
    if s.len() == 0 {
        Seq::empty()
    } else {
        log_texts(s.drop_last(), total) + log_text((s.len() - 1) as nat, total, s.last())
    }
}

/// The statistics part of a log answer, when there is an error, a warning
/// or a potential issue.
pub open spec fn log_analysis_text(s: PodLogsSummary) -> Seq<char> {
    only_if(
        s.error_count > 0 || s.warning_count > 0 || s.potential_issue_count > 0,
        "\n\u{1f4ca} Log Analysis:\n"@ + only_if(s.error_count > 0, "  \u{274c} Errors: "@ + decimal(s.error_count as nat) + "\n"@)
            + only_if(s.warning_count > 0, "  \u{26a0}\u{fe0f}  Warnings: "@ + decimal(s.warning_count as nat) + "\n"@)
            + only_if(s.potential_issue_count > 0, "  \u{1f50d} Potential Issues: "@ + decimal(s.potential_issue_count as nat) + "\n"@),
    )
}

/// The text of `pod_logs`, given the arguments and the number of lines
/// asked for.
pub open spec fn pod_logs_text(args_pod: Option<String>, args_container: Option<String>, errors_only: bool,
    app_name: Seq<char>, s: PodLogsSummary, tail_lines: Option<i64>) -> Seq<char> {
    if s.total_lines == 0 {
        "No logs found for application '"@ + app_name + "'"@ + opt_wrapped(" pod '"@, args_pod, "'"@)
            + opt_wrapped(" container '"@, args_container, "'"@) + only_if(errors_only, " (no errors or warnings detected)"@)
    } else {
        "Pod Logs for application '"@ + app_name + "'\n"@ + opt_line("Pod: "@, s.pod_name) + opt_line("Container: "@, s.container)
            + opt_signed_line("Tail Lines: "@, s.tail_lines) + "\nTotal lines: "@ + decimal(s.total_lines as nat) + "\n"@
            + only_if(s.filtered, "\u{1f50d} Filtered to show errors and potential issues only\n"@) + log_analysis_text(s)
            + only_if(s.logs_by_level@.len() > 0, "\nLogs by Level:\n"@ + counts_text(counts_view(s.logs_by_level@)))
            + "\n\u{1f4dd} Log Entries (showing "@ + decimal(s.total_lines as nat) + "):\n"@ + rule() + "\n"@
            + log_texts(s.log_entries@, s.total_lines as nat) + rule() + "\n"@
            + only_if(!s.filtered && (s.error_count > 0 || s.potential_issue_count > 0),
                "\n\u{1f4a1} Tip: Use 'errors_only: true' to filter "@ + decimal(s.error_count as nat) + " errors and "@
                    + decimal(s.potential_issue_count as nat) + " potential issues\n"@)
            + only_if(s.total_lines >= 100 && tail_lines == Some(100i64),
                "\n\u{1f4a1} Tip: Increase 'tail_lines' to see more logs or use 'since_seconds' for time-based filtering\n"@)
    }
}

fn log_string(i: usize, total: usize, e: &AnalyzedLogEntry) -> (r: String)
    requires
        i < usize::MAX,
    ensures
        r@ == log_text(i as nat, total as nat, *e),
{
    let mut out = match e.level {
        LogLevel::Fatal => "\u{1f480}".to_owned(),
        LogLevel::Error => "\u{274c}".to_owned(),
        LogLevel::Warning => "\u{26a0}\u{fe0f} ".to_owned(),
        LogLevel::Info => "\u{2139}\u{fe0f} ".to_owned(),
        LogLevel::Debug => "\u{1f41b}".to_owned(),
        LogLevel::Unknown => "  ".to_owned(),
    };
    push_opt_wrapped(&mut out, "[", &e.timestamp, "] ");
    out.append(" ");
    out.append(e.level.as_str());
    push_if(&mut out, e.level != LogLevel::Unknown, ": ");
    out.append("\n");
    out.append("   ");
    out.append(e.content.as_str());
    out.append("\n");
    push_if(&mut out, i + 1 < total, "\n");
    out
}

fn log_analysis_string(s: &PodLogsSummary) -> (r: String)
    ensures
        r@ == log_analysis_text(*s),
{
    let mut e = "  \u{274c} Errors: ".to_owned();
    push_count(&mut e, s.error_count);
    e.append("\n");
    let mut w = "  \u{26a0}\u{fe0f}  Warnings: ".to_owned();
    push_count(&mut w, s.warning_count);
    w.append("\n");
    let mut p = "  \u{1f50d} Potential Issues: ".to_owned();
    push_count(&mut p, s.potential_issue_count);
    p.append("\n");
    let mut block = "\n\u{1f4ca} Log Analysis:\n".to_owned();
    push_if(&mut block, s.error_count > 0, e.as_str());
    push_if(&mut block, s.warning_count > 0, w.as_str());
    push_if(&mut block, s.potential_issue_count > 0, p.as_str());
    let mut out = String::new();
    push_if(&mut out, s.error_count > 0 || s.warning_count > 0 || s.potential_issue_count > 0, block.as_str());
    assert(out@ =~= log_analysis_text(*s));
    out
}

/// The answer of `pod_logs`; the summary follows as data unless no line was found.
pub fn pod_logs_answer(args: &crate::tools::PodLogsArgs, s: &PodLogsSummary, tail_lines: Option<i64>) -> (r: ToolAnswer)
    ensures
        r.text@ == pod_logs_text(args.pod_name, args.container, args.errors_only, args.application_name@, *s, tail_lines),
        r.with_data == (s.total_lines > 0),
{
    if s.total_lines == 0 {
        let mut out = "No logs found for application '".to_owned();
        out.append(args.application_name.as_str());
        out.append("'");
        push_opt_wrapped(&mut out, " pod '", &args.pod_name, "'");
        push_opt_wrapped(&mut out, " container '", &args.container, "'");
        push_if(&mut out, args.errors_only, " (no errors or warnings detected)");
        return ToolAnswer { text: out, with_data: false };
    }
    let total = s.total_lines;
    let mut out = "Pod Logs for application '".to_owned();
    out.append(args.application_name.as_str());
    out.append("'\n");
    push_opt_line(&mut out, "Pod: ", &s.pod_name);
    push_opt_line(&mut out, "Container: ", &s.container);
    push_opt_signed_line(&mut out, "Tail Lines: ", s.tail_lines);
    out.append("\nTotal lines: ");
    push_count(&mut out, total);
    out.append("\n");
    push_if(&mut out, s.filtered, "\u{1f50d} Filtered to show errors and potential issues only\n");
    let analysis = log_analysis_string(s);
    out.append(analysis.as_str());
    let mut levels = "\nLogs by Level:\n".to_owned();
    push_counts(&mut levels, &s.logs_by_level);
    push_if(&mut out, s.logs_by_level.len() > 0, levels.as_str());
    out.append("\n\u{1f4dd} Log Entries (showing ");
    push_count(&mut out, total);
    out.append("):\n");
    push_rule(&mut out);
    out.append("\n");
    let ghost head = out@;
    let n = s.log_entries.len();
    assert(head + log_texts(s.log_entries@.take(0), total as nat) =~= head);
    for i in 0..n
        invariant
            n == s.log_entries@.len(),
            out@ == head + log_texts(s.log_entries@.take(i as int), total as nat),
    {
        let line = log_string(i, total, &s.log_entries[i]);
        out.append(line.as_str());
        proof {
            assert(s.log_entries@.take(i + 1).drop_last() =~= s.log_entries@.take(i as int));
            assert(out@ =~= head + log_texts(s.log_entries@.take(i + 1), total as nat));
        }
    }
    assert(s.log_entries@.take(n as int) =~= s.log_entries@);
    push_rule(&mut out);
    out.append("\n");
    let mut tip = "\n\u{1f4a1} Tip: Use 'errors_only: true' to filter ".to_owned();
    push_count(&mut tip, s.error_count);
    tip.append(" errors and ");
    push_count(&mut tip, s.potential_issue_count);
    tip.append(" potential issues\n");
    push_if(&mut out, !s.filtered && (s.error_count > 0 || s.potential_issue_count > 0), tip.as_str());
    push_if(&mut out, total >= 100 && tail_lines == Some(100i64),
        "\n\u{1f4a1} Tip: Increase 'tail_lines' to see more logs or use 'since_seconds' for time-based filtering\n");
    ToolAnswer { text: out, with_data: true }
}


// ---------------------------------------------------------------------
// get_manifests
// ---------------------------------------------------------------------

/// The number of lines of a manifest shown in its preview.
pub const MANIFEST_PREVIEW_LINES: usize = 5;

/// The entry of one manifest: numbered, with kind, API version and name,
/// its namespace, and the first lines of its text.
pub open spec fn manifest_text(i: nat, m: ParsedManifest) -> Seq<char> {
    let ls = lines(m.raw_yaml@);
    "\n"@ + ordinal(i) + m.kind@ + " - "@ + m.api_version@ + "/"@ + m.name@ + "\n"@
        + opt_line("   Namespace: "@, m.namespace) + "   Preview:\n"@
        + indented_lines(first_n(ls, MANIFEST_PREVIEW_LINES as nat), "   "@)
        + only_if(ls.len() > MANIFEST_PREVIEW_LINES, "   ... ("@ + decimal((ls.len() - MANIFEST_PREVIEW_LINES) as nat) + " more lines)\n"@)
}

/// The entries of the manifests.
pub open spec fn manifest_texts(s: Seq<ParsedManifest>) -> Seq<char>
    decreases s.len(),
{
    if s.len() == 0 {
        Seq::empty()
    } else {
        manifest_texts(s.drop_last()) + manifest_text((s.len() - 1) as nat, s.last())
    }
}

/// The numbered commands that generated the manifests.
pub open spec fn command_lines(s: Seq<String>) -> Seq<char>
    decreases s.len(),
{
    if s.len() == 0 {
        Seq::empty()
    } else {
        command_lines(s.drop_last()) + "  "@ + ordinal((s.len() - 1) as nat) + s.last()@ + "\n"@
    }
}

/// The commands part of a manifests answer, when commands were reported.
pub open spec fn commands_text(c: Option<Vec<String>>) -> Seq<char> {
    match c {
        Some(v) => only_if(v@.len() > 0, "\nCommands used to generate manifests ("@ + decimal(v@.len()) + "):\n"@ + command_lines(v@)),
        None => Seq::empty(),
    }
}

/// The text of `get_manifests`.
pub open spec fn get_manifests_text(app_name: Seq<char>, s: ManifestSummary) -> Seq<char> {
    if s.total_manifests == 0 {
        "No manifests found for application '"@ + app_name + "'"@
    } else {
        "Manifests for application '"@ + app_name + "'\n"@ + opt_line("Revision: "@, s.revision)
            + opt_line("Namespace: "@, s.namespace) + opt_line("Server: "@, s.server) + opt_line("Source Type: "@, s.source_type)
            + "\nTotal manifests: "@ + decimal(s.total_manifests as nat) + "\n"@
            + only_if(s.manifests_by_kind@.len() > 0, "\nManifests by Kind:\n"@ + counts_text(counts_view(s.manifests_by_kind@)))
            + commands_text(s.commands) + "\n\u{1f4c4} Manifest Summaries ("@ + decimal(s.total_manifests as nat) + ")\n"@
            + rule() + "\n"@ + manifest_texts(s.manifests@) + "\n"@ + rule() + "\n"@
            + "\n\u{1f4a1} Tip: Use this to review what will be deployed and validate configurations\n"@
    }
}

fn manifest_string(i: usize, m: &ParsedManifest) -> (r: String)
    requires
        i < usize::MAX,
    ensures
        r@ == manifest_text(i as nat, *m),
{
    let ls = lines_of(m.raw_yaml.as_str());
    let mut out = "\n".to_owned();
    let o = ordinal_string(i);
    out.append(o.as_str());
    out.append(m.kind.as_str());
    out.append(" - ");
    out.append(m.api_version.as_str());
    out.append("/");
    out.append(m.name.as_str());
    out.append("\n");
    push_opt_line(&mut out, "   Namespace: ", &m.namespace);
    out.append("   Preview:\n");
    push_indented_lines(&mut out, &ls, "   ", MANIFEST_PREVIEW_LINES);
    let mut more = "   ... (".to_owned();
    if ls.len() > MANIFEST_PREVIEW_LINES {
        push_count(&mut more, ls.len() - MANIFEST_PREVIEW_LINES);
    } else {
        push_count(&mut more, 0);
    }
    more.append(" more lines)\n");
    push_if(&mut out, ls.len() > MANIFEST_PREVIEW_LINES, more.as_str());
    out
}

fn commands_string(c: &Option<Vec<String>>) -> (r: String)
    ensures
        r@ == commands_text(*c),
{
    match c {
        Some(v) => {
            let mut block = "\nCommands used to generate manifests (".to_owned();
            push_count(&mut block, v.len());
            block.append("):\n");
            let ghost head = block@;
            let n = v.len();
            assert(head + command_lines(v@.take(0)) =~= head);
            for i in 0..n
                invariant
                    n == v@.len(),
                    block@ == head + command_lines(v@.take(i as int)),
            {
                block.append("  ");
                let o = ordinal_string(i);
                block.append(o.as_str());
                block.append(v[i].as_str());
                block.append("\n");
                proof {
                    assert(v@.take(i + 1).drop_last() =~= v@.take(i as int));
                    assert(block@ =~= head + command_lines(v@.take(i + 1)));
                }
            }
            assert(v@.take(n as int) =~= v@);
            let mut out = String::new();
            push_if(&mut out, n > 0, block.as_str());
            assert(out@ =~= commands_text(*c));
            out
        },
        None => String::new(),
    }
}

/// The answer of `get_manifests`; the summary follows as data unless there
/// are no manifests.
pub fn get_manifests_answer(app_name: &str, s: &ManifestSummary) -> (r: ToolAnswer)
    ensures
        r.text@ == get_manifests_text(app_name@, *s),
        r.with_data == (s.total_manifests > 0),
{
    if s.total_manifests == 0 {
        let mut out = "No manifests found for application '".to_owned();
        out.append(app_name);
        out.append("'");
        return ToolAnswer { text: out, with_data: false };
    }
    let mut out = "Manifests for application '".to_owned();
    out.append(app_name);
    out.append("'\n");
    push_opt_line(&mut out, "Revision: ", &s.revision);
    push_opt_line(&mut out, "Namespace: ", &s.namespace);
    push_opt_line(&mut out, "Server: ", &s.server);
    push_opt_line(&mut out, "Source Type: ", &s.source_type);
    out.append("\nTotal manifests: ");
    push_count(&mut out, s.total_manifests);
    out.append("\n");
    let mut kinds = "\nManifests by Kind:\n".to_owned();
    push_counts(&mut kinds, &s.manifests_by_kind);
    push_if(&mut out, s.manifests_by_kind.len() > 0, kinds.as_str());
    let commands = commands_string(&s.commands);
    out.append(commands.as_str());
    out.append("\n\u{1f4c4} Manifest Summaries (");
    push_count(&mut out, s.total_manifests);
    out.append(")\n");
    push_rule(&mut out);
    out.append("\n");
    let ghost head = out@;
    let n = s.manifests.len();
    assert(head + manifest_texts(s.manifests@.take(0)) =~= head);
    for i in 0..n
        invariant
            n == s.manifests@.len(),
            out@ == head + manifest_texts(s.manifests@.take(i as int)),
    {
        let entry = manifest_string(i, &s.manifests[i]);
        out.append(entry.as_str());
        proof {
            assert(s.manifests@.take(i + 1).drop_last() =~= s.manifests@.take(i as int));
            assert(out@ =~= head + manifest_texts(s.manifests@.take(i + 1)));
        }
    }
    assert(s.manifests@.take(n as int) =~= s.manifests@);
    out.append("\n");
    push_rule(&mut out);
    out.append("\n");
    out.append("\n\u{1f4a1} Tip: Use this to review what will be deployed and validate configurations\n");
    ToolAnswer { text: out, with_data: true }
}

// ---------------------------------------------------------------------
// revision_metadata
// ---------------------------------------------------------------------

/// The full message part: the message line by line, when it has more than one line.
pub open spec fn full_message_text(m: Option<String>) -> Seq<char> {
    match m {
        Some(x) => only_if(lines(x@).len() > 1, "\nFull Message:\n"@ + indented_lines(lines(x@), "  "@)),
        None => Seq::empty(),
    }
}

/// The tags part: their number and the tags, or that there are none.
pub open spec fn tags_text(count: usize, tags: Option<Vec<String>>) -> Seq<char> {
    if count > 0 {
        "\nTags ("@ + decimal(count as nat) + "):\n"@ + match tags {
            Some(v) => indented_lines(string_views(v@), "  - "@),
            None => Seq::empty(),
        }
    } else {
        "\nTags: None\n"@
    }
}

/// The signature part.
pub open spec fn signature_text(signed: bool, summary: Option<String>) -> Seq<char> {
    "\nSignature Status: "@ + if signed {
        match summary {
            Some(x) => x@ + "\n"@,
            None => "Signed\n"@,
        }
    } else {
        "Not signed\n"@
    }
}

/// The text of `revision_metadata`.
pub open spec fn revision_metadata_text(app_name: Seq<char>, revision: Seq<char>, s: RevisionMetadataSummary) -> Seq<char> {
    "Revision Metadata for application '"@ + app_name + "' at revision '"@ + revision + "'\n\n"@
        + opt_line("Author: "@, s.author) + opt_line("Date: "@, s.date)
        + opt_wrapped("\nCommit Message:\n  "@, s.message_short, "\n"@) + full_message_text(s.message_full)
        + tags_text(s.tag_count, s.tags) + signature_text(s.is_signed, s.signature_summary)
}

fn full_message_string(m: &Option<String>) -> (r: String)
    ensures
        r@ == full_message_text(*m),
{
    match m {
        Some(x) => {
            let ls = lines_of(x.as_str());
            let mut block = "\nFull Message:\n".to_owned();
            push_indented_lines(&mut block, &ls, "  ", ls.len());
            assert(first_n(string_views(ls@), ls@.len() as nat) =~= string_views(ls@));
            let mut out = String::new();
            push_if(&mut out, ls.len() > 1, block.as_str());
            assert(out@ =~= full_message_text(*m));
            out
        },
        None => String::new(),
    }
}

fn tags_string(count: usize, tags: &Option<Vec<String>>) -> (r: String)
    ensures
        r@ == tags_text(count, *tags),
{
    if count > 0 {
        let mut out = "\nTags (".to_owned();
        push_count(&mut out, count);
        out.append("):\n");
        let ghost head = out@;
        match tags {
            Some(v) => {
                push_indented_lines(&mut out, v, "  - ", v.len());
                assert(first_n(string_views(v@), v@.len() as nat) =~= string_views(v@));
            },
            None => {},
        }
        assert(out@ =~= tags_text(count, *tags));
        out
    } else {
        "\nTags: None\n".to_owned()
    }
}

fn signature_string(signed: bool, summary: &Option<String>) -> (r: String)
    ensures
        r@ == signature_text(signed, *summary),
{
    let mut out = "\nSignature Status: ".to_owned();
    if signed {
        match summary {
            Some(x) => {
                out.append(x.as_str());
                out.append("\n");
            },
            None => {
                out.append("Signed\n");
            },
        }
    } else {
        out.append("Not signed\n");
    }
    assert(out@ =~= signature_text(signed, *summary));
    out
}

/// The answer of `revision_metadata`; the summary follows as data.
pub fn revision_metadata_answer(app_name: &str, revision: &str, s: &RevisionMetadataSummary) -> (r: ToolAnswer)
    ensures
        r.text@ == revision_metadata_text(app_name@, revision@, *s),
        r.with_data,
{
    let mut out = "Revision Metadata for application '".to_owned();
    out.append(app_name);
    out.append("' at revision '");
    out.append(revision);
    out.append("'\n\n");
    push_opt_line(&mut out, "Author: ", &s.author);
    push_opt_line(&mut out, "Date: ", &s.date);
    push_opt_wrapped(&mut out, "\nCommit Message:\n  ", &s.message_short, "\n");
    let full = full_message_string(&s.message_full);
    out.append(full.as_str());
    let tags = tags_string(s.tag_count, &s.tags);
    out.append(tags.as_str());
    let signature = signature_string(s.is_signed, &s.signature_summary);
    out.append(signature.as_str());
    ToolAnswer { text: out, with_data: true }
}

// ---------------------------------------------------------------------
// get_application_sync_windows
// ---------------------------------------------------------------------

/// The entry of one sync window.
pub open spec fn window_text(i: nat, w: ApplicationSyncWindow) -> Seq<char> {
    ordinal(i) + "Kind: "@ + match w.kind {
        Some(k) => k@,
        None => "Unknown"@,
    } + "\n"@ + opt_line("   Schedule: "@, w.schedule) + opt_line("   Duration: "@, w.duration)
        + opt_line("   Start Time: "@, w.start_time) + opt_line("   End Time: "@, w.end_time)
        + opt_bool_line("   Manual Sync Enabled: "@, w.manual_sync_enabled)
        + list_line("   Applications: "@, w.applications) + list_line("   Namespaces: "@, w.namespaces)
        + list_line("   Clusters: "@, w.clusters) + "\n"@
}

/// The entries of the sync windows.
pub open spec fn window_texts(s: Seq<ApplicationSyncWindow>) -> Seq<char>
    decreases s.len(),
{
    if s.len() == 0 {
        Seq::empty()
    } else {
        window_texts(s.drop_last()) + window_text((s.len() - 1) as nat, s.last())
    }
}

/// The text of `get_application_sync_windows`.
pub open spec fn sync_windows_text(app_name: Seq<char>, s: ApplicationSyncWindowsSummary) -> Seq<char> {
    if s.total_windows == 0 {
        "No sync windows found for application '"@ + app_name + "'"@
    } else {
        "Sync Windows for application '"@ + app_name + "' ("@ + decimal(s.total_windows as nat) + " total):\n\n"@
            + window_texts(s.windows@)
    }
}

fn window_string(i: usize, w: &ApplicationSyncWindow) -> (r: String)
    requires
        i < usize::MAX,
    ensures
        r@ == window_text(i as nat, *w),
{
    let mut out = ordinal_string(i);
    out.append("Kind: ");
    match &w.kind {
        Some(k) => out.append(k.as_str()),
        None => out.append("Unknown"),
    }
    out.append("\n");
    push_opt_line(&mut out, "   Schedule: ", &w.schedule);
    push_opt_line(&mut out, "   Duration: ", &w.duration);
    push_opt_line(&mut out, "   Start Time: ", &w.start_time);
    push_opt_line(&mut out, "   End Time: ", &w.end_time);
    push_opt_bool_line(&mut out, "   Manual Sync Enabled: ", w.manual_sync_enabled);
    push_list_line(&mut out, "   Applications: ", &w.applications);
    push_list_line(&mut out, "   Namespaces: ", &w.namespaces);
    push_list_line(&mut out, "   Clusters: ", &w.clusters);
    out.append("\n");
    out
}

/// The answer of `get_application_sync_windows`; the summary follows as
/// data unless there are no windows.
#[verifier::spinoff_prover]
pub fn sync_windows_answer(app_name: &str, s: &ApplicationSyncWindowsSummary) -> (r: ToolAnswer)
    ensures
        r.text@ == sync_windows_text(app_name@, *s),
        r.with_data == (s.total_windows > 0),
{
    if s.total_windows == 0 {
        let mut out = "No sync windows found for application '".to_owned();
        out.append(app_name);
        out.append("'");
        return ToolAnswer { text: out, with_data: false };
    }
    let mut out = "Sync Windows for application '".to_owned();
    out.append(app_name);
    out.append("' (");
    push_count(&mut out, s.total_windows);
    out.append(" total):\n\n");
    let ghost head = out@;
    let n = s.windows.len();
    assert(head + window_texts(s.windows@.take(0)) =~= head);
    for i in 0..n
        invariant
            n == s.windows@.len(),
            out@ == head + window_texts(s.windows@.take(i as int)),
    {
        let entry = window_string(i, &s.windows[i]);
        out.append(entry.as_str());
        proof {
            assert(s.windows@.take(i + 1).drop_last() =~= s.windows@.take(i as int));
            assert(out@ =~= head + window_texts(s.windows@.take(i + 1)));
        }
    }
    assert(s.windows@.take(n as int) =~= s.windows@);
    ToolAnswer { text: out, with_data: true }
}

// ---------------------------------------------------------------------
// rollback_application and sync_application
// ---------------------------------------------------------------------

/// How an operation is called in the title: a dry run or completed.
pub open spec fn outcome_text(dry_run: bool) -> Seq<char> {
    if dry_run {
        "(Dry Run)"@
    } else {
        "Completed"@
    }
}

/// The closing note of a rollback.
pub open spec fn rollback_note(dry_run: bool) -> Seq<char> {
    if dry_run {
        "\n\u{26a0}\u{fe0f}  Note: This was a dry run. No actual changes were made.\n"@
            + "    Run without dry_run=true to perform the actual rollback.\n"@
    } else {
        "\n\u{2705} Rollback completed successfully.\n"@ + "    Monitor the application to ensure it reaches the desired state.\n"@
    }
}

/// The text of `rollback_application`.
pub open spec fn rollback_text(s: ApplicationRollbackSummary) -> Seq<char> {
    "Rollback "@ + outcome_text(s.dry_run) + " for application '"@ + s.name@ + "'\n\n"@ + "Rolled back to History ID: "@
        + signed_decimal(s.rolled_back_to_id as int) + "\n"@ + opt_line("Target Revision: "@, s.target_revision)
        + opt_line("Current Sync Revision: "@, s.sync_revision) + "\nStatus:\n"@ + opt_line("  Sync Status: "@, s.sync_status)
        + opt_line("  Health Status: "@, s.health_status) + "\nOptions:\n"@ + "  Dry Run: "@ + bool_text(s.dry_run) + "\n"@
        + "  Prune Enabled: "@ + bool_text(s.prune_enabled) + "\n"@ + rollback_note(s.dry_run)
}

/// The answer of `rollback_application`; the summary follows as data.
pub fn rollback_answer(s: &ApplicationRollbackSummary) -> (r: ToolAnswer)
    ensures
        r.text@ == rollback_text(*s),
        r.with_data,
{
    let mut out = "Rollback ".to_owned();
    if s.dry_run {
        out.append("(Dry Run)");
    } else {
        out.append("Completed");
    }
    out.append(" for application '");
    out.append(s.name.as_str());
    out.append("'\n\n");
    out.append("Rolled back to History ID: ");
    append_signed(&mut out, s.rolled_back_to_id);
    out.append("\n");
    push_opt_line(&mut out, "Target Revision: ", &s.target_revision);
    push_opt_line(&mut out, "Current Sync Revision: ", &s.sync_revision);
    out.append("\nStatus:\n");
    push_opt_line(&mut out, "  Sync Status: ", &s.sync_status);
    push_opt_line(&mut out, "  Health Status: ", &s.health_status);
    out.append("\nOptions:\n");
    out.append("  Dry Run: ");
    push_bool(&mut out, s.dry_run);
    out.append("\n");
    out.append("  Prune Enabled: ");
    push_bool(&mut out, s.prune_enabled);
    out.append("\n");
    let ghost before_note = out@;
    if s.dry_run {
        out.append("\n\u{26a0}\u{fe0f}  Note: This was a dry run. No actual changes were made.\n");
        out.append("    Run without dry_run=true to perform the actual rollback.\n");
    } else {
        out.append("\n\u{2705} Rollback completed successfully.\n");
        out.append("    Monitor the application to ensure it reaches the desired state.\n");
    }
    assert(out@ =~= before_note + rollback_note(s.dry_run));
    ToolAnswer { text: out, with_data: true }
}

/// Whether a sync status reads `OutOfSync`.
pub open spec fn out_of_sync(status: Option<String>) -> bool {
    status matches Some(x) && x@ == "OutOfSync"@
}

/// The closing note of a sync.
pub open spec fn sync_note(dry_run: bool, status: Option<String>) -> Seq<char> {
    if dry_run {
        "\n\u{26a0}\u{fe0f}  Note: This was a dry run. No actual changes were made.\n"@
            + "    Run without dry_run=true to perform the actual sync.\n"@
    } else {
        "\n\u{2705} Sync completed successfully.\n"@ + "    Monitor the application to ensure it reaches the desired state.\n"@
            + only_if(out_of_sync(status), "    Note: Application may still be syncing. Check status again in a few moments.\n"@)
    }
}

/// The resources line of a sync: their number for a partial sync, else all.
pub open spec fn synced_resources_text(count: Option<usize>) -> Seq<char> {
    match count {
        Some(c) => "  Resources Synced: "@ + decimal(c as nat) + " (partial sync)\n"@,
        None => "  Resources Synced: all\n"@,
    }
}

/// The text of `sync_application`.
pub open spec fn sync_text(s: ApplicationSyncSummary) -> Seq<char> {
    "Sync "@ + outcome_text(s.dry_run) + " for application '"@ + s.name@ + "'\n\n"@
        + opt_line("Target Revision: "@, s.target_revision) + opt_line("Current Sync Revision: "@, s.sync_revision)
        + "\nStatus:\n"@ + opt_line("  Sync Status: "@, s.sync_status) + opt_line("  Health Status: "@, s.health_status)
        + "\nConfiguration:\n"@ + "  Dry Run: "@ + bool_text(s.dry_run) + "\n"@ + "  Prune Enabled: "@
        + bool_text(s.prune_enabled) + "\n"@ + "  Force Enabled: "@ + bool_text(s.force_enabled) + "\n"@
        + synced_resources_text(s.resources_count)
        + only_if(s.sync_options@.len() > 0, "  Sync Options: "@ + joined(string_views(s.sync_options@), ", "@) + "\n"@)
        + sync_note(s.dry_run, s.sync_status)
}

/// The answer of `sync_application`; the summary follows as data.
pub fn sync_answer(s: &ApplicationSyncSummary) -> (r: ToolAnswer)
    ensures
        r.text@ == sync_text(*s),
        r.with_data,
{
    let mut out = "Sync ".to_owned();
    if s.dry_run {
        out.append("(Dry Run)");
    } else {
        out.append("Completed");
    }
    out.append(" for application '");
    out.append(s.name.as_str());
    out.append("'\n\n");
    push_opt_line(&mut out, "Target Revision: ", &s.target_revision);
    push_opt_line(&mut out, "Current Sync Revision: ", &s.sync_revision);
    out.append("\nStatus:\n");
    push_opt_line(&mut out, "  Sync Status: ", &s.sync_status);
    push_opt_line(&mut out, "  Health Status: ", &s.health_status);
    out.append("\nConfiguration:\n");
    out.append("  Dry Run: ");
    push_bool(&mut out, s.dry_run);
    out.append("\n");
    out.append("  Prune Enabled: ");
    push_bool(&mut out, s.prune_enabled);
    out.append("\n");
    out.append("  Force Enabled: ");
    push_bool(&mut out, s.force_enabled);
    out.append("\n");
    let ghost before_resources = out@;
    match s.resources_count {
        Some(c) => {
            out.append("  Resources Synced: ");
            push_count(&mut out, c);
            out.append(" (partial sync)\n");
        },
        None => {
            out.append("  Resources Synced: all\n");
        },
    }
    assert(out@ =~= before_resources + synced_resources_text(s.resources_count));
    let mut options = "  Sync Options: ".to_owned();
    push_joined(&mut options, &s.sync_options, ", ");
    options.append("\n");
    push_if(&mut out, s.sync_options.len() > 0, options.as_str());
    let ghost before_note = out@;
    if s.dry_run {
        out.append("\n\u{26a0}\u{fe0f}  Note: This was a dry run. No actual changes were made.\n");
        out.append("    Run without dry_run=true to perform the actual sync.\n");
    } else {
        out.append("\n\u{2705} Sync completed successfully.\n");
        out.append("    Monitor the application to ensure it reaches the desired state.\n");
        let still = match &s.sync_status {
            Some(x) => *x == "OutOfSync".to_owned(),
            None => false,
        };
        push_if(&mut out, still, "    Note: Application may still be syncing. Check status again in a few moments.\n");
    }
    assert(out@ =~= before_note + sync_note(s.dry_run, s.sync_status));
    ToolAnswer { text: out, with_data: true }
}


// ---------------------------------------------------------------------
// get_resource and patch_resource
// ---------------------------------------------------------------------

/// The number of labels of a resource shown at most.
pub const LABEL_LIMIT: usize = 5;

/// The number of manifest lines shown at most.
pub const MANIFEST_LINE_LIMIT: usize = 50;

/// The group line of a resource, when it has a non-empty group.
pub open spec fn group_text(group: Option<String>) -> Seq<char> {
    match group {
        Some(g) => only_if(g@.len() > 0, "Group: "@ + g@ + "\n"@),
        None => Seq::empty(),
    }
}

/// The labels part of a manifest summary: their number and the first ones.
pub open spec fn resource_labels_text(labels: Option<Vec<(String, String)>>) -> Seq<char> {
    match labels {
        Some(l) => only_if(
            l@.len() > 0,
            "  Labels ("@ + decimal(l@.len()) + "): \n"@ + pair_lines(first_n(l@, LABEL_LIMIT as nat), "    "@)
                + only_if(l@.len() > LABEL_LIMIT, "    ... and "@ + decimal((l@.len() - LABEL_LIMIT) as nat) + " more\n"@),
        ),
        None => Seq::empty(),
    }
}

/// The first lines of a manifest, and how many more there are.
pub open spec fn manifest_preview_text(m: Seq<char>) -> Seq<char> {
    let ls = lines(m);
    indented_lines(first_n(ls, MANIFEST_LINE_LIMIT as nat), ""@) + only_if(
        ls.len() > MANIFEST_LINE_LIMIT,
        "\n... ("@ + decimal((ls.len() - MANIFEST_LINE_LIMIT) as nat) + " more lines, "@ + decimal(ls.len()) + " total)\n"@,
    )
}

/// The text of `get_resource`, or of `patch_resource` when `patched`.
pub open spec fn resource_text(s: ApplicationResourceSummary, patched: bool) -> Seq<char> {
    let ms = s.manifest_summary;
    (if patched { "\u{2705} Patched Resource: "@ } else { "Resource: "@ }) + s.resource_name@ + " ("@ + s.kind@ + ")\n"@
        + "Application: "@ + s.app_name@ + "\n"@ + "Version: "@ + s.version@ + "\n"@ + group_text(s.group)
        + opt_line("Namespace: "@, s.namespace)
        + (if patched { "\nUpdated Manifest Summary:\n"@ } else { "\nManifest Summary:\n"@ })
        + opt_line("  API Version: "@, ms.api_version) + opt_line("  Kind: "@, ms.kind) + opt_line("  Name: "@, ms.name)
        + opt_line("  Namespace: "@, ms.namespace) + resource_labels_text(ms.labels)
        + opt_count_line("  Annotations Count: "@, ms.annotations_count)
        + only_if(!patched, opt_line("  Created: "@, ms.creation_timestamp)) + opt_line("  Status: "@, ms.status_summary)
        + (if patched { "\n\u{1f4c4} Updated Manifest:\n"@ } else { "\n\u{1f4c4} Full Manifest:\n"@ }) + rule() + "\n"@
        + manifest_preview_text(s.manifest@) + rule() + "\n"@
        + only_if(patched, "\n\u{1f4a1} Tip: Monitor the resource to ensure it reaches the desired state.\n"@)
}

fn group_string(group: &Option<String>) -> (r: String)
    ensures
        r@ == group_text(*group),
{
    match group {
        Some(g) => {
            let mut t = "Group: ".to_owned();
            t.append(g.as_str());
            t.append("\n");
            let mut out = String::new();
            push_if(&mut out, !g.as_str().is_empty(), t.as_str());
            assert(out@ =~= group_text(*group));
            out
        },
        None => String::new(),
    }
}

fn resource_labels_string(labels: &Option<Vec<(String, String)>>) -> (r: String)
    ensures
        r@ == resource_labels_text(*labels),
{
    match labels {
        Some(l) => {
            let mut block = "  Labels (".to_owned();
            push_count(&mut block, l.len());
            block.append("): \n");
            push_pair_lines(&mut block, l, "    ", LABEL_LIMIT);
            let mut more = "    ... and ".to_owned();
            if l.len() > LABEL_LIMIT {
                push_count(&mut more, l.len() - LABEL_LIMIT);
            } else {
                push_count(&mut more, 0);
            }
            more.append(" more\n");
            push_if(&mut block, l.len() > LABEL_LIMIT, more.as_str());
            let mut out = String::new();
            push_if(&mut out, l.len() > 0, block.as_str());
            assert(out@ =~= resource_labels_text(*labels));
            out
        },
        None => String::new(),
    }
}

fn manifest_preview_string(m: &str) -> (r: String)
    ensures
        r@ == manifest_preview_text(m@),
{
    let ls = lines_of(m);
    let mut out = String::new();
    push_indented_lines(&mut out, &ls, "", MANIFEST_LINE_LIMIT);
    let mut more = "\n... (".to_owned();
    if ls.len() > MANIFEST_LINE_LIMIT {
        push_count(&mut more, ls.len() - MANIFEST_LINE_LIMIT);
    } else {
        push_count(&mut more, 0);
    }
    more.append(" more lines, ");
    push_count(&mut more, ls.len());
    more.append(" total)\n");
    push_if(&mut out, ls.len() > MANIFEST_LINE_LIMIT, more.as_str());
    assert(out@ =~= manifest_preview_text(m@));
    out
}

fn resource_answer(s: &ApplicationResourceSummary, patched: bool) -> (r: String)
    ensures
        r@ == resource_text(*s, patched),
{
    let ms = &s.manifest_summary;
    let mut out = if patched { "\u{2705} Patched Resource: ".to_owned() } else { "Resource: ".to_owned() };
    out.append(s.resource_name.as_str());
    out.append(" (");
    out.append(s.kind.as_str());
    out.append(")\n");
    out.append("Application: ");
    out.append(s.app_name.as_str());
    out.append("\n");
    out.append("Version: ");
    out.append(s.version.as_str());
    out.append("\n");
    let g = group_string(&s.group);
    out.append(g.as_str());
    push_opt_line(&mut out, "Namespace: ", &s.namespace);
    if patched {
        out.append("\nUpdated Manifest Summary:\n");
    } else {
        out.append("\nManifest Summary:\n");
    }
    push_opt_line(&mut out, "  API Version: ", &ms.api_version);
    push_opt_line(&mut out, "  Kind: ", &ms.kind);
    push_opt_line(&mut out, "  Name: ", &ms.name);
    push_opt_line(&mut out, "  Namespace: ", &ms.namespace);
    let labels = resource_labels_string(&ms.labels);
    out.append(labels.as_str());
    push_opt_count_line(&mut out, "  Annotations Count: ", ms.annotations_count);
    let mut created = String::new();
    push_opt_line(&mut created, "  Created: ", &ms.creation_timestamp);
    assert(created@ =~= opt_line("  Created: "@, ms.creation_timestamp));
    push_if(&mut out, !patched, created.as_str());
    push_opt_line(&mut out, "  Status: ", &ms.status_summary);
    if patched {
        out.append("\n\u{1f4c4} Updated Manifest:\n");
    } else {
        out.append("\n\u{1f4c4} Full Manifest:\n");
    }
    push_rule(&mut out);
    out.append("\n");
    let preview = manifest_preview_string(s.manifest.as_str());
    out.append(preview.as_str());
    push_rule(&mut out);
    out.append("\n");
    push_if(&mut out, patched, "\n\u{1f4a1} Tip: Monitor the resource to ensure it reaches the desired state.\n");
    out
}

/// The answer of `get_resource`; the summary follows as data.
pub fn get_resource_answer(s: &ApplicationResourceSummary) -> (r: ToolAnswer)
    ensures
        r.text@ == resource_text(*s, false),
        r.with_data,
{
    ToolAnswer { text: resource_answer(s, false), with_data: true }
}

/// The answer of `patch_resource`; the summary follows as data.
pub fn patch_resource_answer(s: &ApplicationResourceSummary) -> (r: ToolAnswer)
    ensures
        r.text@ == resource_text(*s, true),
        r.with_data,
{
    ToolAnswer { text: resource_answer(s, true), with_data: true }
}

// ---------------------------------------------------------------------
// get_application_history
// ---------------------------------------------------------------------

/// The number of deployments shown at most.
pub const HISTORY_LIMIT: usize = 20;

/// The initiator line of a deployment, when it has an initiator; automated
/// ones are marked.
pub open spec fn initiator_line(initiated_by: Option<String>, automated: bool) -> Seq<char> {
    match initiated_by {
        Some(i) => "   Initiated by: "@ + i@ + only_if(automated, " \u{1f916}"@) + "\n"@,
        None => Seq::empty(),
    }
}

/// The entry of one deployment; the first (newest) one is marked current.
pub open spec fn history_entry_text(i: nat, e: RevisionHistorySummary) -> Seq<char> {
    rule() + "\n"@ + "\n"@ + (if i == 0 { "\u{1f449}"@ } else { "  "@ }) + " "@ + ordinal(i) + "History ID: "@
        + signed_decimal(e.id as int) + " "@ + only_if(i == 0, "(Current)"@) + "\n"@ + "   Revision: "@ + e.revision@
        + " ("@ + e.revision_full@ + ")\n"@ + "   Deployed: "@ + e.deployed_at@ + "\n"@
        + opt_line("   Duration: "@, e.deploy_duration) + initiator_line(e.initiated_by, e.automated)
        + opt_line("   Repository: "@, e.source_repo) + opt_line("   Path: "@, e.source_path)
        + opt_line("   Target Revision: "@, e.source_target_revision)
}

/// The entries of the deployments.
pub open spec fn history_entry_texts(s: Seq<RevisionHistorySummary>) -> Seq<char>
    decreases s.len(),
{
    if s.len() == 0 {
        Seq::empty()
    } else {
        history_entry_texts(s.drop_last()) + history_entry_text((s.len() - 1) as nat, s.last())
    }
}

/// The body of the history text: the newest deployments first, at most
/// twenty of them, or that there are none.
pub open spec fn history_body_text(es: Seq<RevisionHistorySummary>) -> Seq<char> {
    if es.len() == 0 {
        "\n\u{26a0}\u{fe0f}  No deployment history available for this application.\n"@
            + "   This could mean the application has never been synced.\n"@
    } else {
        "\n"@ + history_entry_texts(first_n(es, HISTORY_LIMIT as nat)) + rule() + "\n"@
            + only_if(es.len() > HISTORY_LIMIT, "\n... and "@ + decimal((es.len() - HISTORY_LIMIT) as nat)
                + " more deployment(s) (showing "@ + decimal(HISTORY_LIMIT as nat) + " most recent)\n"@)
            + "\n\u{1f4a1} Tips:\n"@ + "   - Use the History ID with 'rollback_application' to revert to a previous version\n"@
            + "   - Current deployment is marked with \u{1f449}\n"@ + "   - \u{1f916} indicates automated deployments\n"@
    }
}

/// The text of `get_application_history`.
pub open spec fn history_text(h: ApplicationHistorySummary) -> Seq<char> {
    "\u{1f4dc} Deployment History for '"@ + h.application_name@ + "'\n"@ + double_rule() + "\n"@ + "\nTotal deployments: "@
        + decimal(h.total_entries as nat) + "\n"@ + history_body_text(h.entries@)
}

fn history_entry_string(i: usize, e: &RevisionHistorySummary) -> (r: String)
    requires
        i < usize::MAX,
    ensures
        r@ == history_entry_text(i as nat, *e),
{
    let mut out = String::new();
    push_rule(&mut out);
    assert(out@ =~= rule());
    out.append("\n");
    out.append("\n");
    if i == 0 {
        out.append("\u{1f449}");
    } else {
        out.append("  ");
    }
    out.append(" ");
    let o = ordinal_string(i);
    out.append(o.as_str());
    out.append("History ID: ");
    append_signed(&mut out, e.id);
    out.append(" ");
    push_if(&mut out, i == 0, "(Current)");
    out.append("\n");
    out.append("   Revision: ");
    out.append(e.revision.as_str());
    out.append(" (");
    out.append(e.revision_full.as_str());
    out.append(")\n");
    out.append("   Deployed: ");
    out.append(e.deployed_at.as_str());
    out.append("\n");
    push_opt_line(&mut out, "   Duration: ", &e.deploy_duration);
    let ghost before_initiator = out@;
    match &e.initiated_by {
        Some(who) => {
            out.append("   Initiated by: ");
            out.append(who.as_str());
            push_if(&mut out, e.automated, " \u{1f916}");
            out.append("\n");
        },
        None => {},
    }
    assert(out@ =~= before_initiator + initiator_line(e.initiated_by, e.automated));
    push_opt_line(&mut out, "   Repository: ", &e.source_repo);
    push_opt_line(&mut out, "   Path: ", &e.source_path);
    push_opt_line(&mut out, "   Target Revision: ", &e.source_target_revision);
    out
}

fn history_entries_string(es: &Vec<RevisionHistorySummary>) -> (r: String)
    ensures
        r@ == history_entry_texts(first_n(es@, HISTORY_LIMIT as nat)),
{
    let mut out = String::new();
    let len = es.len();
    let n = if len <= HISTORY_LIMIT { len } else { HISTORY_LIMIT };
    assert(history_entry_texts(es@.take(0)) =~= Seq::<char>::empty());
    for i in 0..n
        invariant
            n <= es@.len(),
            out@ == history_entry_texts(es@.take(i as int)),
    {
        let entry = history_entry_string(i, &es[i]);
        out.append(entry.as_str());
        proof {
            assert(es@.take(i + 1).drop_last() =~= es@.take(i as int));
        }
    }
    assert(es@.take(n as int) =~= first_n(es@, HISTORY_LIMIT as nat));
    out
}

fn history_body_string(es: &Vec<RevisionHistorySummary>) -> (r: String)
    ensures
        r@ == history_body_text(es@),
{
    let len = es.len();
    if len == 0 {
        let mut out = "\n\u{26a0}\u{fe0f}  No deployment history available for this application.\n".to_owned();
        out.append("   This could mean the application has never been synced.\n");
        return out;
    }
    let mut out = "\n".to_owned();
    let entries = history_entries_string(es);
    out.append(entries.as_str());
    push_rule(&mut out);
    out.append("\n");
    let mut more = "\n... and ".to_owned();
    if len > HISTORY_LIMIT {
        push_count(&mut more, len - HISTORY_LIMIT);
    } else {
        push_count(&mut more, 0);
    }
    more.append(" more deployment(s) (showing ");
    push_count(&mut more, HISTORY_LIMIT);
    more.append(" most recent)\n");
    push_if(&mut out, len > HISTORY_LIMIT, more.as_str());
    out.append("\n\u{1f4a1} Tips:\n");
    out.append("   - Use the History ID with 'rollback_application' to revert to a previous version\n");
    out.append("   - Current deployment is marked with \u{1f449}\n");
    out.append("   - \u{1f916} indicates automated deployments\n");
    out
}

/// The answer of `get_application_history`; the summary follows as data.
pub fn history_answer(h: &ApplicationHistorySummary) -> (r: ToolAnswer)
    ensures
        r.text@ == history_text(*h),
        r.with_data,
{
    let mut out = "\u{1f4dc} Deployment History for '".to_owned();
    out.append(h.application_name.as_str());
    out.append("'\n");
    push_double_rule(&mut out);
    out.append("\n");
    out.append("\nTotal deployments: ");
    push_count(&mut out, h.total_entries);
    out.append("\n");
    let body = history_body_string(&h.entries);
    out.append(body.as_str());
    ToolAnswer { text: out, with_data: true }
}

// ---------------------------------------------------------------------
// refresh_application
// ---------------------------------------------------------------------

/// A revision, or `None` when absent.
pub open spec fn or_none(o: Option<String>) -> Seq<char> {
    match o {
        Some(x) => x@,
        None => "None"@,
    }
}

/// The comparison of one status before and after the refresh.
pub open spec fn comparison_text(label: Seq<char>, changed: bool, before: Seq<char>, after: Seq<char>) -> Seq<char> {
    (if changed { "\u{1f504}"@ } else { "\u{2713}"@ }) + "  "@ + label + ":\n"@ + "   Before: "@ + before + "\n"@
        + "   After:  "@ + after + "\n"@ + (if changed { "   \u{279c} Changed!\n"@ } else { "   \u{279c} No change\n"@ })
        + "\n"@
}

/// The names of what changed, in order: sync status, health status, revision.
pub open spec fn changed_parts(sync: bool, health: bool, revision: bool) -> Seq<Seq<char>> {
    (if sync { seq!["sync status"@] } else { Seq::empty() }) + (if health { seq!["health status"@] } else { Seq::empty() })
        + (if revision { seq!["revision"@] } else { Seq::empty() })
}

/// The conclusion of a refresh: what changed, or that nothing did.
pub open spec fn refresh_conclusion(r: RefreshApplicationSummary) -> Seq<char> {
    if r.sync_status_changed || r.health_status_changed || r.revision_changed {
        "\u{2705} Refresh completed - Application state was updated\n\n"@ + "Changes detected in: "@
            + joined(changed_parts(r.sync_status_changed, r.health_status_changed, r.revision_changed), ", "@) + "\n"@
    } else {
        "\u{2705} Refresh completed - No changes detected\n\n"@ + "The application state in ArgoCD matches the Git repository.\n"@
    }
}

/// The text of `refresh_application`.
pub open spec fn refresh_text(r: RefreshApplicationSummary) -> Seq<char> {
    "\u{1f504} Refreshed Application '"@ + r.application_name@ + "'\n"@ + double_rule() + "\n"@ + "\nRefresh Type: "@
        + r.refresh_type@ + "\n"@ + opt_line("Repository: "@, r.repo_url) + opt_line("Target Revision: "@, r.target_revision)
        + "\n"@ + rule() + "\n\n"@ + "\u{1f4ca} Status Comparison:\n\n"@
        + comparison_text("Sync Status"@, r.sync_status_changed, r.sync_status_before@, r.sync_status_after@)
        + comparison_text("Health Status"@, r.health_status_changed, r.health_status_before@, r.health_status_after@)
        + only_if(r.revision_changed, "\u{1f504}  Sync Revision:\n"@ + "   Before: "@ + or_none(r.sync_revision_before) + "\n"@
            + "   After:  "@ + or_none(r.sync_revision_after) + "\n"@ + "   \u{279c} Changed!\n\n"@)
        + rule() + "\n\n"@ + refresh_conclusion(r) + "\n\u{1f4a1} Tips:\n"@
        + "   - Refresh does not modify cluster resources, only ArgoCD's cache\n"@
        + "   - Use 'hard' refresh to force re-fetch from Git repository\n"@
        + "   - If sync status changed to 'OutOfSync', use 'sync_application' to deploy\n"@
}

fn comparison_string(label: &str, changed: bool, before: &str, after: &str) -> (r: String)
    ensures
        r@ == comparison_text(label@, changed, before@, after@),
{
    let mut out = if changed { "\u{1f504}".to_owned() } else { "\u{2713}".to_owned() };
    out.append("  ");
    out.append(label);
    out.append(":\n");
    out.append("   Before: ");
    out.append(before);
    out.append("\n");
    out.append("   After:  ");
    out.append(after);
    out.append("\n");
    if changed {
        out.append("   \u{279c} Changed!\n");
    } else {
        out.append("   \u{279c} No change\n");
    }
    out.append("\n");
    out
}

fn or_none_string(o: &Option<String>) -> (r: String)
    ensures
        r@ == or_none(*o),
{
    match o {
        Some(x) => x.clone(),
        None => "None".to_owned(),
    }
}

fn refresh_conclusion_string(r: &RefreshApplicationSummary) -> (s: String)
    ensures
        s@ == refresh_conclusion(*r),
{
    if r.sync_status_changed || r.health_status_changed || r.revision_changed {
        let mut parts: Vec<String> = Vec::new();
        if r.sync_status_changed {
            parts.push("sync status".to_owned());
        }
        if r.health_status_changed {
            parts.push("health status".to_owned());
        }
        if r.revision_changed {
            parts.push("revision".to_owned());
        }
        assert(string_views(parts@) =~= changed_parts(r.sync_status_changed, r.health_status_changed, r.revision_changed));
        let mut out = "\u{2705} Refresh completed - Application state was updated\n\n".to_owned();
        out.append("Changes detected in: ");
        push_joined(&mut out, &parts, ", ");
        out.append("\n");
        out
    } else {
        let mut out = "\u{2705} Refresh completed - No changes detected\n\n".to_owned();
        out.append("The application state in ArgoCD matches the Git repository.\n");
        out
    }
}

/// The answer of `refresh_application`; the summary follows as data.
pub fn refresh_answer(r: &RefreshApplicationSummary) -> (a: ToolAnswer)
    ensures
        a.text@ == refresh_text(*r),
        a.with_data,
{
    let mut out = "\u{1f504} Refreshed Application '".to_owned();
    out.append(r.application_name.as_str());
    out.append("'\n");
    push_double_rule(&mut out);
    out.append("\n");
    out.append("\nRefresh Type: ");
    out.append(r.refresh_type.as_str());
    out.append("\n");
    push_opt_line(&mut out, "Repository: ", &r.repo_url);
    push_opt_line(&mut out, "Target Revision: ", &r.target_revision);
    out.append("\n");
    push_rule(&mut out);
    out.append("\n\n");
    out.append("\u{1f4ca} Status Comparison:\n\n");
    let sync = comparison_string("Sync Status", r.sync_status_changed, r.sync_status_before.as_str(),
        r.sync_status_after.as_str());
    out.append(sync.as_str());
    let health = comparison_string("Health Status", r.health_status_changed, r.health_status_before.as_str(),
        r.health_status_after.as_str());
    out.append(health.as_str());
    let mut revision = "\u{1f504}  Sync Revision:\n".to_owned();
    revision.append("   Before: ");
    let b = or_none_string(&r.sync_revision_before);
    revision.append(b.as_str());
    revision.append("\n");
    revision.append("   After:  ");
    let a = or_none_string(&r.sync_revision_after);
    revision.append(a.as_str());
    revision.append("\n");
    revision.append("   \u{279c} Changed!\n\n");
    push_if(&mut out, r.revision_changed, revision.as_str());
    push_rule(&mut out);
    out.append("\n\n");
    let conclusion = refresh_conclusion_string(r);
    out.append(conclusion.as_str());
    out.append("\n\u{1f4a1} Tips:\n");
    out.append("   - Refresh does not modify cluster resources, only ArgoCD's cache\n");
    out.append("   - Use 'hard' refresh to force re-fetch from Git repository\n");
    out.append("   - If sync status changed to 'OutOfSync', use 'sync_application' to deploy\n");
    ToolAnswer { text: out, with_data: true }
}

// ---------------------------------------------------------------------
// Server instructions
// ---------------------------------------------------------------------

/// The instructions the server gives its clients; read-only mode is announced.
pub open spec fn instructions_text(read_only: bool) -> Seq<char> {
    "ArgoCD MCP Server"@ + only_if(read_only, " [READ-ONLY MODE: All tools are read-only GET requests only]"@)
        + " - provides tools to interact with ArgoCD API. Currently supports: list_applications (list and filter ArgoCD applications with full details), list_application_names (get only application names for efficient name lookup and typo correction), get_application (get detailed information about a specific application by name), server_side_diff (perform server-side diff calculation using dry-run apply to compare live and target states), resource_tree (get hierarchical resource tree view with health status and resource details), list_resource_events (list Kubernetes events for applications or specific resources with filtering capabilities), pod_logs (get container logs with intelligent error/warning filtering and log level analysis), get_manifests (get Kubernetes manifests with parsing and analysis), revision_metadata (get metadata for a specific revision including author, date, message, tags, and signature status), get_application_sync_windows (get synchronization windows for an application), get_application_history (get deployment history with history IDs for rollback operations), refresh_application (refresh application from Git repository without modifying cluster state), sync_application (sync an application to its target state in Git with dry-run, force, prune, and selective resource sync options), rollback_application (rollback an application to a previous deployed version by History ID with dry-run and prune options), get_resource (get a specific Kubernetes resource from an application with detailed manifest and parsed metadata), patch_resource (patch a Kubernetes resource in an application using JSON patch, merge patch, or strategic merge patch formats). Set ARGOCD_BASE_URL and ARGOCD_ACCESS_TOKEN environment variables before starting. Optional: Set ARGOCD_READ_ONLY=true to enforce read-only mode (sync_application, rollback_application, and patch_resource are write operations and blocked in read-only mode)."@
}

/// The instructions the server gives its clients.
pub fn instructions(read_only: bool) -> (r: String)
    ensures
        r@ == instructions_text(read_only),
{
    let mut out = "ArgoCD MCP Server".to_owned();
    push_if(&mut out, read_only, " [READ-ONLY MODE: All tools are read-only GET requests only]");
    out.append(" - provides tools to interact with ArgoCD API. Currently supports: list_applications (list and filter ArgoCD applications with full details), list_application_names (get only application names for efficient name lookup and typo correction), get_application (get detailed information about a specific application by name), server_side_diff (perform server-side diff calculation using dry-run apply to compare live and target states), resource_tree (get hierarchical resource tree view with health status and resource details), list_resource_events (list Kubernetes events for applications or specific resources with filtering capabilities), pod_logs (get container logs with intelligent error/warning filtering and log level analysis), get_manifests (get Kubernetes manifests with parsing and analysis), revision_metadata (get metadata for a specific revision including author, date, message, tags, and signature status), get_application_sync_windows (get synchronization windows for an application), get_application_history (get deployment history with history IDs for rollback operations), refresh_application (refresh application from Git repository without modifying cluster state), sync_application (sync an application to its target state in Git with dry-run, force, prune, and selective resource sync options), rollback_application (rollback an application to a previous deployed version by History ID with dry-run and prune options), get_resource (get a specific Kubernetes resource from an application with detailed manifest and parsed metadata), patch_resource (patch a Kubernetes resource in an application using JSON patch, merge patch, or strategic merge patch formats). Set ARGOCD_BASE_URL and ARGOCD_ACCESS_TOKEN environment variables before starting. Optional: Set ARGOCD_READ_ONLY=true to enforce read-only mode (sync_application, rollback_application, and patch_resource are write operations and blocked in read-only mode).");
    out
}

} // verus!
