//! The ArgoCD API client: its connection settings, the request sent for
//! each operation, and how the answers of the API are read.

use vstd::prelude::*;
use crate::application::{Application, ApplicationList, ApplicationSummaryOutput};
use crate::events::{EventList, EventListSummary};
use crate::json::{json_get, json_parse, json_view, parse_json, JsonField, JsonSpec, JsonValue};
use crate::logs::LogEntry;
use crate::operations::{Backoff, RetryStrategy, SyncResource};
use crate::tally::string_views;
use crate::text::{append_signed, blank, chars_of, is_blank, lines, lines_of, lower_case, signed_decimal, string_of_chars, to_lower};
use crate::url::{
    add_multi_param, add_opt_param, add_param, add_raw_param, append_query, multi_param, opt_param,
    params_view, query_string, req_param, url_encode, url_encoded, QueryParam,
};

verus! {

/// Connection settings of an ArgoCD API server: its base URL (without a
/// trailing `/`) and the bearer token sent with every request.
pub struct ArgocdClient {
    base_url: String,
    access_token: String,
}

/// The method of a request.
#[derive(Debug, Clone, Copy, PartialEq, Eq, Structural)]
pub enum HttpMethod {
    Get,
    Post,
}

/// The body of a request: none, a JSON document, or text sent as it is.
#[derive(Debug)]
pub enum RequestBody {
    Empty,
    Json(JsonValue),
    Text(String),
}

/// A request to the ArgoCD API, ready to be sent.
#[derive(Debug)]
pub struct ApiRequest {
    pub method: HttpMethod,
    pub url: String,
    pub headers: Vec<(String, String)>,
    pub body: RequestBody,
}

/// A text without its trailing `/` characters.
pub open spec fn without_trailing_slashes(s: Seq<char>) -> Seq<char>
    decreases s.len(),
{
    if s.len() > 0 && s.last() == '/' {
        without_trailing_slashes(s.drop_last())
    } else {
        s
    }
}

fn trim_trailing_slashes(s: &str) -> (r: String)
    ensures
        r@ == without_trailing_slashes(s@),
{
    let v = chars_of(s);
    let mut n: usize = v.len();
    assert(v@.take(n as int) =~= v@);
    while n > 0 && v[n - 1] == '/'
        invariant
            n <= v@.len(),
            v@ == s@,
            without_trailing_slashes(v@.take(n as int)) == without_trailing_slashes(s@),
        decreases n,
    {
        assert(v@.take(n as int).drop_last() =~= v@.take(n - 1));
        n = n - 1;
    }
    string_of_chars(&v, n)
}

/// The parameters of a log request; `follow` is always off.
pub open spec fn pod_log_params(
    namespace: Option<String>,
    pod_name: Option<String>,
    container: Option<String>,
    since_seconds: Option<i64>,
    tail_lines: Option<i64>,
    previous: Option<bool>,
    filter: Option<String>,
    kind: Option<String>,
    group: Option<String>,
    resource_name: Option<String>,
    app_namespace: Option<String>,
    project: Option<String>,
) -> Seq<QueryParam> {
    opt_param("namespace"@, namespace) + opt_param("podName"@, pod_name) + opt_param("container"@, container)
        + int_param("sinceSeconds"@, since_seconds) + int_param("tailLines"@, tail_lines)
        + (if previous == Some(true) { seq![("previous"@, "true"@)] } else { Seq::empty() })
        + opt_param("filter"@, filter) + opt_param("kind"@, kind) + opt_param("group"@, group)
        + opt_param("resourceName"@, resource_name) + scope_params(app_namespace, project)
        + seq![("follow"@, "false"@)]
}

/// The parameters of a manifests request.
pub open spec fn manifest_params(
    revision: Option<String>,
    app_namespace: Option<String>,
    project: Option<String>,
    source_positions: Option<Vec<i64>>,
    revisions: Option<Vec<String>>,
) -> Seq<QueryParam> {
    opt_param("revision"@, revision) + scope_params(app_namespace, project)
        + int_list_param("sourcePositions"@, source_positions) + multi_param("revisions"@, revisions)
}

/// The parameters of a resource tree request.
pub open spec fn tree_params(
    namespace: Option<String>,
    name: Option<String>,
    version: Option<String>,
    group: Option<String>,
    kind: Option<String>,
    app_namespace: Option<String>,
    project: Option<String>,
) -> Seq<QueryParam> {
    opt_param("namespace"@, namespace) + opt_param("name"@, name) + opt_param("version"@, version)
        + opt_param("group"@, group) + opt_param("kind"@, kind) + scope_params(app_namespace, project)
}

/// The parameters of an events request.
pub open spec fn event_params(
    resource_namespace: Option<String>,
    resource_name: Option<String>,
    resource_uid: Option<String>,
    app_namespace: Option<String>,
    project: Option<String>,
) -> Seq<QueryParam> {
    opt_param("resourceNamespace"@, resource_namespace) + opt_param("resourceName"@, resource_name)
        + opt_param("resourceUID"@, resource_uid) + scope_params(app_namespace, project)
}

/// The parameters of an application request.
pub open spec fn application_params(
    app_namespace: Option<String>,
    project: Option<String>,
    refresh: Option<String>,
    resource_version: Option<String>,
) -> Seq<QueryParam> {
    scope_params(app_namespace, project) + opt_param("refresh"@, refresh)
        + opt_param("resourceVersion"@, resource_version)
}

/// The views of name/value pairs of strings.
pub open spec fn pair_views(v: Seq<(String, String)>) -> Seq<(Seq<char>, Seq<char>)> {
    v.map_values(|p: (String, String)| (p.0@, p.1@))
}

/// Whether TLS certificate checks are skipped for a setting of
/// `ARGOCD_INSECURE`: when the setting, lower-cased, reads `true`; an
/// absent setting counts as `false`.
pub open spec fn insecure_setting(setting: Option<String>) -> bool {
    match setting {
        Some(s) => lower_case(s@) == "true"@,
        None => false,
    }
}

/// The path of the application collection.
pub open spec fn applications_path() -> Seq<char> {
    "/api/v1/applications"@
}

/// The path of an application (its name encoded), followed by `suffix`.
pub open spec fn application_path(name: Seq<char>, suffix: Seq<char>) -> Seq<char> {
    "/api/v1/applications/"@ + url_encoded(name) + suffix
}

/// The path of the metadata of a revision of an application.
pub open spec fn revision_metadata_path(name: Seq<char>, revision: Seq<char>) -> Seq<char> {
    application_path(name, "/revisions/"@ + url_encoded(revision) + "/metadata"@)
}

/// A parameter with an integer value, when the value is present.
pub open spec fn int_param(name: Seq<char>, value: Option<i64>) -> Seq<QueryParam> {
    match value {
        Some(v) => seq![(name, signed_decimal(v as int))],
        None => Seq::empty(),
    }
}

/// One parameter per integer value, when the values are present.
pub open spec fn int_list_param(name: Seq<char>, values: Option<Vec<i64>>) -> Seq<QueryParam> {
    match values {
        Some(v) => v@.map_values(|x: i64| (name, signed_decimal(x as int))),
        None => Seq::empty(),
    }
}

/// An `i32` widened to an `i64`.
pub open spec fn widen(v: Option<i32>) -> Option<i64> {
    match v {
        Some(x) => Some(x as i64),
        None => None,
    }
}

/// The filters of an application listing.
pub open spec fn listing_params(
    name: Option<String>,
    projects: Option<Vec<String>>,
    selector: Option<String>,
    repo: Option<String>,
    app_namespace: Option<String>,
) -> Seq<QueryParam> {
    opt_param("name"@, name) + multi_param("projects"@, projects) + opt_param("selector"@, selector)
        + opt_param("repo"@, repo) + opt_param("appNamespace"@, app_namespace)
}

/// The application namespace and project parameters.
pub open spec fn scope_params(app_namespace: Option<String>, project: Option<String>) -> Seq<QueryParam> {
    opt_param("appNamespace"@, app_namespace) + opt_param("project"@, project)
}

/// The parameters that select one resource of an application; a patch
/// also names its type after the kind.
pub open spec fn resource_params(
    namespace: Option<String>,
    resource_name: Seq<char>,
    version: Seq<char>,
    group: Option<String>,
    kind: Seq<char>,
    patch_type: Option<String>,
    app_namespace: Option<String>,
    project: Option<String>,
) -> Seq<QueryParam> {
    opt_param("namespace"@, namespace) + req_param("resourceName"@, resource_name) + req_param("version"@, version)
        + opt_param("group"@, group) + req_param("kind"@, kind) + opt_param("patchType"@, patch_type)
        + scope_params(app_namespace, project)
}

/// The JSON form of an optional string: the string, or `null`.
pub open spec fn opt_text_json(o: Option<String>) -> JsonSpec {
    match o {
        Some(s) => JsonSpec::Str(s@),
        None => JsonSpec::Null,
    }
}

/// A member holding a string, present only when the string is.
pub open spec fn opt_text_member(name: Seq<char>, o: Option<String>) -> Seq<(Seq<char>, JsonSpec)> {
    match o {
        Some(s) => seq![(name, JsonSpec::Str(s@))],
        None => Seq::empty(),
    }
}

/// A member holding an integer, present only when the integer is.
pub open spec fn opt_int_member(name: Seq<char>, o: Option<i64>) -> Seq<(Seq<char>, JsonSpec)> {
    match o {
        Some(v) => seq![(name, JsonSpec::Number(Some(v)))],
        None => Seq::empty(),
    }
}

/// A flag that defaults to `false`.
pub open spec fn flag(o: Option<bool>) -> bool {
    match o {
        Some(b) => b,
        None => false,
    }
}

/// The body of a rollback request.
pub open spec fn rollback_body(
    name: Seq<char>,
    id: i64,
    dry_run: Option<bool>,
    prune: Option<bool>,
    app_namespace: Option<String>,
    project: Option<String>,
) -> JsonSpec {
    JsonSpec::Object(seq![
        ("name"@, JsonSpec::Str(name)),
        ("id"@, JsonSpec::Number(Some(id))),
        ("dryRun"@, JsonSpec::Bool(flag(dry_run))),
        ("prune"@, JsonSpec::Bool(flag(prune))),
        ("appNamespace"@, opt_text_json(app_namespace)),
        ("project"@, opt_text_json(project)),
    ])
}

/// The sync strategy sent: forced apply and forced hooks when the sync is
/// forced, else none.
pub open spec fn strategy_json(force: Option<bool>) -> JsonSpec {
    if force == Some(true) {
        JsonSpec::Object(seq![
            ("apply"@, JsonSpec::Object(seq![("force"@, JsonSpec::Bool(true))])),
            ("hook"@, JsonSpec::Object(seq![("force"@, JsonSpec::Bool(true))])),
        ])
    } else {
        JsonSpec::Null
    }
}

/// The JSON form of a resource selected for a sync.
pub open spec fn sync_resource_json(r: SyncResource) -> JsonSpec {
    JsonSpec::Object(
        opt_text_member("group"@, r.group) + seq![("kind"@, JsonSpec::Str(r.kind@)), ("name"@, JsonSpec::Str(r.name@))]
            + opt_text_member("namespace"@, r.namespace),
    )
}

/// The JSON forms of resources selected for a sync.
pub open spec fn resource_jsons(s: Seq<SyncResource>) -> Seq<JsonSpec> {
    s.map_values(|r: SyncResource| sync_resource_json(r))
}

/// The JSON forms of strings.
pub open spec fn text_jsons(s: Seq<String>) -> Seq<JsonSpec> {
    s.map_values(|x: String| JsonSpec::Str(x@))
}

/// The JSON form of the resources selected for a sync, or `null`.
pub open spec fn sync_resources_json(resources: Option<Vec<SyncResource>>) -> JsonSpec {
    match resources {
        Some(v) => JsonSpec::Array(resource_jsons(v@)),
        None => JsonSpec::Null,
    }
}

/// The JSON form of a list of strings, or `null`.
pub open spec fn text_list_json(values: Option<Vec<String>>) -> JsonSpec {
    match values {
        Some(v) => JsonSpec::Array(text_jsons(v@)),
        None => JsonSpec::Null,
    }
}

/// The JSON form of a backoff.
pub open spec fn backoff_json(b: Backoff) -> JsonSpec {
    JsonSpec::Object(
        opt_text_member("duration"@, b.duration) + opt_text_member("maxDuration"@, b.max_duration)
            + opt_int_member("factor"@, b.factor),
    )
}

/// The JSON form of a retry strategy, or `null`.
pub open spec fn retry_json(retry: Option<RetryStrategy>) -> JsonSpec {
    match retry {
        Some(r) => JsonSpec::Object(
            opt_int_member("limit"@, r.limit) + match r.backoff {
                Some(b) => seq![("backoff"@, backoff_json(b))],
                None => Seq::empty(),
            },
        ),
        None => JsonSpec::Null,
    }
}

/// The body of a sync request.
pub open spec fn sync_body(
    name: Seq<char>,
    revision: Option<String>,
    dry_run: Option<bool>,
    prune: Option<bool>,
    force: Option<bool>,
    resources: Option<Vec<SyncResource>>,
    sync_options: Option<Vec<String>>,
    retry: Option<RetryStrategy>,
    app_namespace: Option<String>,
    project: Option<String>,
) -> JsonSpec {
    JsonSpec::Object(seq![
        ("name"@, JsonSpec::Str(name)),
        ("revision"@, opt_text_json(revision)),
        ("dryRun"@, JsonSpec::Bool(flag(dry_run))),
        ("prune"@, JsonSpec::Bool(flag(prune))),
        ("strategy"@, strategy_json(force)),
        ("resources"@, sync_resources_json(resources)),
        ("syncOptions"@, text_list_json(sync_options)),
        ("retry"@, retry_json(retry)),
        ("appNamespace"@, opt_text_json(app_namespace)),
        ("project"@, opt_text_json(project)),
    ])
}

/// The JSON forms of a sequence of JSON values.
pub open spec fn json_views(a: Seq<JsonValue>) -> Seq<JsonSpec> {
    a.map_values(|x: JsonValue| json_view(x))
}

/// The members of an object, in their JSON forms.
pub open spec fn member_views(fs: Seq<JsonField>) -> Seq<(Seq<char>, JsonSpec)> {
    fs.map_values(|f: JsonField| (f.name@, json_view(f.value)))
}

proof fn lemma_array_view(a: Vec<JsonValue>)
    ensures
        json_view(JsonValue::Array(a)) == JsonSpec::Array(json_views(a@)),
{
    let v = json_view(JsonValue::Array(a));
    assert(json_views(a@) =~= v->Array_0);
}

proof fn lemma_object_view(fs: Vec<JsonField>)
    ensures
        json_view(JsonValue::Object(fs)) == JsonSpec::Object(member_views(fs@)),
{
    let v = json_view(JsonValue::Object(fs));
    assert(member_views(fs@) =~= v->Object_0);
}

fn member(name: &str, value: JsonValue) -> (f: JsonField)
    ensures
        f.name@ == name@,
        f.value == value,
{
    JsonField { name: name.to_owned(), value }
}

fn text_json(s: &String) -> (r: JsonValue)
    ensures
        json_view(r) == JsonSpec::Str(s@),
{
    JsonValue::Str(s.clone())
}

fn opt_text_json_of(o: &Option<String>) -> (r: JsonValue)
    ensures
        json_view(r) == opt_text_json(*o),
{
    match o {
        Some(s) => text_json(s),
        None => JsonValue::Null,
    }
}

fn push_opt_text_member(fields: &mut Vec<JsonField>, name: &str, o: &Option<String>)
    ensures
        member_views(final(fields)@) == member_views(old(fields)@) + opt_text_member(name@, *o),
{
    let ghost before = fields@;
    match o {
        Some(s) => {
            fields.push(member(name, text_json(s)));
        },
        None => {},
    }
    assert(member_views(fields@) =~= member_views(before) + opt_text_member(name@, *o));
}

fn push_opt_int_member(fields: &mut Vec<JsonField>, name: &str, o: Option<i64>)
    ensures
        member_views(final(fields)@) == member_views(old(fields)@) + opt_int_member(name@, o),
{
    let ghost before = fields@;
    match o {
        Some(v) => {
            fields.push(member(name, JsonValue::Number(Some(v))));
        },
        None => {},
    }
    assert(member_views(fields@) =~= member_views(before) + opt_int_member(name@, o));
}

fn forced() -> (r: JsonValue)
    ensures
        json_view(r) == JsonSpec::Object(seq![("force"@, JsonSpec::Bool(true))]),
{
    let mut fields: Vec<JsonField> = Vec::new();
    fields.push(member("force", JsonValue::Bool(true)));
    proof {
        lemma_object_view(fields);
        assert(member_views(fields@) =~= seq![("force"@, JsonSpec::Bool(true))]);
    }
    JsonValue::Object(fields)
}

fn strategy_json_of(force: Option<bool>) -> (r: JsonValue)
    ensures
        json_view(r) == strategy_json(force),
{
    if force == Some(true) {
        let mut fields: Vec<JsonField> = Vec::new();
        fields.push(member("apply", forced()));
        fields.push(member("hook", forced()));
        proof {
            lemma_object_view(fields);
            assert(member_views(fields@) =~= strategy_json(force)->Object_0);
        }
        JsonValue::Object(fields)
    } else {
        JsonValue::Null
    }
}

fn sync_resource_json_of(res: &SyncResource) -> (r: JsonValue)
    ensures
        json_view(r) == sync_resource_json(*res),
{
    let mut fields: Vec<JsonField> = Vec::new();
    push_opt_text_member(&mut fields, "group", &res.group);
    let ghost mid = fields@;
    fields.push(member("kind", text_json(&res.kind)));
    fields.push(member("name", text_json(&res.name)));
    proof {
        assert(member_views(fields@) =~= member_views(mid)
            + seq![("kind"@, JsonSpec::Str(res.kind@)), ("name"@, JsonSpec::Str(res.name@))]);
    }
    push_opt_text_member(&mut fields, "namespace", &res.namespace);
    proof {
        lemma_object_view(fields);
        assert(member_views(Seq::<JsonField>::empty()) =~= Seq::<(Seq<char>, JsonSpec)>::empty());
        assert(member_views(fields@) =~= sync_resource_json(*res)->Object_0);
    }
    JsonValue::Object(fields)
}

fn sync_resources_json_of(resources: &Option<Vec<SyncResource>>) -> (r: JsonValue)
    ensures
        json_view(r) == sync_resources_json(*resources),
{
    match resources {
        Some(v) => {
            let mut items: Vec<JsonValue> = Vec::new();
            let n = v.len();
            for i in 0..n
                invariant
                    n == v@.len(),
                    items@.len() == i,
                    json_views(items@) == resource_jsons(v@.take(i as int)),
            {
                let item = sync_resource_json_of(&v[i]);
                let ghost before = items@;
                items.push(item);
                assert(forall|j: int| 0 <= j < i ==> #[trigger] json_views(items@)[j] == json_views(before)[j]);
                assert(forall|j: int| 0 <= j < i ==> #[trigger] resource_jsons(v@.take(i + 1))[j] == resource_jsons(v@.take(i as int))[j]);
                assert(json_views(items@) =~= resource_jsons(v@.take(i + 1)));
            }
            proof {
                lemma_array_view(items);
                assert(v@.take(v@.len() as int) =~= v@);
            }
            JsonValue::Array(items)
        },
        None => JsonValue::Null,
    }
}

fn text_list_json_of(values: &Option<Vec<String>>) -> (r: JsonValue)
    ensures
        json_view(r) == text_list_json(*values),
{
    match values {
        Some(v) => {
            let mut items: Vec<JsonValue> = Vec::new();
            let n = v.len();
            for i in 0..n
                invariant
                    n == v@.len(),
                    items@.len() == i,
                    json_views(items@) == text_jsons(v@.take(i as int)),
            {
                let item = text_json(&v[i]);
                let ghost before = items@;
                items.push(item);
                assert(forall|j: int| 0 <= j < i ==> #[trigger] json_views(items@)[j] == json_views(before)[j]);
                assert(forall|j: int| 0 <= j < i ==> #[trigger] text_jsons(v@.take(i + 1))[j] == text_jsons(v@.take(i as int))[j]);
                assert(json_views(items@) =~= text_jsons(v@.take(i + 1)));
            }
            proof {
                lemma_array_view(items);
                assert(v@.take(v@.len() as int) =~= v@);
            }
            JsonValue::Array(items)
        },
        None => JsonValue::Null,
    }
}

fn retry_json_of(retry: &Option<RetryStrategy>) -> (r: JsonValue)
    ensures
        json_view(r) == retry_json(*retry),
{
    match retry {
        Some(rs) => {
            let mut fields: Vec<JsonField> = Vec::new();
            push_opt_int_member(&mut fields, "limit", rs.limit);
            let ghost mid = fields@;
            match &rs.backoff {
                Some(b) => {
                    let mut bf: Vec<JsonField> = Vec::new();
                    push_opt_text_member(&mut bf, "duration", &b.duration);
                    push_opt_text_member(&mut bf, "maxDuration", &b.max_duration);
                    push_opt_int_member(&mut bf, "factor", b.factor);
                    proof {
                        lemma_object_view(bf);
                        assert(member_views(Seq::<JsonField>::empty()) =~= Seq::<(Seq<char>, JsonSpec)>::empty());
                        assert(member_views(bf@) =~= backoff_json(*b)->Object_0);
                    }
                    let bj = JsonValue::Object(bf);
                    fields.push(member("backoff", bj));
                    assert(member_views(fields@) =~= member_views(mid) + seq![("backoff"@, backoff_json(*b))]);
                },
                None => {
                    assert(member_views(fields@) =~= member_views(mid) + Seq::<(Seq<char>, JsonSpec)>::empty());
                },
            }
            proof {
                lemma_object_view(fields);
                assert(member_views(Seq::<JsonField>::empty()) =~= Seq::<(Seq<char>, JsonSpec)>::empty());
                assert(member_views(fields@) =~= retry_json(*retry)->Object_0);
            }
            JsonValue::Object(fields)
        },
        None => JsonValue::Null,
    }
}

fn push_param_int(params: &mut Vec<(String, String)>, name: &str, value: Option<i64>)
    ensures
        params_view(final(params)@) == params_view(old(params)@) + int_param(name@, value),
{
    let ghost before = params@;
    match value {
        Some(v) => {
            let mut text = String::new();
            append_signed(&mut text, v);
            add_raw_param(params, name, text);
        },
        None => {},
    }
    assert(params_view(params@) =~= params_view(before) + int_param(name@, value));
}

fn push_param_ints(params: &mut Vec<(String, String)>, name: &str, values: &Option<Vec<i64>>)
    ensures
        params_view(final(params)@) == params_view(old(params)@) + int_list_param(name@, *values),
{
    let ghost before = params_view(params@);
    match values {
        Some(v) => {
            let n = v.len();
            for i in 0..n
                invariant
                    n == v@.len(),
                    params_view(params@) == before + v@.take(i as int).map_values(|x: i64| (name@, signed_decimal(x as int))),
            {
                push_param_int(params, name, Some(v[i]));
                assert(v@.take(i + 1).map_values(|x: i64| (name@, signed_decimal(x as int)))
                    =~= v@.take(i as int).map_values(|x: i64| (name@, signed_decimal(x as int))).push((name@, signed_decimal(v@[i as int] as int))));
                assert(params_view(params@) =~= before + v@.take(i + 1).map_values(|x: i64| (name@, signed_decimal(x as int))));
            }
            assert(v@.take(v@.len() as int) =~= v@);
        },
        None => {
            assert(params_view(params@) =~= before + int_list_param(name@, *values));
        },
    }
}

fn scope_param_list(app_namespace: &Option<String>, project: &Option<String>) -> (r: Vec<(String, String)>)
    ensures
        params_view(r@) == scope_params(*app_namespace, *project),
{
    let mut params: Vec<(String, String)> = Vec::new();
    add_opt_param(&mut params, "appNamespace", app_namespace);
    add_opt_param(&mut params, "project", project);
    assert(params_view(params@) =~= scope_params(*app_namespace, *project));
    params
}

fn path_of(name: &str, suffix: &str) -> (r: String)
    ensures
        r@ == application_path(name@, suffix@),
{
    let mut p = "/api/v1/applications/".to_owned();
    let encoded = url_encode(name);
    p.append(encoded.as_str());
    p.append(suffix);
    p
}

/// What a member of an error answer reads as: an absent member as empty
/// text, a string as itself; any other value does not read.
pub open spec fn error_member(o: Option<JsonValue>) -> Option<Seq<char>> {
    match o {
        None => Some(Seq::empty()),
        Some(JsonValue::Str(s)) => Some(s@),
        Some(_) => None,
    }
}

/// Two members that both read.
pub open spec fn both(e: Option<Seq<char>>, m: Option<Seq<char>>) -> Option<(Seq<char>, Seq<char>)> {
    match (e, m) {
        (Some(x), Some(y)) => Some((x, y)),
        _ => None,
    }
}

/// The `error` and `message` of an error answer, when its body reads as
/// one: an object whose members of these names are strings where present
/// (other members ignored), or an array of at most two strings (the error,
/// then the message); what is missing reads as empty text.
pub open spec fn error_fields(parsed: Option<JsonValue>) -> Option<(Seq<char>, Seq<char>)> {
    match parsed {
        Some(v) => match v {
            JsonValue::Object(_) => both(error_member(json_get(v, "error"@)), error_member(json_get(v, "message"@))),
            JsonValue::Array(a) => if a@.len() <= 2 {
                both(
                    if a@.len() >= 1 { error_member(Some(a@[0])) } else { Some(Seq::empty()) },
                    if a@.len() >= 2 { error_member(Some(a@[1])) } else { Some(Seq::empty()) },
                )
            } else {
                None
            },
            _ => None,
        },
        None => None,
    }
}

/// The detail of an error answer: its message, else its error, else the
/// whole body.
pub open spec fn error_detail(body: Seq<char>, parsed: Option<JsonValue>) -> Seq<char> {
    match error_fields(parsed) {
        Some((e, m)) => if m.len() > 0 {
            m
        } else if e.len() > 0 {
            e
        } else {
            body
        },
        None => body,
    }
}

/// The body of an error answer; one that could not be read stands as
/// `Unknown error`.
pub open spec fn error_body(body: Option<String>) -> Seq<char> {
    match body {
        Some(b) => b@,
        None => "Unknown error"@,
    }
}

/// The error reported for an answer with an error status, given the status
/// line, the body and what the body parses to as JSON.
pub open spec fn api_error_text(status: Seq<char>, body: Seq<char>, parsed: Option<JsonValue>) -> Seq<char> {
    "ArgoCD API error ("@ + status + "): "@ + error_detail(body, parsed)
}

/// The error reported, without reading the body, for an answer with an
/// error status to a request for a full, unsummarized resource.
pub open spec fn raw_api_error_text(status: Seq<char>, body: Option<String>) -> Seq<char> {
    "ArgoCD API error ("@ + status + "): "@ + error_body(body)
}

/// A member of a log entry that holds text: absent or `null` is none, a
/// string is itself; any other value does not read.
pub open spec fn text_member(o: Option<JsonValue>) -> Option<Option<String>> {
    match o {
        None => Some(None),
        Some(JsonValue::Null) => Some(None),
        Some(JsonValue::Str(s)) => Some(Some(s)),
        Some(_) => None,
    }
}

/// A member of a log entry that holds a flag: absent or `null` is none, a
/// boolean is itself; any other value does not read.
pub open spec fn bool_member(o: Option<JsonValue>) -> Option<Option<bool>> {
    match o {
        None => Some(None),
        Some(JsonValue::Null) => Some(None),
        Some(JsonValue::Bool(b)) => Some(Some(b)),
        Some(_) => None,
    }
}

/// A log entry from its five members, when all of them read.
pub open spec fn entry_from(
    content: Option<Option<String>>,
    last: Option<Option<bool>>,
    pod_name: Option<Option<String>>,
    time_stamp: Option<Option<String>>,
    time_stamp_str: Option<Option<String>>,
) -> Option<LogEntry> {
    if content is Some && last is Some && pod_name is Some && time_stamp is Some && time_stamp_str is Some {
        Some(LogEntry {
            content: content->0,
            last: last->0,
            pod_name: pod_name->0,
            time_stamp: time_stamp->0,
            time_stamp_str: time_stamp_str->0,
        })
    } else {
        None
    }
}

/// A log entry read from a JSON value: an object whose `content`,
/// `podName`, `timeStamp` and `timeStampStr` members are strings and whose
/// `last` member is a boolean, each where present and not `null` (other
/// members ignored), or an array of exactly these five values in this
/// order (`content`, `last`, `podName`, `timeStamp`, `timeStampStr`).
pub open spec fn log_entry_of(v: JsonValue) -> Option<LogEntry> {
    match v {
        JsonValue::Object(_) => entry_from(
            text_member(json_get(v, "content"@)),
            bool_member(json_get(v, "last"@)),
            text_member(json_get(v, "podName"@)),
            text_member(json_get(v, "timeStamp"@)),
            text_member(json_get(v, "timeStampStr"@)),
        ),
        JsonValue::Array(a) => if a@.len() == 5 {
            entry_from(
                text_member(Some(a@[0])),
                bool_member(Some(a@[1])),
                text_member(Some(a@[2])),
                text_member(Some(a@[3])),
                text_member(Some(a@[4])),
            )
        } else {
            None
        },
        _ => None,
    }
}

/// The entry of one line of a log answer, given what the line parses to as
/// JSON: a line wrapping its entry in a `result` member gives that entry;
/// a line without one is read as the entry itself.
pub open spec fn line_entry(parsed: Option<JsonValue>) -> Option<LogEntry> {
    match parsed {
        Some(v) => match json_get(v, "result"@) {
            Some(r) => log_entry_of(r),
            None => log_entry_of(v),
        },
        None => None,
    }
}

/// The log entries of the lines of a log answer, in order: blank lines are
/// skipped, and a line gives an entry when it parses as JSON and reads as one.
pub open spec fn log_entries_of(ls: Seq<Seq<char>>) -> Seq<LogEntry>
    decreases ls.len(),
{
    if ls.len() == 0 {
        Seq::empty()
    } else {
        let rest = log_entries_of(ls.drop_last());
        let l = ls.last();
        if blank(l) {
            rest
        } else {
            match line_entry(json_parse(l)) {
                Some(e) => rest.push(e),
                None => rest,
            }
        }
    }
}

/// The names of the applications that have metadata, in order.
pub open spec fn names_of(items: Seq<Application>) -> Seq<String>
    decreases items.len(),
{
    if items.len() == 0 {
        Seq::empty()
    } else {
        let rest = names_of(items.drop_last());
        match items.last().metadata {
            Some(m) => rest.push(m.name),
            None => rest,
        }
    }
}

fn error_member_of(v: &JsonValue) -> (r: Option<String>)
    ensures
        match r {
            Some(t) => error_member(Some(*v)) == Some(t@),
            None => error_member(Some(*v)) is None,
        },
{
    match v {
        JsonValue::Str(s) => Some(s.clone()),
        _ => None,
    }
}

fn opt_error_member_of(o: Option<&JsonValue>) -> (r: Option<String>)
    ensures
        match r {
            Some(t) => error_member(match o { Some(x) => Some(*x), None => None }) == Some(t@),
            None => error_member(match o { Some(x) => Some(*x), None => None }) is None,
        },
{
    match o {
        Some(x) => error_member_of(x),
        None => Some(String::new()),
    }
}

fn error_fields_of(parsed: &Option<JsonValue>) -> (r: Option<(String, String)>)
    ensures
        match r {
            Some((e, m)) => error_fields(*parsed) == Some((e@, m@)),
            None => error_fields(*parsed) is None,
        },
{
    match parsed {
        Some(v) => match v {
            JsonValue::Object(_) => {
                let e = opt_error_member_of(v.get("error"));
                let m = opt_error_member_of(v.get("message"));
                match (e, m) {
                    (Some(x), Some(y)) => Some((x, y)),
                    _ => None,
                }
            },
            JsonValue::Array(a) => {
                if a.len() > 2 {
                    return None;
                }
                let e = if a.len() >= 1 { error_member_of(&a[0]) } else { Some(String::new()) };
                let m = if a.len() >= 2 { error_member_of(&a[1]) } else { Some(String::new()) };
                match (e, m) {
                    (Some(x), Some(y)) => Some((x, y)),
                    _ => None,
                }
            },
            _ => None,
        },
        None => None,
    }
}

/// The message reported for an answer with an error status, given its
/// status line, its body and what the body parses to as JSON.
pub fn error_message(status: &str, body: &str, parsed: &Option<JsonValue>) -> (r: String)
    ensures
        r@ == api_error_text(status@, body@, *parsed),
{
    let mut out = "ArgoCD API error (".to_owned();
    out.append(status);
    out.append("): ");
    match error_fields_of(parsed) {
        Some((e, m)) => {
            if !m.as_str().is_empty() {
                out.append(m.as_str());
            } else if !e.as_str().is_empty() {
                out.append(e.as_str());
            } else {
                out.append(body);
            }
        },
        None => {
            out.append(body);
        },
    }
    out
}

/// The error reported for an answer with an error status; a body that
/// could not be read stands as `Unknown error`.
pub fn api_error(status: &str, body: Option<String>) -> (r: String)
    ensures
        r@ == api_error_text(status@, error_body(body), json_parse(error_body(body))),
{
    let text = match body {
        Some(b) => b,
        None => "Unknown error".to_owned(),
    };
    let parsed = parse_json(text.as_str());
    error_message(status, text.as_str(), &parsed)
}

/// The error reported for an answer with an error status to a request for
/// a full, unsummarized resource: the status and the body as it came; a
/// body that could not be read stands as `Unknown error`.
pub fn raw_api_error(status: &str, body: Option<String>) -> (r: String)
    ensures
        r@ == raw_api_error_text(status@, body),
{
    let mut out = "ArgoCD API error (".to_owned();
    out.append(status);
    out.append("): ");
    match body {
        Some(b) => out.append(b.as_str()),
        None => out.append("Unknown error"),
    }
    out
}

fn text_member_of(o: Option<&JsonValue>) -> (r: Option<Option<String>>)
    ensures
        r == text_member(match o { Some(x) => Some(*x), None => None }),
{
    match o {
        None => Some(None),
        Some(JsonValue::Null) => Some(None),
        Some(JsonValue::Str(s)) => Some(Some(s.clone())),
        Some(_) => None,
    }
}

fn bool_member_of(o: Option<&JsonValue>) -> (r: Option<Option<bool>>)
    ensures
        r == bool_member(match o { Some(x) => Some(*x), None => None }),
{
    match o {
        None => Some(None),
        Some(JsonValue::Null) => Some(None),
        Some(JsonValue::Bool(b)) => Some(Some(*b)),
        Some(_) => None,
    }
}

fn entry_from_members(
    content: Option<Option<String>>,
    last: Option<Option<bool>>,
    pod_name: Option<Option<String>>,
    time_stamp: Option<Option<String>>,
    time_stamp_str: Option<Option<String>>,
) -> (r: Option<LogEntry>)
    ensures
        r == entry_from(content, last, pod_name, time_stamp, time_stamp_str),
{
    match (content, last, pod_name, time_stamp, time_stamp_str) {
        (Some(c), Some(l), Some(p), Some(t), Some(ts)) => Some(
            LogEntry { content: c, last: l, pod_name: p, time_stamp: t, time_stamp_str: ts },
        ),
        _ => None,
    }
}

/// Reads a log entry from a JSON value.
pub fn log_entry_from_json(v: &JsonValue) -> (r: Option<LogEntry>)
    ensures
        r == log_entry_of(*v),
{
    match v {
        JsonValue::Object(_) => entry_from_members(
            text_member_of(v.get("content")),
            bool_member_of(v.get("last")),
            text_member_of(v.get("podName")),
            text_member_of(v.get("timeStamp")),
            text_member_of(v.get("timeStampStr")),
        ),
        JsonValue::Array(a) => {
            if a.len() == 5 {
                entry_from_members(
                    text_member_of(Some(&a[0])),
                    bool_member_of(Some(&a[1])),
                    text_member_of(Some(&a[2])),
                    text_member_of(Some(&a[3])),
                    text_member_of(Some(&a[4])),
                )
            } else {
                None
            }
        },
        _ => None,
    }
}

/// The entry of one line of a log answer, given what the line parses to.
pub fn entry_of_line(parsed: &Option<JsonValue>) -> (r: Option<LogEntry>)
    ensures
        r == line_entry(*parsed),
{
    match parsed {
        Some(v) => match v.get("result") {
            Some(inner) => log_entry_from_json(inner),
            None => log_entry_from_json(v),
        },
        None => None,
    }
}

/// The log entries of a log answer (JSON, one entry per line).
pub fn log_entries(text: &str) -> (r: Vec<LogEntry>)
    ensures
        r@ == log_entries_of(lines(text@)),
{
    let ls = lines_of(text);
    let ghost views = string_views(ls@);
    let mut out: Vec<LogEntry> = Vec::new();
    let n = ls.len();
    for i in 0..n
        invariant
            n == ls@.len(),
            views == string_views(ls@),
            views == lines(text@),
            out@ == log_entries_of(views.take(i as int)),
    {
        let line = ls[i].as_str();
        proof {
            assert(views.take(i + 1).drop_last() =~= views.take(i as int));
            assert(views.take(i + 1).last() == line@);
        }
        if !is_blank(line) {
            let parsed = parse_json(line);
            match entry_of_line(&parsed) {
                Some(e) => {
                    out.push(e);
                },
                None => {},
            }
        }
    }
    proof {
        assert(views.take(n as int) =~= views);
    }
    out
}

/// The names of the listed applications (those without metadata have none).
pub fn application_names(list: ApplicationList) -> (r: Vec<String>)
    ensures
        r@ == names_of(list.items@),
{
    let ghost items = list.items@;
    let mut names: Vec<String> = Vec::new();
    for app in it: list.items.into_iter()
        invariant
            it.seq() == items,
            names@ == names_of(items.take(it.index() as int)),
    {
        proof {
            let k = it.index() as int;
            assert(items.take(k + 1).drop_last() =~= items.take(k));
            assert(items.take(k + 1).last() == app);
        }
        match app.metadata {
            Some(m) => {
                names.push(m.name);
            },
            None => {},
        }
    }
    proof {
        assert(items.take(items.len() as int) =~= items);
    }
    names
}

/// The list view of each listed application, in order.
pub fn summarize_applications(list: ApplicationList) -> (r: Vec<ApplicationSummaryOutput>)
    ensures
        r@.len() == list.items@.len(),
        forall|i: int| 0 <= i < r@.len() ==> #[trigger] r@[i].summarizes(list.items@[i]),
{
    let ghost items = list.items@;
    let mut out: Vec<ApplicationSummaryOutput> = Vec::new();
    for app in it: list.items.into_iter()
        invariant
            it.seq() == items,
            out@.len() == it.index(),
            forall|i: int| 0 <= i < out@.len() ==> #[trigger] out@[i].summarizes(items[i]),
    {
        out.push(ApplicationSummaryOutput::from_application(app));
    }
    out
}

/// The summary of an events answer: of the event list it parsed to, or an
/// empty summary when it did not parse.
pub fn events_summary(parsed: Option<EventList>) -> (r: EventListSummary)
    ensures
        parsed is Some ==> r.summarizes(parsed->0),
        parsed is None ==> r.total_events == 0 && r.events_by_type@.len() == 0 && r.events_by_reason@.len() == 0
            && r.events@.len() == 0,
{
    match parsed {
        Some(list) => {
            EventListSummary::from_list(list)
        },
        None => {
            let empty = EventList { metadata: None, items: Vec::new() };
            let r = EventListSummary::from_list(empty);
            proof {
                assert(empty.items@ =~= Seq::<crate::events::Event>::empty());
                assert(crate::events::event_types(empty.items@) =~= Seq::<Seq<char>>::empty());
                assert(crate::events::event_reasons(empty.items@) =~= Seq::<Seq<char>>::empty());
                assert(crate::tally::counts_view(r.events_by_type@).len() == r.events_by_type@.len());
                assert(crate::tally::counts_view(r.events_by_reason@).len() == r.events_by_reason@.len());
            }
            r
        },
    }
}

impl ArgocdClient {
    /// The base URL of the server, without trailing `/`.
    pub closed spec fn base(&self) -> Seq<char> {
        self.base_url@
    }

    /// The bearer token.
    pub closed spec fn token(&self) -> Seq<char> {
        self.access_token@
    }

    /// The headers of every request: the bearer token and JSON as the
    /// accepted answer; a request with a body also declares it as JSON.
    pub open spec fn headers_for(&self, with_body: bool) -> Seq<(Seq<char>, Seq<char>)> {
        let common = seq![("Authorization"@, "Bearer "@ + self.token()), ("Accept"@, "application/json"@)];
        if with_body {
            common.push(("Content-Type"@, "application/json"@))
        } else {
            common
        }
    }

    /// `r` is a request of this client with the given method to `path` with
    /// the given query parameters (headers included).
    pub open spec fn is_request(&self, r: ApiRequest, method: HttpMethod, path: Seq<char>, params: Seq<QueryParam>) -> bool {
        &&& r.method == method
        &&& r.url@ == self.base() + path + query_string(params)
        &&& pair_views(r.headers@) == self.headers_for(method == HttpMethod::Post)
    }

    /// `r` is a GET request of `path` with the given query parameters.
    pub open spec fn is_get(&self, r: ApiRequest, path: Seq<char>, params: Seq<QueryParam>) -> bool {
        &&& self.is_request(r, HttpMethod::Get, path, params)
        &&& r.body is Empty
    }

    /// Checks the connection settings: neither the base URL nor the token
    /// may be empty; trailing `/` characters of the base URL are dropped.
    pub fn new(base_url: String, access_token: String) -> (r: Result<Self, String>)
        ensures
            base_url@.len() == 0 ==> (r matches Err(e) && e@ == "base_url cannot be empty"@),
            base_url@.len() > 0 && access_token@.len() == 0 ==> (r matches Err(e) && e@ == "access_token cannot be empty"@),
            base_url@.len() > 0 && access_token@.len() > 0 ==> (r matches Ok(c) && c.base() == without_trailing_slashes(base_url@)
                && c.token() == access_token@),
    {
        if base_url.as_str().is_empty() {
            return Err("base_url cannot be empty".to_owned());
        }
        if access_token.as_str().is_empty() {
            return Err("access_token cannot be empty".to_owned());
        }
        let trimmed = trim_trailing_slashes(base_url.as_str());
        Ok(ArgocdClient { base_url: trimmed, access_token })
    }

    /// The base URL of the server.
    pub fn base_url(&self) -> (r: &str)
        ensures
            r@ == self.base(),
    {
        self.base_url.as_str()
    }

    /// Whether TLS certificate checks are skipped, given the setting of
    /// `ARGOCD_INSECURE` (`true` in any case skips them).
    pub fn skip_tls_verification(setting: Option<String>) -> (r: bool)
        ensures
            r == insecure_setting(setting),
    {
        match setting {
            Some(s) => {
                let lowered = to_lower(s.as_str());
                lowered == "true".to_owned()
            },
            None => false,
        }
    }

    fn headers(&self, with_body: bool) -> (r: Vec<(String, String)>)
        ensures
            pair_views(r@) == self.headers_for(with_body),
    {
        let mut auth = "Bearer ".to_owned();
        auth.append(self.access_token.as_str());
        let mut h: Vec<(String, String)> = Vec::new();
        h.push(("Authorization".to_owned(), auth));
        h.push(("Accept".to_owned(), "application/json".to_owned()));
        if with_body {
            h.push(("Content-Type".to_owned(), "application/json".to_owned()));
        }
        assert(pair_views(h@) =~= self.headers_for(with_body));
        h
    }

    fn request(&self, method: HttpMethod, path: &str, params: &Vec<(String, String)>, body: RequestBody) -> (r: ApiRequest)
        requires
            (method == HttpMethod::Get) == (body is Empty),
        ensures
            self.is_request(r, method, path@, params_view(params@)),
            r.body == body,
    {
        let mut url = self.base_url.clone();
        url.append(path);
        append_query(&mut url, params);
        let headers = self.headers(method == HttpMethod::Post);
        ApiRequest { method, url, headers, body }
    }

    /// The request that lists applications, filtered by name, projects,
    /// label selector, repository and application namespace.
    pub fn list_applications_request(
        &self,
        name: &Option<String>,
        projects: &Option<Vec<String>>,
        selector: &Option<String>,
        repo: &Option<String>,
        app_namespace: &Option<String>,
    ) -> (r: ApiRequest)
        ensures
            self.is_get(r, applications_path(), listing_params(*name, *projects, *selector, *repo, *app_namespace)),
    {
        let mut params: Vec<(String, String)> = Vec::new();
        add_opt_param(&mut params, "name", name);
        add_multi_param(&mut params, "projects", projects);
        add_opt_param(&mut params, "selector", selector);
        add_opt_param(&mut params, "repo", repo);
        add_opt_param(&mut params, "appNamespace", app_namespace);
        assert(params_view(params@) =~= listing_params(*name, *projects, *selector, *repo, *app_namespace));
        self.request(HttpMethod::Get, "/api/v1/applications", &params, RequestBody::Empty)
    }

    /// The request that lists applications for their names (no name filter).
    pub fn list_application_names_request(
        &self,
        projects: &Option<Vec<String>>,
        selector: &Option<String>,
        repo: &Option<String>,
        app_namespace: &Option<String>,
    ) -> (r: ApiRequest)
        ensures
            self.is_get(r, applications_path(), listing_params(None, *projects, *selector, *repo, *app_namespace)),
    {
        self.list_applications_request(&None, projects, selector, repo, app_namespace)
    }

    /// The request for a server-side diff of an application.
    pub fn server_side_diff_request(
        &self,
        app_name: &str,
        app_namespace: &Option<String>,
        project: &Option<String>,
        target_manifests: &Option<Vec<String>>,
    ) -> (r: ApiRequest)
        ensures
            self.is_get(r, application_path(app_name@, "/server-side-diff"@),
                scope_params(*app_namespace, *project) + multi_param("targetManifests"@, *target_manifests)),
    {
        let mut params = scope_param_list(app_namespace, project);
        add_multi_param(&mut params, "targetManifests", target_manifests);
        let path = path_of(app_name, "/server-side-diff");
        self.request(HttpMethod::Get, path.as_str(), &params, RequestBody::Empty)
    }

    /// The request for the resource tree of an application.
    pub fn resource_tree_request(
        &self,
        application_name: &str,
        namespace: &Option<String>,
        name: &Option<String>,
        version: &Option<String>,
        group: &Option<String>,
        kind: &Option<String>,
        app_namespace: &Option<String>,
        project: &Option<String>,
    ) -> (r: ApiRequest)
        ensures
            self.is_get(r, application_path(application_name@, "/resource-tree"@),
                tree_params(*namespace, *name, *version, *group, *kind, *app_namespace, *project)),
    {
        let mut params: Vec<(String, String)> = Vec::new();
        add_opt_param(&mut params, "namespace", namespace);
        add_opt_param(&mut params, "name", name);
        add_opt_param(&mut params, "version", version);
        add_opt_param(&mut params, "group", group);
        add_opt_param(&mut params, "kind", kind);
        add_opt_param(&mut params, "appNamespace", app_namespace);
        add_opt_param(&mut params, "project", project);
        assert(params_view(params@) =~= tree_params(*namespace, *name, *version, *group, *kind, *app_namespace, *project));
        let path = path_of(application_name, "/resource-tree");
        self.request(HttpMethod::Get, path.as_str(), &params, RequestBody::Empty)
    }

    /// The request for one application.
    pub fn get_application_request(
        &self,
        name: &str,
        app_namespace: &Option<String>,
        project: &Option<String>,
        refresh: &Option<String>,
        resource_version: &Option<String>,
    ) -> (r: ApiRequest)
        ensures
            self.is_get(r, application_path(name@, ""@),
                application_params(*app_namespace, *project, *refresh, *resource_version)),
    {
        let mut params = scope_param_list(app_namespace, project);
        add_opt_param(&mut params, "refresh", refresh);
        add_opt_param(&mut params, "resourceVersion", resource_version);
        assert(params_view(params@) =~= application_params(*app_namespace, *project, *refresh, *resource_version));
        let path = path_of(name, "");
        self.request(HttpMethod::Get, path.as_str(), &params, RequestBody::Empty)
    }

    /// The request for the events of an application or of one of its resources.
    pub fn list_resource_events_request(
        &self,
        application_name: &str,
        resource_namespace: &Option<String>,
        resource_name: &Option<String>,
        resource_uid: &Option<String>,
        app_namespace: &Option<String>,
        project: &Option<String>,
    ) -> (r: ApiRequest)
        ensures
            self.is_get(r, application_path(application_name@, "/events"@),
                event_params(*resource_namespace, *resource_name, *resource_uid, *app_namespace, *project)),
    {
        let mut params: Vec<(String, String)> = Vec::new();
        add_opt_param(&mut params, "resourceNamespace", resource_namespace);
        add_opt_param(&mut params, "resourceName", resource_name);
        add_opt_param(&mut params, "resourceUID", resource_uid);
        add_opt_param(&mut params, "appNamespace", app_namespace);
        add_opt_param(&mut params, "project", project);
        assert(params_view(params@) =~= event_params(*resource_namespace, *resource_name, *resource_uid, *app_namespace, *project));
        let path = path_of(application_name, "/events");
        self.request(HttpMethod::Get, path.as_str(), &params, RequestBody::Empty)
    }

    /// The request for the logs of a pod (or of the pods of a resource) of an
    /// application, without following them.
    pub fn pod_logs_request(
        &self,
        application_name: &str,
        namespace: &Option<String>,
        pod_name: &Option<String>,
        container: &Option<String>,
        since_seconds: Option<i64>,
        tail_lines: Option<i64>,
        previous: Option<bool>,
        filter: &Option<String>,
        kind: &Option<String>,
        group: &Option<String>,
        resource_name: &Option<String>,
        app_namespace: &Option<String>,
        project: &Option<String>,
    ) -> (r: ApiRequest)
        ensures
            self.is_get(r, application_path(application_name@, "/logs"@),
                pod_log_params(*namespace, *pod_name, *container, since_seconds, tail_lines, previous, *filter,
                    *kind, *group, *resource_name, *app_namespace, *project)),
    {
        let mut params: Vec<(String, String)> = Vec::new();
        add_opt_param(&mut params, "namespace", namespace);
        add_opt_param(&mut params, "podName", pod_name);
        add_opt_param(&mut params, "container", container);
        push_param_int(&mut params, "sinceSeconds", since_seconds);
        push_param_int(&mut params, "tailLines", tail_lines);
        let ghost mid = params_view(params@);
        if previous == Some(true) {
            add_raw_param(&mut params, "previous", "true".to_owned());
        }
        assert(params_view(params@) =~= mid + (if previous == Some(true) { seq![("previous"@, "true"@)] } else { Seq::empty() }));
        add_opt_param(&mut params, "filter", filter);
        add_opt_param(&mut params, "kind", kind);
        add_opt_param(&mut params, "group", group);
        add_opt_param(&mut params, "resourceName", resource_name);
        add_opt_param(&mut params, "appNamespace", app_namespace);
        add_opt_param(&mut params, "project", project);
        add_raw_param(&mut params, "follow", "false".to_owned());
        assert(params_view(params@) =~= pod_log_params(*namespace, *pod_name, *container, since_seconds, tail_lines,
            previous, *filter, *kind, *group, *resource_name, *app_namespace, *project));
        let path = path_of(application_name, "/logs");
        self.request(HttpMethod::Get, path.as_str(), &params, RequestBody::Empty)
    }

    /// The request for the manifests of an application.
    pub fn get_manifests_request(
        &self,
        application_name: &str,
        revision: &Option<String>,
        app_namespace: &Option<String>,
        project: &Option<String>,
        source_positions: &Option<Vec<i64>>,
        revisions: &Option<Vec<String>>,
    ) -> (r: ApiRequest)
        ensures
            self.is_get(r, application_path(application_name@, "/manifests"@),
                manifest_params(*revision, *app_namespace, *project, *source_positions, *revisions)),
    {
        let mut params: Vec<(String, String)> = Vec::new();
        add_opt_param(&mut params, "revision", revision);
        add_opt_param(&mut params, "appNamespace", app_namespace);
        add_opt_param(&mut params, "project", project);
        push_param_ints(&mut params, "sourcePositions", source_positions);
        add_multi_param(&mut params, "revisions", revisions);
        assert(params_view(params@) =~= manifest_params(*revision, *app_namespace, *project, *source_positions, *revisions));
        let path = path_of(application_name, "/manifests");
        self.request(HttpMethod::Get, path.as_str(), &params, RequestBody::Empty)
    }

    /// The request for the metadata of a revision of an application.
    pub fn revision_metadata_request(
        &self,
        application_name: &str,
        revision: &str,
        app_namespace: &Option<String>,
        project: &Option<String>,
        source_index: Option<i32>,
        version_id: Option<i32>,
    ) -> (r: ApiRequest)
        ensures
            self.is_get(r, revision_metadata_path(application_name@, revision@),
                scope_params(*app_namespace, *project) + int_param("sourceIndex"@, widen(source_index))
                    + int_param("versionId"@, widen(version_id))),
    {
        let mut params = scope_param_list(app_namespace, project);
        let si: Option<i64> = match source_index {
            Some(x) => Some(x as i64),
            None => None,
        };
        let vi: Option<i64> = match version_id {
            Some(x) => Some(x as i64),
            None => None,
        };
        push_param_int(&mut params, "sourceIndex", si);
        push_param_int(&mut params, "versionId", vi);
        let mut suffix = "/revisions/".to_owned();
        let encoded = url_encode(revision);
        suffix.append(encoded.as_str());
        suffix.append("/metadata");
        let path = path_of(application_name, suffix.as_str());
        self.request(HttpMethod::Get, path.as_str(), &params, RequestBody::Empty)
    }

    /// The request for the sync windows of an application.
    pub fn sync_windows_request(
        &self,
        application_name: &str,
        app_namespace: &Option<String>,
        project: &Option<String>,
    ) -> (r: ApiRequest)
        ensures
            self.is_get(r, application_path(application_name@, "/sync-windows"@), scope_params(*app_namespace, *project)),
    {
        let params = scope_param_list(app_namespace, project);
        let path = path_of(application_name, "/sync-windows");
        self.request(HttpMethod::Get, path.as_str(), &params, RequestBody::Empty)
    }

    /// The request that rolls an application back to the deployment with
    /// history id `id` (dry run and prune default to off).
    pub fn rollback_request(
        &self,
        name: &String,
        id: i64,
        dry_run: Option<bool>,
        prune: Option<bool>,
        app_namespace: &Option<String>,
        project: &Option<String>,
    ) -> (r: ApiRequest)
        ensures
            self.is_request(r, HttpMethod::Post, application_path(name@, "/rollback"@), scope_params(*app_namespace, *project)),
            r.body matches RequestBody::Json(b) && json_view(b) == rollback_body(name@, id, dry_run, prune, *app_namespace, *project),
    {
        let params = scope_param_list(app_namespace, project);
        let mut fields: Vec<JsonField> = Vec::new();
        fields.push(member("name", text_json(name)));
        fields.push(member("id", JsonValue::Number(Some(id))));
        fields.push(member("dryRun", JsonValue::Bool(match dry_run { Some(b) => b, None => false })));
        fields.push(member("prune", JsonValue::Bool(match prune { Some(b) => b, None => false })));
        fields.push(member("appNamespace", opt_text_json_of(app_namespace)));
        fields.push(member("project", opt_text_json_of(project)));
        proof {
            lemma_object_view(fields);
            assert(member_views(fields@) =~= rollback_body(name@, id, dry_run, prune, *app_namespace, *project)->Object_0);
        }
        let path = path_of(name.as_str(), "/rollback");
        self.request(HttpMethod::Post, path.as_str(), &params, RequestBody::Json(JsonValue::Object(fields)))
    }

    /// The request that syncs an application: a forced sync forces both
    /// apply and hooks; dry run and prune default to off.
    pub fn sync_request(
        &self,
        name: &String,
        revision: &Option<String>,
        dry_run: Option<bool>,
        prune: Option<bool>,
        force: Option<bool>,
        resources: &Option<Vec<SyncResource>>,
        sync_options: &Option<Vec<String>>,
        retry: &Option<RetryStrategy>,
        app_namespace: &Option<String>,
        project: &Option<String>,
    ) -> (r: ApiRequest)
        ensures
            self.is_request(r, HttpMethod::Post, application_path(name@, "/sync"@), scope_params(*app_namespace, *project)),
            r.body matches RequestBody::Json(b) && json_view(b) == sync_body(name@, *revision, dry_run, prune, force,
                *resources, *sync_options, *retry, *app_namespace, *project),
    {
        let params = scope_param_list(app_namespace, project);
        let mut fields: Vec<JsonField> = Vec::new();
        fields.push(member("name", text_json(name)));
        fields.push(member("revision", opt_text_json_of(revision)));
        fields.push(member("dryRun", JsonValue::Bool(match dry_run { Some(b) => b, None => false })));
        fields.push(member("prune", JsonValue::Bool(match prune { Some(b) => b, None => false })));
        fields.push(member("strategy", strategy_json_of(force)));
        fields.push(member("resources", sync_resources_json_of(resources)));
        fields.push(member("syncOptions", text_list_json_of(sync_options)));
        fields.push(member("retry", retry_json_of(retry)));
        fields.push(member("appNamespace", opt_text_json_of(app_namespace)));
        fields.push(member("project", opt_text_json_of(project)));
        proof {
            lemma_object_view(fields);
            assert(member_views(fields@) =~= sync_body(name@, *revision, dry_run, prune, force, *resources,
                *sync_options, *retry, *app_namespace, *project)->Object_0);
        }
        let path = path_of(name.as_str(), "/sync");
        self.request(HttpMethod::Post, path.as_str(), &params, RequestBody::Json(JsonValue::Object(fields)))
    }

    fn resource_param_list(
        namespace: &Option<String>,
        resource_name: &str,
        version: &str,
        group: &Option<String>,
        kind: &str,
        patch_type: &Option<String>,
        app_namespace: &Option<String>,
        project: &Option<String>,
    ) -> (r: Vec<(String, String)>)
        ensures
            params_view(r@) == resource_params(*namespace, resource_name@, version@, *group, kind@, *patch_type,
                *app_namespace, *project),
    {
        let mut params: Vec<(String, String)> = Vec::new();
        add_opt_param(&mut params, "namespace", namespace);
        add_param(&mut params, "resourceName", resource_name);
        add_param(&mut params, "version", version);
        add_opt_param(&mut params, "group", group);
        add_param(&mut params, "kind", kind);
        add_opt_param(&mut params, "patchType", patch_type);
        add_opt_param(&mut params, "appNamespace", app_namespace);
        add_opt_param(&mut params, "project", project);
        assert(params_view(params@) =~= resource_params(*namespace, resource_name@, version@, *group, kind@,
            *patch_type, *app_namespace, *project));
        params
    }

    /// The request for one resource of an application.
    pub fn get_resource_request(
        &self,
        application_name: &str,
        namespace: &Option<String>,
        resource_name: &str,
        version: &str,
        group: &Option<String>,
        kind: &str,
        app_namespace: &Option<String>,
        project: &Option<String>,
    ) -> (r: ApiRequest)
        ensures
            self.is_get(r, application_path(application_name@, "/resource"@),
                resource_params(*namespace, resource_name@, version@, *group, kind@, None, *app_namespace, *project)),
    {
        let params = Self::resource_param_list(namespace, resource_name, version, group, kind, &None, app_namespace, project);
        let path = path_of(application_name, "/resource");
        self.request(HttpMethod::Get, path.as_str(), &params, RequestBody::Empty)
    }

    /// The request that patches one resource of an application; the patch
    /// document is sent as it is.
    pub fn patch_resource_request(
        &self,
        application_name: &str,
        namespace: &Option<String>,
        resource_name: &str,
        version: &str,
        group: &Option<String>,
        kind: &str,
        patch: &String,
        patch_type: &Option<String>,
        app_namespace: &Option<String>,
        project: &Option<String>,
    ) -> (r: ApiRequest)
        ensures
            self.is_request(r, HttpMethod::Post, application_path(application_name@, "/resource"@),
                resource_params(*namespace, resource_name@, version@, *group, kind@, *patch_type, *app_namespace, *project)),
            r.body matches RequestBody::Text(t) && t@ == patch@,
    {
        let params = Self::resource_param_list(namespace, resource_name, version, group, kind, patch_type, app_namespace, project);
        let path = path_of(application_name, "/resource");
        self.request(HttpMethod::Post, path.as_str(), &params, RequestBody::Text(patch.clone()))
    }
}

impl Clone for ArgocdClient {
    /// A copy of the client, with the same base URL and token.
    fn clone(&self) -> (r: Self)
        ensures
            r == *self,
    {
        ArgocdClient { base_url: self.base_url.clone(), access_token: self.access_token.clone() }
    }
}

} // verus!
