//! Application manifests and single-resource manifests, parsed into
//! compact summaries.

use vstd::prelude::*;
use vstd::string::*;
use vstd::utf8::{decode_utf8, encode_utf8, encode_utf8_decode_utf8, is_char_boundary};
use crate::json::{json_at, json_get, json_i64, json_parse, json_str, parse_json, parse_yaml, yaml_parse, JsonField, JsonValue};
use crate::tally::{counts_view, string_views, tally, tally_keys};
use crate::text::{append_decimal, append_signed, can_cut_at, decimal, signed_decimal};

verus! {

/// The manifests of an application and how they were produced.
#[derive(Debug, Clone)]
pub struct ManifestResponse {
    pub manifests: Option<Vec<String>>,
    pub namespace: Option<String>,
    pub revision: Option<String>,
    pub server: Option<String>,
    pub source_type: Option<String>,
    pub commands: Option<Vec<String>>,
    pub verify_result: Option<String>,
}

/// The identifying fields of one manifest, with its text.
#[derive(Debug, Clone)]
pub struct ParsedManifest {
    pub kind: String,
    pub api_version: String,
    pub name: String,
    pub namespace: Option<String>,
    pub raw_yaml: String,
}

/// Counts by kind and the parsed manifests.
#[derive(Debug, Clone)]
pub struct ManifestSummary {
    pub total_manifests: usize,
    pub manifests_by_kind: Vec<(String, usize)>,
    pub revision: Option<String>,
    pub namespace: Option<String>,
    pub server: Option<String>,
    pub source_type: Option<String>,
    pub commands: Option<Vec<String>>,
    pub manifests: Vec<ParsedManifest>,
}

/// The manifest of one resource, as text.
#[derive(Debug, Clone)]
pub struct ApplicationResourceResponse {
    pub manifest: Option<String>,
}

/// One resource of an application, with a summary of its manifest and the
/// manifest text (truncated when long).
#[derive(Debug, Clone)]
pub struct ApplicationResourceSummary {
    pub app_name: String,
    pub kind: String,
    pub resource_name: String,
    pub namespace: Option<String>,
    pub version: String,
    pub group: Option<String>,
    pub manifest_summary: ResourceManifestSummary,
    pub manifest: String,
}

/// Key fields of a resource manifest. Labels are the string-valued labels,
/// as key/value pairs.
#[derive(Debug, Clone)]
pub struct ResourceManifestSummary {
    pub api_version: Option<String>,
    pub kind: Option<String>,
    pub name: Option<String>,
    pub namespace: Option<String>,
    pub labels: Option<Vec<(String, String)>>,
    pub annotations_count: Option<usize>,
    pub creation_timestamp: Option<String>,
    pub status_summary: Option<String>,
}

/// Number of bytes of a resource manifest kept in a summary.
pub const MANIFEST_BYTE_LIMIT: usize = 10000;

/// The string at `key` of a document, or `Unknown`.
pub open spec fn str_or_unknown(v: JsonValue, key: Seq<char>) -> Seq<char> {
    match json_str(json_at(v, key)) {
        Some(s) => s@,
        None => "Unknown"@,
    }
}

impl ParsedManifest {
    /// What the parsed form of a document holds.
    pub open spec fn describes(self, doc: JsonValue, yaml: Seq<char>) -> bool {
        &&& self.kind@ == str_or_unknown(doc, "kind"@)
        &&& self.api_version@ == str_or_unknown(doc, "apiVersion"@)
        &&& self.name@ == str_or_unknown(json_at(doc, "metadata"@), "name"@)
        &&& self.namespace == json_str(json_at(json_at(doc, "metadata"@), "namespace"@))
        &&& self.raw_yaml@ == yaml
    }

    /// Reads the kind, API version, name and namespace of a parsed document.
    pub fn from_document(doc: &JsonValue, yaml: &str) -> (r: Self)
        ensures
            r.describes(*doc, yaml@),
    {
        let unknown = "Unknown";
        let kind = match doc.str_at("kind") {
            Some(s) => s,
            None => unknown.to_owned(),
        };
        let api_version = match doc.str_at("apiVersion") {
            Some(s) => s,
            None => unknown.to_owned(),
        };
        let (name, namespace) = match doc.get("metadata") {
            Some(meta) => (
                match meta.str_at("name") {
                    Some(s) => s,
                    None => unknown.to_owned(),
                },
                meta.str_at("namespace"),
            ),
            None => (unknown.to_owned(), None),
        };
        ParsedManifest { kind, api_version, name, namespace, raw_yaml: yaml.to_owned() }
    }

    /// Parses a YAML (or JSON) manifest.
    pub fn from_yaml(yaml: &str) -> (r: Result<Self, String>)
        ensures
            match yaml_parse(yaml@) {
                Ok(doc) => r matches Ok(m) && m.describes(doc, yaml@),
                Err(e) => r matches Err(msg) && msg@ == "Failed to parse YAML: "@ + e,
            },
    {
        match parse_yaml(yaml) {
            Ok(doc) => Ok(Self::from_document(&doc, yaml)),
            Err(e) => {
                let mut msg = "Failed to parse YAML: ".to_owned();
                msg.append(e.as_str());
                Err(msg)
            },
        }
    }
}

/// The manifests of a list that parse, in order.
pub open spec fn parsable(raw: Seq<String>) -> Seq<String> {
    raw.filter(|s: String| yaml_parse(s@) is Ok)
}

impl ManifestSummary {
    /// What the summary of a manifest response reports: `total_manifests`
    /// counts every manifest, the list keeps those that parse.
    pub open spec fn summarizes(self, response: ManifestResponse) -> bool {
        let raw = match response.manifests {
            Some(m) => m@,
            None => Seq::empty(),
        };
        &&& self.total_manifests == raw.len()
        &&& self.manifests@.len() == parsable(raw).len()
        &&& forall|i: int| 0 <= i < self.manifests@.len() ==>
            (#[trigger] self.manifests@[i]).describes(yaml_parse(parsable(raw)[i]@)->Ok_0, parsable(raw)[i]@)
        &&& counts_view(self.manifests_by_kind@) == tally(self.manifests@.map_values(|m: ParsedManifest| m.kind@))
        &&& self.revision == response.revision
        &&& self.namespace == response.namespace
        &&& self.server == response.server
        &&& self.source_type == response.source_type
        &&& self.commands == response.commands
    }

    /// Parses every manifest of a response and counts them by kind.
    pub fn from_response(response: ManifestResponse) -> (r: Self)
        ensures
            r.summarizes(response),
    {
        let ghost resp = response;
        let ManifestResponse { manifests, namespace, revision, server, source_type, commands, verify_result: _ } = response;
        let raw = match manifests {
            Some(m) => m,
            None => Vec::new(),
        };
        let mut parsed: Vec<ParsedManifest> = Vec::new();
        let mut kinds: Vec<String> = Vec::new();
        proof {
            reveal(Seq::filter);
            assert(parsable(raw@.take(0)).len() == 0);
        }
        for i in 0..raw.len()
            invariant
                parsed@.len() == parsable(raw@.take(i as int)).len(),
                forall|j: int| 0 <= j < parsed@.len() ==>
                    (#[trigger] parsed@[j]).describes(yaml_parse(parsable(raw@.take(i as int))[j]@)->Ok_0, parsable(raw@.take(i as int))[j]@),
                string_views(kinds@) == parsed@.map_values(|m: ParsedManifest| m.kind@),
        {
            let ghost before = raw@.take(i as int);
            proof {
                assert(raw@.take(i + 1).drop_last() =~= before);
                reveal(Seq::filter);
                assert(parsable(raw@.take(i + 1)) == if yaml_parse(raw@[i as int]@) is Ok {
                    parsable(before).push(raw@[i as int])
                } else {
                    parsable(before)
                });
            }
            let ghost prev = parsed@;
            match ParsedManifest::from_yaml(raw[i].as_str()) {
                Ok(m) => {
                    proof {
                        assert(yaml_parse(raw@[i as int]@) is Ok);
                        assert(parsable(raw@.take(i + 1)) == parsable(before).push(raw@[i as int]));
                    }
                    let ghost prev_kinds = kinds@;
                    kinds.push(m.kind.clone());
                    let ghost mm = m;
                    parsed.push(m);
                    assert(string_views(kinds@) =~= string_views(prev_kinds).push(mm.kind@));
                    assert(parsed@.map_values(|m: ParsedManifest| m.kind@) =~= prev.map_values(|m: ParsedManifest| m.kind@).push(mm.kind@));
                    assert(string_views(kinds@) =~= parsed@.map_values(|m: ParsedManifest| m.kind@));
                    assert forall|j: int| 0 <= j < parsed@.len() implies
                        (#[trigger] parsed@[j]).describes(yaml_parse(parsable(raw@.take(i + 1))[j]@)->Ok_0, parsable(raw@.take(i + 1))[j]@) by {
                        if j < prev.len() {
                            assert(parsed@[j] == prev[j]);
                            assert(parsed@[j].describes(yaml_parse(parsable(before)[j]@)->Ok_0, parsable(before)[j]@));
                            assert(parsable(raw@.take(i + 1))[j] == parsable(before)[j]);
                        }
                    }
                },
                Err(_) => {
                    proof {
                        assert(!(yaml_parse(raw@[i as int]@) is Ok));
                        assert(parsable(raw@.take(i + 1)) == parsable(before));
                        assert forall|j: int| 0 <= j < parsed@.len() implies
                            (#[trigger] parsed@[j]).describes(yaml_parse(parsable(raw@.take(i + 1))[j]@)->Ok_0, parsable(raw@.take(i + 1))[j]@) by {
                            assert(parsed@[j].describes(yaml_parse(parsable(before)[j]@)->Ok_0, parsable(before)[j]@));
                            assert(parsable(raw@.take(i + 1))[j] == parsable(before)[j]);
                        }
                    }
                },
            }
        }
        assert(raw@.take(raw@.len() as int) =~= raw@);
        let manifests_by_kind = tally_keys(&kinds);
        ManifestSummary {
            total_manifests: raw.len(),
            manifests_by_kind,
            revision,
            namespace,
            server,
            source_type,
            commands,
            manifests: parsed,
        }
    }
}

/// The string-valued members of an object, as key/value views.
pub open spec fn string_members(fields: Seq<JsonField>) -> Seq<(Seq<char>, Seq<char>)>
    decreases fields.len(),
{
    if fields.len() == 0 {
        Seq::empty()
    } else {
        let rest = string_members(fields.drop_last());
        match fields.last().value {
            JsonValue::Str(s) => rest.push((fields.last().name@, s@)),
            _ => rest,
        }
    }
}

/// Views of key/value string pairs.
pub open spec fn pairs_view(pairs: Seq<(String, String)>) -> Seq<(Seq<char>, Seq<char>)> {
    pairs.map_values(|p: (String, String)| (p.0@, p.1@))
}

/// The `status` of the first condition of type `Ready`, if that condition
/// has a string status.
pub open spec fn ready_condition_status(conditions: Seq<JsonValue>) -> Option<String>
    decreases conditions.len(),
{
    if conditions.len() == 0 {
        None
    } else if json_str(json_at(conditions[0], "type"@)) matches Some(t) && t@ == "Ready"@ {
        json_str(json_at(conditions[0], "status"@))
    } else {
        ready_condition_status(conditions.drop_first())
    }
}

/// The status line of a manifest: its phase; else the Ready condition; else
/// the ready replica count; else that some status is available.
pub open spec fn status_line(doc: JsonValue) -> Option<Seq<char>> {
    match json_get(doc, "status"@) {
        None => None,
        Some(st) => match json_str(json_at(st, "phase"@)) {
            Some(phase) => Some("Phase: "@ + phase@),
            None => match json_at(st, "conditions"@) {
                JsonValue::Array(conditions) => match ready_condition_status(conditions@) {
                    Some(s) => Some("Ready: "@ + s@),
                    None => None,
                },
                _ => match json_i64(json_at(st, "replicas"@)) {
                    Some(replicas) => {
                        let ready: i64 = match json_i64(json_at(st, "readyReplicas"@)) {
                            Some(x) => x,
                            None => 0,
                        };
                        Some(signed_decimal(ready as int) + "/"@ + signed_decimal(replicas as int) + " replicas ready"@)
                    },
                    None => Some("Status available"@),
                },
            },
        },
    }
}

fn string_members_exec(fields: &Vec<JsonField>) -> (r: Vec<(String, String)>)
    ensures
        pairs_view(r@) == string_members(fields@),
{
    let mut r: Vec<(String, String)> = Vec::new();
    for i in 0..fields.len()
        invariant
            pairs_view(r@) == string_members(fields@.take(i as int)),
    {
        proof {
            assert(fields@.take(i + 1).drop_last() =~= fields@.take(i as int));
        }
        match &fields[i].value {
            JsonValue::Str(s) => {
                r.push((fields[i].name.clone(), s.clone()));
            },
            _ => {},
        }
        assert(pairs_view(r@) =~= string_members(fields@.take(i + 1)));
    }
    assert(fields@.take(fields@.len() as int) =~= fields@);
    r
}

fn ready_condition_exec(conditions: &Vec<JsonValue>) -> (r: Option<String>)
    ensures
        r == ready_condition_status(conditions@),
{
    let mut i: usize = 0;
    assert(conditions@.skip(0) =~= conditions@);
    while i < conditions.len()
        invariant
            i <= conditions@.len(),
            ready_condition_status(conditions@) == ready_condition_status(conditions@.skip(i as int)),
        decreases conditions@.len() - i,
    {
        let c = &conditions[i];
        proof {
            let rest = conditions@.skip(i as int);
            assert(rest[0] == conditions@[i as int]);
            assert(rest.drop_first() =~= conditions@.skip(i + 1));
        }
        let is_ready = match c.str_at("type") {
            Some(t) => {
                let ready = "Ready".to_owned();
                t == ready
            },
            None => false,
        };
        if is_ready {
            return c.str_at("status");
        }
        i = i + 1;
    }
    assert(conditions@.skip(i as int).len() == 0);
    None
}

fn status_line_exec(doc: &JsonValue) -> (r: Option<String>)
    ensures
        match r {
            Some(s) => status_line(*doc) == Some(s@),
            None => status_line(*doc) is None,
        },
{
    match doc.get("status") {
        None => None,
        Some(st) => match st.str_at("phase") {
            Some(phase) => {
                let mut s = "Phase: ".to_owned();
                s.append(phase.as_str());
                Some(s)
            },
            None => {
                let conditions = st.get("conditions");
                match conditions {
                    Some(JsonValue::Array(cs)) => match ready_condition_exec(cs) {
                        Some(status) => {
                            let mut s = "Ready: ".to_owned();
                            s.append(status.as_str());
                            Some(s)
                        },
                        None => None,
                    },
                    _ => {
                        let replicas = match st.get("replicas") {
                            Some(v) => v.as_i64(),
                            None => None,
                        };
                        match replicas {
                            Some(total) => {
                                let ready: i64 = match st.get("readyReplicas") {
                                    Some(v) => match v.as_i64() {
                                        Some(x) => x,
                                        None => 0,
                                    },
                                    None => 0,
                                };
                                let mut s = String::new();
                                append_signed(&mut s, ready);
                                s.append("/");
                                append_signed(&mut s, total);
                                s.append(" replicas ready");
                                Some(s)
                            },
                            None => Some("Status available".to_owned()),
                        }
                    },
                }
            },
        },
    }
}

impl ResourceManifestSummary {
    /// What the summary of a parsed (or unparsable) manifest holds.
    pub open spec fn describes(self, doc: Option<JsonValue>) -> bool {
        match doc {
            None => {
                &&& self.api_version is None
                &&& self.kind is None
                &&& self.name is None
                &&& self.namespace is None
                &&& self.labels is None
                &&& self.annotations_count is None
                &&& self.creation_timestamp is None
                &&& self.status_summary is None
            },
            Some(d) => {
                let meta = json_at(d, "metadata"@);
                &&& self.api_version == json_str(json_at(d, "apiVersion"@))
                &&& self.kind == json_str(json_at(d, "kind"@))
                &&& self.name == json_str(json_at(meta, "name"@))
                &&& self.namespace == json_str(json_at(meta, "namespace"@))
                &&& self.creation_timestamp == json_str(json_at(meta, "creationTimestamp"@))
                &&& match json_at(meta, "labels"@) {
                    JsonValue::Object(fields) => self.labels matches Some(l) && pairs_view(l@) == string_members(fields@),
                    _ => self.labels is None,
                }
                &&& self.annotations_count == match json_at(meta, "annotations"@) {
                    JsonValue::Object(fields) => Some(fields@.len() as usize),
                    _ => None,
                }
                &&& match self.status_summary {
                    Some(s) => status_line(d) == Some(s@),
                    None => status_line(d) is None,
                }
            },
        }
    }

    /// Summarizes a parsed manifest document (or its absence).
    pub fn from_document(doc: Option<&JsonValue>) -> (r: Self)
        ensures
            r.describes(match doc {
                Some(d) => Some(*d),
                None => None,
            }),
    {
        match doc {
            None => ResourceManifestSummary {
                api_version: None,
                kind: None,
                name: None,
                namespace: None,
                labels: None,
                annotations_count: None,
                creation_timestamp: None,
                status_summary: None,
            },
            Some(d) => {
                let (name, namespace, creation_timestamp, labels, annotations_count) = match d.get("metadata") {
                    Some(meta) => (
                        meta.str_at("name"),
                        meta.str_at("namespace"),
                        meta.str_at("creationTimestamp"),
                        match meta.get("labels") {
                            Some(JsonValue::Object(fields)) => Some(string_members_exec(fields)),
                            _ => None,
                        },
                        match meta.get("annotations") {
                            Some(JsonValue::Object(fields)) => Some(fields.len()),
                            _ => None,
                        },
                    ),
                    None => (None, None, None, None, None),
                };
                ResourceManifestSummary {
                    api_version: d.str_at("apiVersion"),
                    kind: d.str_at("kind"),
                    name,
                    namespace,
                    labels,
                    annotations_count,
                    creation_timestamp,
                    status_summary: status_line_exec(d),
                }
            },
        }
    }

    /// The document a manifest parses to: as YAML, or else as JSON.
    pub open spec fn document_of(manifest: Seq<char>) -> Option<JsonValue> {
        match yaml_parse(manifest) {
            Ok(d) => Some(d),
            Err(_) => json_parse(manifest),
        }
    }

    /// Parses a manifest (YAML, or else JSON) and summarizes it; an
    /// unparsable manifest gives an empty summary.
    pub fn parse(manifest: &str) -> (r: Self)
        ensures
            r.describes(Self::document_of(manifest@)),
    {
        let doc = match parse_yaml(manifest) {
            Ok(d) => Some(d),
            Err(_) => parse_json(manifest),
        };
        match &doc {
            Some(d) => Self::from_document(Some(d)),
            None => Self::from_document(None),
        }
    }
}

/// The manifest text kept in a resource summary: the whole manifest when it
/// has at most `MANIFEST_BYTE_LIMIT` bytes, else its first bytes and a note
/// with the total byte count.
pub open spec fn kept_manifest(m: Seq<char>) -> Seq<char> {
    let bytes = encode_utf8(m);
    if bytes.len() > MANIFEST_BYTE_LIMIT {
        decode_utf8(bytes.subrange(0, MANIFEST_BYTE_LIMIT as int)) + "... (truncated, "@ + decimal(bytes.len())
            + " total chars)"@
    } else {
        m
    }
}

/// The manifest can be cut after `MANIFEST_BYTE_LIMIT` bytes: it is short
/// enough or that byte offset falls on a character boundary.
pub open spec fn truncatable(m: Seq<char>) -> bool {
    encode_utf8(m).len() <= MANIFEST_BYTE_LIMIT || is_char_boundary(encode_utf8(m), MANIFEST_BYTE_LIMIT as int)
}

impl ApplicationResourceSummary {
    /// Summarizes one resource from its manifest text, when the manifest
    /// can be cut after `MANIFEST_BYTE_LIMIT` bytes; `None` otherwise.
    pub fn try_from_manifest(
        app_name: String,
        kind: String,
        resource_name: String,
        namespace: Option<String>,
        version: String,
        group: Option<String>,
        manifest: String,
    ) -> (r: Option<Self>)
        ensures
            r is Some <==> truncatable(manifest@),
            r matches Some(s) ==> {
                &&& s.app_name == app_name
                &&& s.kind == kind
                &&& s.resource_name == resource_name
                &&& s.namespace == namespace
                &&& s.version == version
                &&& s.group == group
                &&& s.manifest_summary.describes(ResourceManifestSummary::document_of(manifest@))
                &&& s.manifest@ == kept_manifest(manifest@)
            },
    {
        if can_cut_at(manifest.as_str(), MANIFEST_BYTE_LIMIT) {
            Some(Self::from_manifest(app_name, kind, resource_name, namespace, version, group, manifest))
        } else {
            None
        }
    }

    /// Summarizes one resource from its manifest text.
    pub fn from_manifest(
        app_name: String,
        kind: String,
        resource_name: String,
        namespace: Option<String>,
        version: String,
        group: Option<String>,
        manifest: String,
    ) -> (r: Self)
        requires
            truncatable(manifest@),
        ensures
            r.app_name == app_name,
            r.kind == kind,
            r.resource_name == resource_name,
            r.namespace == namespace,
            r.version == version,
            r.group == group,
            r.manifest_summary.describes(ResourceManifestSummary::document_of(manifest@)),
            r.manifest@ == kept_manifest(manifest@),
    {
        let manifest_summary = ResourceManifestSummary::parse(manifest.as_str());
        let full: &str = manifest.as_str();
        let total = full.as_bytes().len();
        assert(total == encode_utf8(manifest@).len());
        let kept = if total > MANIFEST_BYTE_LIMIT {
            let (head, _) = full.split_at(MANIFEST_BYTE_LIMIT);
            proof {
                encode_utf8_decode_utf8(head@);
                assert(full@ == manifest@);
                assert(head.spec_bytes() == encode_utf8(manifest@).subrange(0, MANIFEST_BYTE_LIMIT as int));
                assert(head@ == decode_utf8(encode_utf8(manifest@).subrange(0, MANIFEST_BYTE_LIMIT as int)));
            }
            let mut s = head.to_owned();
            s.append("... (truncated, ");
            append_decimal(&mut s, total as u64);
            s.append(" total chars)");
            s
        } else {
            manifest
        };
        ApplicationResourceSummary {
            app_name,
            kind,
            resource_name,
            namespace,
            version,
            group,
            manifest_summary,
            manifest: kept,
        }
    }
}

} // verus!
