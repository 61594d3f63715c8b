//! The engine-backed module runtime.
//!
//! Each lifecycle and registry operation validates its input synchronously
//! and composes the engine request it would issue; the surrounding process
//! performs the exchange and hands the engine's answer back to the
//! interpretation functions here.

use vstd::prelude::*;

use crate::config::{auth_json, EngineConfig, LogOptions};
use crate::env;
use crate::env::{merge_env_spec, opt_lines, StringMap};
use crate::error::Error;
use crate::json::name_filter;
use crate::json::spec_name_filter;
use crate::module::{ContainerRecord, Module, SystemInfo};
use crate::module_spec::ModuleSpec;
use crate::requests::EngineRequest;
use crate::text::{is_blank, spec_is_blank, str_eq};

verus! {

/// Whole seconds the engine waits after a polite stop signal before it
/// kills the container, when the caller gives no grace period.
pub const WAIT_BEFORE_KILL_SECONDS: i32 = 10;

/// The largest grace period the engine request can carry.
pub const MAX_GRACE_SECONDS: u64 = 2147483647;

/// Key of the label tagging every container this agent creates.
pub open spec fn spec_label_key() -> Seq<char> {
    "net.azure-devices.edge.owner"@
}

pub fn label_key() -> (r: &'static str)
    ensures
        r@ == spec_label_key(),
{
    "net.azure-devices.edge.owner"
}

/// Value of the ownership label.
pub open spec fn spec_label_value() -> Seq<char> {
    "Microsoft.Azure.Devices.Edge.Agent"@
}

pub fn label_value() -> (r: &'static str)
    ensures
        r@ == spec_label_value(),
{
    "Microsoft.Azure.Devices.Edge.Agent"
}

/// The server-side filter selecting the containers this agent owns.
pub open spec fn spec_label_filter() -> Seq<char> {
    "{\"label\":[\"net.azure-devices.edge.owner=Microsoft.Azure.Devices.Edge.Agent\"]}"@
}

pub fn label_filter() -> (r: String)
    ensures
        r@ == spec_label_filter(),
{
    String::from_str(
        "{\"label\":[\"net.azure-devices.edge.owner=Microsoft.Azure.Devices.Edge.Agent\"]}",
    )
}

/// What the standard base64 encoding of a string's UTF-8 bytes yields;
/// a function of the string alone.
pub uninterp spec fn base64_of(s: Seq<char>) -> Seq<char>;

/// Relies on the `base64` crate's standard-alphabet, padded engine
/// (`engine::general_purpose::STANDARD`): its encoding of the UTF-8 bytes
/// of `s` depends on `s` alone, and an ASCII input of `n` characters
/// (hence `n` bytes) encodes to `4 * ceil(n / 3)` characters.
#[verifier::external_body]
fn base64_encode(s: &str) -> (r: String)
    ensures
        r@ == base64_of(s@),
        s.is_ascii() ==> r@.len() == 4 * ((s@.len() + 2) / 3),
{
    base64::Engine::encode(&base64::engine::general_purpose::STANDARD, s.as_bytes())
}

/// The base path requests are composed against: for a local-socket scheme
/// the filesystem path, otherwise the full URL.
pub open spec fn spec_base_path(scheme: Seq<char>, url: Seq<char>, path: Seq<char>) -> Seq<char> {
    if scheme == "unix"@ {
        path
    } else {
        url
    }
}

/// The engine-backed runtime: its connection configuration, fixed at
/// construction.  No other state is held between calls.
#[derive(Debug, PartialEq)]
pub struct DockerModuleRuntime {
    pub scheme: String,
    pub base_path: String,
    pub network_id: Option<String>,
}

impl DockerModuleRuntime {
    /// Accepts an endpoint of scheme `http` or `unix`, and derives the
    /// request base path for it.
    pub fn new(scheme: &str, url: &str, path: &str) -> (r: Result<DockerModuleRuntime, Error>)
        ensures
            r is Ok <==> (scheme@ == "http"@ || scheme@ == "unix"@),
            r matches Ok(rt) ==> rt.scheme@ == scheme@ && rt.base_path@ == spec_base_path(
                scheme@,
                url@,
                path@,
            ) && rt.network_id is None,
            r matches Err(e) ==> e == Error::InvalidUrl,
    {
        if str_eq(scheme, "unix") {
            Ok(
                DockerModuleRuntime {
                    scheme: String::from_str(scheme),
                    base_path: String::from_str(path),
                    network_id: None,
                },
            )
        } else if str_eq(scheme, "http") {
            Ok(
                DockerModuleRuntime {
                    scheme: String::from_str(scheme),
                    base_path: String::from_str(url),
                    network_id: None,
                },
            )
        } else {
            Err(Error::InvalidUrl)
        }
    }

    pub fn with_network_id(self, network_id: String) -> (r: DockerModuleRuntime)
        ensures
            r.network_id matches Some(n) && n == network_id,
            r.scheme == self.scheme,
            r.base_path == self.base_path,
    {
        DockerModuleRuntime { network_id: Some(network_id), ..self }
    }

    pub fn base_path(&self) -> (r: &String)
        ensures
            r == self.base_path,
    {
        &self.base_path
    }

    /// Merge a pre-existing `"KEY=VALUE"` entry list with a specification's
    /// environment mapping; the mapping's entries win on key collision.
    pub fn merge_env(cur_env: Option<&Vec<String>>, new_env: &StringMap) -> (r: Vec<String>)
        ensures
            r@.map_values(|s: String| s@) == merge_env_spec(opt_lines(cur_env), new_env@),
    {
        env::merge_env(cur_env, new_env)
    }

    /// Compose an image pull, with the base64-encoded credential blob
    /// (empty when no credentials are configured).
    pub fn pull(&self, config: &EngineConfig) -> (r: EngineRequest)
        ensures
            r matches EngineRequest::ImagePull { image, registry_auth } && image@ == config.image@
                && registry_auth@ == (match config.auth {
                Some(a) => base64_of(auth_json(a)),
                None => Seq::<char>::empty(),
            }),
    {
        let registry_auth = match &config.auth {
            Some(a) => base64_encode(a.to_json().as_str()),
            None => String::new(),
        };
        EngineRequest::ImagePull { image: config.image.clone(), registry_auth }
    }

    /// Compose an image delete; a blank name is rejected before any request
    /// is composed.
    pub fn remove_image(&self, name: &str) -> (r: Result<EngineRequest, Error>)
        ensures
            r is Ok <==> !spec_is_blank(name@),
            r matches Ok(q) ==> q matches EngineRequest::ImageDelete { name: n, force, no_prune }
                && n@ == name@ && force == false && no_prune == false,
            r matches Err(e) ==> e == Error::InvalidIdentifier,
    {
        if is_blank(name) {
            Err(Error::InvalidIdentifier)
        } else {
            Ok(
                EngineRequest::ImageDelete {
                    name: String::from_str(name),
                    force: false,
                    no_prune: false,
                },
            )
        }
    }

    /// Compose the network listing of the idempotent bootstrap, filtered by
    /// the configured network id's name; with no network configured the
    /// bootstrap is a no-op and composes nothing.
    pub fn init_request(&self) -> (r: Option<EngineRequest>)
        ensures
            match self.network_id {
                Some(id) => r matches Some(q) && (q matches EngineRequest::NetworkList { filters }
                    && filters@ == spec_name_filter(id@)),
                None => r is None,
            },
    {
        match &self.network_id {
            Some(id) => Some(EngineRequest::NetworkList { filters: name_filter(id.as_str()) }),
            None => None,
        }
    }

    /// Decide the bootstrap's second step from the names the listing
    /// returned: create the network only when none matched.
    pub fn init_create_request(&self, existing: &Vec<String>) -> (r: Option<EngineRequest>)
        requires
            self.network_id is Some,
        ensures
            existing@.len() == 0 ==> (r matches Some(q) && (q
                matches EngineRequest::NetworkCreate { name } && name@ == (self.network_id->0)@)),
            existing@.len() > 0 ==> r is None,
    {
        if existing.is_empty() {
            match &self.network_id {
                Some(id) => Some(EngineRequest::NetworkCreate { name: id.clone() }),
                None => None,
            }
        } else {
            None
        }
    }

    /// Compose a container create.  Only specifications of this runtime's
    /// module type and with a non-blank name are accepted; nothing is
    /// composed for the rest.  The body carries the specification's image,
    /// the merged environment, and the label mapping with the ownership
    /// label injected.
    pub fn create(&self, spec: &ModuleSpec) -> (r: Result<EngineRequest, Error>)
        ensures
            r is Ok <==> spec.type_@ == crate::module::spec_module_type() && !spec_is_blank(
                spec.name@,
            ),
            r matches Ok(q) ==> q matches EngineRequest::ContainerCreate { name, body }
                && name@ == spec.name@ && (body.image matches Some(i) && i@ == spec.config.image@)
                && (body.env matches Some(e) && e@.map_values(|s: String| s@) == merge_env_spec(
                env::opt_lines_of(spec.config.create_options.env),
                spec.env@,
            )) && (body.labels matches Some(l) && l@ == env::upsert(
                match spec.config.create_options.labels {
                    Some(base) => base@,
                    None => Seq::<(Seq<char>, Seq<char>)>::empty(),
                },
                spec_label_key(),
                spec_label_value(),
            )),
            r matches Err(e) ==> (e == Error::InvalidModuleType <==> spec.type_@
                != crate::module::spec_module_type()) && (e == Error::InvalidIdentifier <==> (
            spec.type_@ == crate::module::spec_module_type() && spec_is_blank(spec.name@))),
    {
        if !str_eq(spec.type_.as_str(), crate::module::module_type()) {
            return Err(Error::InvalidModuleType);
        }
        if is_blank(spec.name.as_str()) {
            return Err(Error::InvalidIdentifier);
        }
        let env_ref = spec.config.create_options.env.as_ref();
        let merged_env = env::merge_env(env_ref, &spec.env);
        proof {
            assert(opt_lines(env_ref) =~= env::opt_lines_of(spec.config.create_options.env));
        }
        let mut labels = match &spec.config.create_options.labels {
            Some(base) => base.duplicate(),
            None => StringMap::new(),
        };
        labels.insert(String::from_str(label_key()), String::from_str(label_value()));
        let body = crate::config::CreateOptions {
            env: Some(merged_env),
            labels: Some(labels),
            image: Some(spec.config.image.clone()),
        };
        Ok(EngineRequest::ContainerCreate { name: spec.name.clone(), body })
    }

    /// Compose a container start; a blank id is rejected before any request
    /// is composed.
    pub fn start(&self, id: &str) -> (r: Result<EngineRequest, Error>)
        ensures
            r is Ok <==> !spec_is_blank(id@),
            r matches Ok(q) ==> q matches EngineRequest::ContainerStart { id: i } && i@ == id@,
            r matches Err(e) ==> e == Error::InvalidIdentifier,
    {
        if is_blank(id) {
            Err(Error::InvalidIdentifier)
        } else {
            Ok(EngineRequest::ContainerStart { id: String::from_str(id) })
        }
    }

    /// Compose a container stop; a blank id is rejected before any request
    /// is composed.  The grace period defaults to ten seconds and is
    /// clamped, never wrapped, to the engine's maximum.
    pub fn stop(&self, id: &str, wait_before_kill: Option<u64>) -> (r: Result<EngineRequest, Error>)
        ensures
            r is Ok <==> !spec_is_blank(id@),
            r matches Ok(q) ==> q matches EngineRequest::ContainerStop { id: i, wait_seconds }
                && i@ == id@ && wait_seconds as int == spec_stop_grace(wait_before_kill),
            r matches Err(e) ==> e == Error::InvalidIdentifier,
    {
        if is_blank(id) {
            Err(Error::InvalidIdentifier)
        } else {
            let wait_seconds: i32 = match wait_before_kill {
                None => WAIT_BEFORE_KILL_SECONDS,
                Some(s) => if s > MAX_GRACE_SECONDS {
                    2147483647
                } else {
                    s as i32
                },
            };
            Ok(EngineRequest::ContainerStop { id: String::from_str(id), wait_seconds })
        }
    }

    /// Compose a container restart; a blank id is rejected before any
    /// request is composed.
    pub fn restart(&self, id: &str) -> (r: Result<EngineRequest, Error>)
        ensures
            r is Ok <==> !spec_is_blank(id@),
            r matches Ok(q) ==> q matches EngineRequest::ContainerRestart { id: i, wait_seconds }
                && i@ == id@ && wait_seconds == WAIT_BEFORE_KILL_SECONDS,
            r matches Err(e) ==> e == Error::InvalidIdentifier,
    {
        if is_blank(id) {
            Err(Error::InvalidIdentifier)
        } else {
            Ok(
                EngineRequest::ContainerRestart {
                    id: String::from_str(id),
                    wait_seconds: WAIT_BEFORE_KILL_SECONDS,
                },
            )
        }
    }

    /// Compose a container delete; a blank id is rejected before any
    /// request is composed.  Removal is always forced and never removes
    /// volumes or links.
    pub fn remove(&self, id: &str) -> (r: Result<EngineRequest, Error>)
        ensures
            r is Ok <==> !spec_is_blank(id@),
            r matches Ok(q) ==> q matches EngineRequest::ContainerDelete {
                id: i,
                remove_volumes,
                force,
                remove_links,
            } && i@ == id@ && remove_volumes == false && force == true && remove_links == false,
            r matches Err(e) ==> e == Error::InvalidIdentifier,
    {
        if is_blank(id) {
            Err(Error::InvalidIdentifier)
        } else {
            Ok(
                EngineRequest::ContainerDelete {
                    id: String::from_str(id),
                    remove_volumes: false,
                    force: true,
                    remove_links: false,
                },
            )
        }
    }

    /// Compose the owned-container listing: all containers carrying the
    /// ownership label.
    pub fn list(&self) -> (r: EngineRequest)
        ensures
            r matches EngineRequest::ContainerList { all, limit, size, filters } && all == true
                && limit == 0 && size == false && filters@ == spec_label_filter(),
    {
        EngineRequest::ContainerList { all: true, limit: 0, size: false, filters: label_filter() }
    }

    /// Compose a log query; a blank id is rejected before any request is
    /// composed.  Both output streams are requested, without timestamps,
    /// from the beginning.
    pub fn logs(&self, id: &str, options: &LogOptions) -> (r: Result<EngineRequest, Error>)
        ensures
            r is Ok <==> !spec_is_blank(id@),
            r matches Ok(q) ==> q matches EngineRequest::ContainerLogs {
                id: i,
                follow,
                stdout,
                stderr,
                since,
                timestamps,
                tail,
            } && i@ == id@ && follow == options.follow && stdout == true && stderr == true && since
                == 0 && timestamps == false && tail@ == options.tail@,
            r matches Err(e) ==> e == Error::InvalidIdentifier,
    {
        if is_blank(id) {
            Err(Error::InvalidIdentifier)
        } else {
            Ok(
                EngineRequest::ContainerLogs {
                    id: String::from_str(id),
                    follow: options.follow,
                    stdout: true,
                    stderr: true,
                    since: 0,
                    timestamps: false,
                    tail: options.tail.clone(),
                },
            )
        }
    }

    /// Compose the engine platform query.
    pub fn system_info(&self) -> (r: EngineRequest)
        ensures
            r matches EngineRequest::SystemInfo,
    {
        EngineRequest::SystemInfo
    }

    /// The registry capability is this same runtime.
    pub fn registry(&self) -> (r: &DockerModuleRuntime)
        ensures
            r == self,
    {
        self
    }
}

/// The display name of a listing record: its first recorded name with the
/// leading separator character removed, or the sentinel when the engine
/// returned no names.
pub open spec fn display_name(names: Seq<String>) -> Seq<char> {
    if names.len() == 0 {
        "Unknown"@
    } else {
        let n0 = names[0]@;
        if n0.len() == 0 {
            n0
        } else {
            n0.subrange(1, n0.len() as int)
        }
    }
}

/// Whether a listing record maps to a module: its image and its derived
/// display name are both non-blank.
pub open spec fn record_kept(rec: ContainerRecord) -> bool {
    !spec_is_blank(rec.image@) && !spec_is_blank(display_name(rec.names@))
}

/// The records of a listing that map to modules, in listing order.
pub open spec fn kept_records(recs: Seq<ContainerRecord>) -> Seq<ContainerRecord>
    decreases recs.len(),
{
    if recs.len() == 0 {
        Seq::empty()
    } else {
        let p = kept_records(recs.drop_last());
        if record_kept(recs.last()) {
            p.push(recs.last())
        } else {
            p
        }
    }
}

/// How a module of the listing corresponds to the record it came from:
/// display name, image, image id, and the record's labels as the create
/// options' label mapping; nothing else is carried over.
pub open spec fn module_of_record(m: Module, rec: ContainerRecord) -> bool {
    m.name@ == display_name(rec.names@) && m.config.image@ == rec.image@
        && (m.config.image_id matches Some(i) && i@ == rec.image_id@)
        && m.config.create_options.env is None && (m.config.create_options.labels matches Some(l)
        && l@ == rec.labels@) && m.config.create_options.image is None && m.config.auth is None
}

impl DockerModuleRuntime {
    /// Map the engine's listing into domain modules; a record whose image
    /// or derived name is blank does not form one and is dropped.
    pub fn interpret_list(&self, records: &Vec<ContainerRecord>) -> (r: Vec<Module>)
        ensures
            r@.len() == kept_records(records@).len(),
            forall|i: int|
                0 <= i < r@.len() ==> module_of_record(#[trigger] r@[i], kept_records(records@)[i]),
            forall|i: int| 0 <= i < r@.len() ==> (#[trigger] r@[i]).wf(),
    {
        let n = records.len();
        let mut out: Vec<Module> = Vec::new();
        let mut i: usize = 0;
        while i < n
            invariant
                n == records@.len(),
                0 <= i <= n,
                out@.len() == kept_records(records@.take(i as int)).len(),
                forall|l: int|
                    0 <= l < out@.len() ==> module_of_record(
                        #[trigger] out@[l],
                        kept_records(records@.take(i as int))[l],
                    ),
                forall|l: int| 0 <= l < out@.len() ==> (#[trigger] out@[l]).wf(),
            decreases n - i,
        {
            let rec = &records[i];
            let name: String = if rec.names.len() == 0 {
                String::from_str("Unknown")
            } else {
                let first = rec.names[0].as_str();
                let ln = first.unicode_len();
                if ln == 0 {
                    String::new()
                } else {
                    String::from_str(first.substring_char(1, ln))
                }
            };
            proof {
                if rec.names@.len() == 0 {
                } else if rec.names@[0]@.len() == 0 {
                    assert(name@ =~= display_name(rec.names@));
                }
                assert(name@ == display_name(rec.names@));
            }
            if !is_blank(rec.image.as_str()) && !is_blank(name.as_str()) {
                let m = Module {
                    name,
                    config: EngineConfig {
                        image: rec.image.clone(),
                        image_id: Some(rec.image_id.clone()),
                        create_options: crate::config::CreateOptions {
                            env: None,
                            labels: Some(rec.labels.duplicate()),
                            image: None,
                        },
                        auth: None,
                    },
                };
                out.push(m);
            }
            proof {
                assert(records@.take(i as int + 1).drop_last() =~= records@.take(i as int));
                assert(records@.take(i as int + 1).last() == records@[i as int]);
            }
            i = i + 1;
        }
        proof {
            assert(records@.take(n as int) =~= records@);
        }
        out
    }

    /// Fill in the engine's platform report: each missing field defaults to
    /// the sentinel independently; the query never fails for a missing
    /// field alone.
    pub fn interpret_system_info(&self, os_type: Option<String>, architecture: Option<String>) -> (r:
        SystemInfo)
        ensures
            r.os_type@ == (match os_type {
                Some(o) => o@,
                None => "Unknown"@,
            }),
            r.architecture@ == (match architecture {
                Some(a) => a@,
                None => "Unknown"@,
            }),
    {
        let os = match os_type {
            Some(o) => o,
            None => String::from_str("Unknown"),
        };
        let arch = match architecture {
            Some(a) => a,
            None => String::from_str("Unknown"),
        };
        SystemInfo { os_type: os, architecture: arch }
    }
}

/// Whether every removal succeeded.
pub open spec fn all_ok(results: Seq<Result<(), Error>>) -> bool {
    forall|i: int| 0 <= i < results.len() ==> results[i] is Ok
}

/// The first failure, in the order the outcomes were observed.
pub open spec fn first_failure(results: Seq<Result<(), Error>>) -> Error
    decreases results.len(),
{
    if results.len() == 0 {
        arbitrary()
    } else if results[0] is Err {
        results[0]->Err_0
    } else {
        first_failure(results.drop_first())
    }
}

proof fn lemma_first_failure(results: Seq<Result<(), Error>>, i: int)
    requires
        0 <= i < results.len(),
        forall|j: int| 0 <= j < i ==> results[j] is Ok,
        results[i] is Err,
    ensures
        !all_ok(results),
        first_failure(results) == results[i]->Err_0,
    decreases i,
{
    if i > 0 {
        let t = results.drop_first();
        assert(forall|j: int| 0 <= j < t.len() ==> t[j] == results[j + 1]);
        lemma_first_failure(t, i - 1);
        assert(t[i - 1] == results[i]);
    }
}

impl DockerModuleRuntime {
    /// Compose the removals of the owned set: exactly one forced container
    /// delete per listed module, in listing order.
    pub fn remove_all_plan(&self, modules: &Vec<Module>) -> (r: Vec<EngineRequest>)
        requires
            forall|i: int| 0 <= i < modules@.len() ==> (#[trigger] modules@[i]).wf(),
        ensures
            r@.len() == modules@.len(),
            forall|i: int|
                0 <= i < r@.len() ==> ((#[trigger] r@[i]) matches EngineRequest::ContainerDelete {
                    id,
                    remove_volumes,
                    force,
                    remove_links,
                } && id@ == modules@[i].name@ && remove_volumes == false && force == true
                    && remove_links == false),
    {
        let n = modules.len();
        let mut r: Vec<EngineRequest> = Vec::new();
        let mut i: usize = 0;
        while i < n
            invariant
                n == modules@.len(),
                forall|l: int| 0 <= l < n ==> (#[trigger] modules@[l]).wf(),
                0 <= i <= n,
                r@.len() == i,
                forall|l: int|
                    0 <= l < i ==> ((#[trigger] r@[l]) matches EngineRequest::ContainerDelete {
                        id,
                        remove_volumes,
                        force,
                        remove_links,
                    } && id@ == modules@[l].name@ && remove_volumes == false && force == true
                        && remove_links == false),
            decreases n - i,
        {
            match self.remove(modules[i].name.as_str()) {
                Ok(q) => {
                    r.push(q);
                },
                Err(_) => {
                    proof {
                        assert(false);
                    }
                },
            }
            i = i + 1;
        }
        r
    }

    /// Aggregate the removals' outcomes: success only if every one
    /// succeeded; otherwise the first failure observed fails the whole
    /// call.
    pub fn remove_all_outcome(&self, results: &Vec<Result<(), Error>>) -> (r: Result<(), Error>)
        ensures
            r is Ok <==> all_ok(results@),
            !all_ok(results@) ==> (r matches Err(e) && e == first_failure(results@)),
    {
        let n = results.len();
        let mut i: usize = 0;
        while i < n
            invariant
                n == results@.len(),
                0 <= i <= n,
                forall|j: int| 0 <= j < i ==> results@[j] is Ok,
            decreases n - i,
        {
            match &results[i] {
                Ok(_) => {},
                Err(e) => {
                    proof {
                        lemma_first_failure(results@, i as int);
                    }
                    return Err(e.dup());
                },
            }
            i = i + 1;
        }
        Ok(())
    }
}

/// Classify the engine's answer to a unit request: success for a success
/// status, a not-found report for a missing resource, and an engine error
/// carrying the message otherwise.
pub fn interpret_engine_status(status: u16, message: String) -> (r: Result<(), Error>)
    ensures
        r is Ok <==> (200 <= status < 300),
        status == 404 ==> (r matches Err(e) && e == Error::NotFound(message)),
        (!(200 <= status < 300) && status != 404) ==> (r matches Err(e) && e == Error::Engine(
            message,
        )),
{
    if 200 <= status && status < 300 {
        Ok(())
    } else if status == 404 {
        Err(Error::NotFound(message))
    } else {
        Err(Error::Engine(message))
    }
}

/// Law of the idempotent bootstrap.  Model the engine as the set of network
/// names it holds; a listing filtered by the configured id returns an empty
/// result exactly when the engine lacks that name, and the bootstrap
/// creates the network only on an empty result (as `init_create_request`
/// decides).  Then two sequential runs over the same configuration perform
/// at most one create, and the second run, observing the network present,
/// performs none.
pub proof fn lemma_init_idempotent(
    nets0: Set<Seq<char>>,
    id: Seq<char>,
    listing1: Seq<Seq<char>>,
    listing2: Seq<Seq<char>>,
)
    requires
        (listing1.len() == 0) <==> !nets0.contains(id),
        ({
            let nets1 = if listing1.len() == 0 {
                nets0.insert(id)
            } else {
                nets0
            };
            (listing2.len() == 0) <==> !nets1.contains(id)
        }),
    ensures
        !(listing1.len() == 0 && listing2.len() == 0),
        listing2.len() != 0,
{
    let nets1 = if listing1.len() == 0 {
        nets0.insert(id)
    } else {
        nets0
    };
    assert(nets1.contains(id));
}

/// The grace period a stop composes, in whole seconds: the fixed default
/// when absent, otherwise the given seconds clamped to the engine's
/// maximum.
pub open spec fn spec_stop_grace(wait: Option<u64>) -> int {
    match wait {
        None => WAIT_BEFORE_KILL_SECONDS as int,
        Some(s) => if s > MAX_GRACE_SECONDS {
            MAX_GRACE_SECONDS as int
        } else {
            s as int
        },
    }
}

} // verus!
