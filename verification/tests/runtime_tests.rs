use edgelet::config::{CreateOptions, EngineConfig, LogOptions, RegistryAuth};
use edgelet::env::StringMap;
use edgelet::error::Error;
use edgelet::module::{ContainerRecord, Module};
use edgelet::module_spec::ModuleSpec;
use edgelet::requests::EngineRequest;
use edgelet::runtime::DockerModuleRuntime;

fn mri() -> DockerModuleRuntime {
    DockerModuleRuntime::new("http", "http://localhost/", "/").unwrap()
}

fn nginx_config() -> EngineConfig {
    EngineConfig::new("nginx:latest".to_string(), CreateOptions::new(), None).unwrap()
}

#[test]
fn runtime_new_rejects_unknown_scheme() {
    match DockerModuleRuntime::new("foo", "foo:///this/is/not/valid", "/this/is/not/valid") {
        Err(Error::InvalidUrl) => {}
        _ => panic!("expected an invalid-url error"),
    }
}

#[test]
fn runtime_new_unix_scheme_uses_socket_path() {
    let rt = DockerModuleRuntime::new("unix", "unix:///var/run/docker.sock", "/var/run/docker.sock")
        .unwrap();
    assert_eq!("/var/run/docker.sock", rt.base_path().as_str());
}

#[test]
fn runtime_new_http_scheme_uses_url() {
    assert_eq!("http://localhost/", mri().base_path().as_str());
}

#[test]
fn image_remove_with_empty_name_fails() {
    match mri().remove_image("") {
        Err(e) => assert!(e.validation()),
        Ok(_) => panic!("Expected error but got a result."),
    }
}

#[test]
fn image_remove_with_white_space_name_fails() {
    match mri().remove_image("     ") {
        Err(e) => assert!(e.validation()),
        Ok(_) => panic!("Expected error but got a result."),
    }
}

#[test]
fn create_fails_for_non_docker_type() {
    let module_config = ModuleSpec::new(
        "m1".to_string(),
        "not_docker".to_string(),
        nginx_config(),
    );
    match mri().create(&module_config) {
        Err(Error::InvalidModuleType) => {}
        _ => panic!("Expected a type-mismatch validation error."),
    }
}

#[test]
fn create_composes_body_with_merged_env_and_ownership_label() {
    let mut base_labels = StringMap::new();
    base_labels.insert("other".to_string(), "x".to_string());
    let opts = CreateOptions::new()
        .with_env(vec!["k1=v1".to_string()])
        .with_labels(base_labels);
    let config = EngineConfig::new("nginx:latest".to_string(), opts, None).unwrap();
    let mut env = StringMap::new();
    env.insert("k2".to_string(), "v2".to_string());
    let spec = ModuleSpec::new("m1".to_string(), "docker".to_string(), config).with_env(env);
    match mri().create(&spec) {
        Ok(EngineRequest::ContainerCreate { name, body }) => {
            assert_eq!("m1", name.as_str());
            assert_eq!(Some("nginx:latest".to_string()), body.image);
            let mut merged = body.env.unwrap();
            merged.sort();
            assert_eq!(vec!["k1=v1", "k2=v2"], merged);
            let labels = body.labels.unwrap();
            assert_eq!(2, labels.len());
            assert_eq!("other", labels.key_at(0).as_str());
            assert_eq!("x", labels.val_at(0).as_str());
            assert_eq!("net.azure-devices.edge.owner", labels.key_at(1).as_str());
            assert_eq!("Microsoft.Azure.Devices.Edge.Agent", labels.val_at(1).as_str());
        }
        _ => panic!("expected a container create"),
    }
}

#[test]
fn create_overwrites_prior_ownership_label() {
    let mut base_labels = StringMap::new();
    base_labels.insert(
        "net.azure-devices.edge.owner".to_string(),
        "someone-else".to_string(),
    );
    let opts = CreateOptions::new().with_labels(base_labels);
    let config = EngineConfig::new("nginx:latest".to_string(), opts, None).unwrap();
    let spec = ModuleSpec::new("m1".to_string(), "docker".to_string(), config);
    match mri().create(&spec) {
        Ok(EngineRequest::ContainerCreate { body, .. }) => {
            let labels = body.labels.unwrap();
            assert_eq!(1, labels.len());
            assert_eq!("Microsoft.Azure.Devices.Edge.Agent", labels.val_at(0).as_str());
        }
        _ => panic!("expected a container create"),
    }
}

#[test]
fn start_fails_for_empty_id() {
    match mri().start("") {
        Err(e) => assert!(e.validation()),
        Ok(_) => panic!("Expected test to fail but it didn't!"),
    }
}

#[test]
fn start_fails_for_white_space_id() {
    match mri().start("      ") {
        Err(e) => assert!(e.validation()),
        Ok(_) => panic!("Expected test to fail but it didn't!"),
    }
}

#[test]
fn stop_fails_for_empty_id() {
    match mri().stop("", None) {
        Err(e) => assert!(e.validation()),
        Ok(_) => panic!("Expected test to fail but it didn't!"),
    }
}

#[test]
fn stop_fails_for_white_space_id() {
    match mri().stop("     ", None) {
        Err(e) => assert!(e.validation()),
        Ok(_) => panic!("Expected test to fail but it didn't!"),
    }
}

#[test]
fn restart_fails_for_empty_id() {
    match mri().restart("") {
        Err(e) => assert!(e.validation()),
        Ok(_) => panic!("Expected test to fail but it didn't!"),
    }
}

#[test]
fn restart_fails_for_white_space_id() {
    match mri().restart("     ") {
        Err(e) => assert!(e.validation()),
        Ok(_) => panic!("Expected test to fail but it didn't!"),
    }
}

#[test]
fn remove_fails_for_empty_id() {
    match mri().remove("") {
        Err(e) => assert!(e.validation()),
        Ok(_) => panic!("Expected test to fail but it didn't!"),
    }
}

#[test]
fn remove_fails_for_white_space_id() {
    match mri().remove("    ") {
        Err(e) => assert!(e.validation()),
        Ok(_) => panic!("Expected test to fail but it didn't!"),
    }
}

#[test]
fn stop_composes_default_grace() {
    match mri().stop("m1", None) {
        Ok(EngineRequest::ContainerStop { id, wait_seconds }) => {
            assert_eq!("m1", id.as_str());
            assert_eq!(10, wait_seconds);
        }
        _ => panic!("expected a container stop"),
    }
}

#[test]
fn stop_converts_given_grace_to_seconds() {
    match mri().stop("m1", Some(30)) {
        Ok(EngineRequest::ContainerStop { wait_seconds, .. }) => assert_eq!(30, wait_seconds),
        _ => panic!("expected a container stop"),
    }
}

#[test]
fn stop_clamps_huge_grace() {
    match mri().stop("m1", Some(u64::MAX)) {
        Ok(EngineRequest::ContainerStop { wait_seconds, .. }) => {
            assert_eq!(i32::MAX, wait_seconds);
        }
        _ => panic!("expected a container stop"),
    }
}

#[test]
fn restart_uses_default_wait() {
    match mri().restart("m1") {
        Ok(EngineRequest::ContainerRestart { id, wait_seconds }) => {
            assert_eq!("m1", id.as_str());
            assert_eq!(10, wait_seconds);
        }
        _ => panic!("expected a container restart"),
    }
}

#[test]
fn remove_composes_forced_delete() {
    match mri().remove("m1") {
        Ok(EngineRequest::ContainerDelete { id, remove_volumes, force, remove_links }) => {
            assert_eq!("m1", id.as_str());
            assert!(!remove_volumes);
            assert!(force);
            assert!(!remove_links);
        }
        _ => panic!("expected a container delete"),
    }
}

#[test]
fn list_filters_by_ownership_label() {
    match mri().list() {
        EngineRequest::ContainerList { all, limit, size, filters } => {
            assert!(all);
            assert_eq!(0, limit);
            assert!(!size);
            assert_eq!(
                "{\"label\":[\"net.azure-devices.edge.owner=Microsoft.Azure.Devices.Edge.Agent\"]}",
                filters.as_str()
            );
        }
        _ => panic!("expected a container list"),
    }
}

#[test]
fn logs_fails_for_blank_id() {
    match mri().logs("  ", &LogOptions::new()) {
        Err(e) => assert!(e.validation()),
        Ok(_) => panic!("Expected test to fail but it didn't!"),
    }
}

#[test]
fn logs_composes_stream_request() {
    let options = LogOptions::new().with_follow(true).with_tail("20".to_string());
    match mri().logs("m1", &options) {
        Ok(EngineRequest::ContainerLogs { id, follow, stdout, stderr, since, timestamps, tail }) => {
            assert_eq!("m1", id.as_str());
            assert!(follow);
            assert!(stdout);
            assert!(stderr);
            assert_eq!(0, since);
            assert!(!timestamps);
            assert_eq!("20", tail.as_str());
        }
        _ => panic!("expected a container logs request"),
    }
}

#[test]
fn system_info_composes_query() {
    assert_eq!(EngineRequest::SystemInfo, mri().system_info());
}

#[test]
fn interpret_system_info_defaults_each_field() {
    let info = mri().interpret_system_info(None, None);
    assert_eq!("Unknown", info.os_type().as_str());
    assert_eq!("Unknown", info.architecture().as_str());
    let info = mri().interpret_system_info(Some("linux".to_string()), None);
    assert_eq!("linux", info.os_type().as_str());
    assert_eq!("Unknown", info.architecture().as_str());
}

#[test]
fn pull_without_auth_has_empty_creds() {
    match mri().pull(&nginx_config()) {
        EngineRequest::ImagePull { image, registry_auth } => {
            assert_eq!("nginx:latest", image.as_str());
            assert_eq!("", registry_auth.as_str());
        }
        _ => panic!("expected an image pull"),
    }
}

#[test]
fn pull_encodes_credential_blob() {
    let auth = RegistryAuth {
        username: Some("u".to_string()),
        password: Some("p".to_string()),
        email: None,
        serveraddress: Some("s".to_string()),
    };
    let config =
        EngineConfig::new("nginx:latest".to_string(), CreateOptions::new(), Some(auth)).unwrap();
    match mri().pull(&config) {
        EngineRequest::ImagePull { registry_auth, .. } => {
            assert_eq!(
                "eyJ1c2VybmFtZSI6InUiLCJwYXNzd29yZCI6InAiLCJzZXJ2ZXJhZGRyZXNzIjoicyJ9",
                registry_auth.as_str()
            );
        }
        _ => panic!("expected an image pull"),
    }
}

#[test]
fn auth_blob_escapes_and_omits_absent_fields() {
    let auth = RegistryAuth {
        username: Some("u\"x\\y\nz".to_string()),
        password: None,
        email: None,
        serveraddress: Some("reg.example.com".to_string()),
    };
    let blob = auth.to_json();
    let value: serde_json::Value = serde_json::from_str(&blob).unwrap();
    assert_eq!(
        Some(&serde_json::Value::String("u\"x\\y\nz".to_string())),
        value.get("username")
    );
    assert_eq!(
        Some(&serde_json::Value::String("reg.example.com".to_string())),
        value.get("serveraddress")
    );
    assert!(value.get("password").is_none());
    assert!(value.get("email").is_none());
}

#[test]
fn image_remove_composes_delete() {
    match mri().remove_image("nginx:latest") {
        Ok(EngineRequest::ImageDelete { name, force, no_prune }) => {
            assert_eq!("nginx:latest", name.as_str());
            assert!(!force);
            assert!(!no_prune);
        }
        _ => panic!("expected an image delete"),
    }
}

#[test]
fn init_without_network_is_a_noop() {
    assert!(mri().init_request().is_none());
}

#[test]
fn init_lists_networks_by_name_filter() {
    let rt = mri().with_network_id("azure-iot-edge".to_string());
    match rt.init_request() {
        Some(EngineRequest::NetworkList { filters }) => {
            assert_eq!("{\"name\":{\"azure-iot-edge\":true}}", filters.as_str());
        }
        _ => panic!("expected a network list"),
    }
}

#[test]
fn init_creates_network_only_when_none_matched() {
    let rt = mri().with_network_id("azure-iot-edge".to_string());
    match rt.init_create_request(&vec![]) {
        Some(EngineRequest::NetworkCreate { name }) => {
            assert_eq!("azure-iot-edge", name.as_str());
        }
        _ => panic!("expected a network create"),
    }
    assert!(rt.init_create_request(&vec!["azure-iot-edge".to_string()]).is_none());
}

#[test]
fn remove_all_plan_composes_one_delete_per_module() {
    let modules = vec![
        Module::new("a".to_string(), nginx_config()).unwrap(),
        Module::new("b".to_string(), nginx_config()).unwrap(),
        Module::new("c".to_string(), nginx_config()).unwrap(),
    ];
    let plan = mri().remove_all_plan(&modules);
    assert_eq!(3, plan.len());
    let expected = ["a", "b", "c"];
    for (request, expected_name) in plan.iter().zip(expected.iter()) {
        match request {
            EngineRequest::ContainerDelete { id, remove_volumes, force, remove_links } => {
                assert_eq!(*expected_name, id.as_str());
                assert!(!remove_volumes);
                assert!(force);
                assert!(!remove_links);
            }
            _ => panic!("expected a container delete"),
        }
    }
}

#[test]
fn remove_all_outcome_requires_every_removal_to_succeed() {
    let rt = mri();
    assert_eq!(Ok(()), rt.remove_all_outcome(&vec![Ok(()), Ok(()), Ok(())]));
    let outcomes = vec![
        Ok(()),
        Err(Error::Engine("boom".to_string())),
        Err(Error::NotFound(String::new())),
    ];
    assert_eq!(
        Err(Error::Engine("boom".to_string())),
        rt.remove_all_outcome(&outcomes)
    );
}

#[test]
fn interpret_list_maps_records_into_modules() {
    let mut labels = StringMap::new();
    labels.insert("k".to_string(), "v".to_string());
    let records = vec![
        ContainerRecord {
            image: "img1".to_string(),
            image_id: "sha1".to_string(),
            labels,
            names: vec!["/alpha".to_string()],
        },
        ContainerRecord {
            image: "img2".to_string(),
            image_id: "sha2".to_string(),
            labels: StringMap::new(),
            names: vec![],
        },
        ContainerRecord {
            image: "   ".to_string(),
            image_id: "sha3".to_string(),
            labels: StringMap::new(),
            names: vec!["/dropped".to_string()],
        },
        ContainerRecord {
            image: "img4".to_string(),
            image_id: "sha4".to_string(),
            labels: StringMap::new(),
            names: vec!["".to_string()],
        },
    ];
    let modules = mri().interpret_list(&records);
    assert_eq!(2, modules.len());
    assert_eq!("alpha", modules[0].name().as_str());
    assert_eq!("img1", modules[0].config().image().as_str());
    assert_eq!(&Some("sha1".to_string()), modules[0].config().image_id());
    let module_labels = modules[0].config().create_options().labels.as_ref().unwrap();
    assert_eq!(1, module_labels.len());
    assert_eq!("k", module_labels.key_at(0).as_str());
    assert_eq!("Unknown", modules[1].name().as_str());
    assert_eq!("docker", modules[1].type_());
}
