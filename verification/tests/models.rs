use vm_spawner::models::default_spawn_variant;
use vm_spawner::models::default_ssh_port;
use vm_spawner::models::default_ssh_user;
use vm_spawner::models::CapacityResponse;
use vm_spawner::models::CreateVmRequest;
use vm_spawner::models::GuestAutostartRequest;
use vm_spawner::models::PersistedVm;
use vm_spawner::models::PersistedVmPayload;
use vm_spawner::models::SessionRecord;
use vm_spawner::models::SessionRegistry;
use vm_spawner::models::Timestamp;
use vm_spawner::models::VmResponse;
use vm_spawner::models::VmResponsePayload;
use vm_spawner::models::DEFAULT_SSH_PORT;
use vm_spawner::text::decimal_string;
use vm_spawner::text::trim_trailing_slashes;
use std::collections::BTreeMap;
use std::path::PathBuf;

fn stored(spawn_variant: Option<&str>) -> PersistedVmPayload {
    PersistedVmPayload {
        id: "vm-7".to_string(),
        flake_ref: "git+https://x#r".to_string(),
        dev_shell: "default".to_string(),
        cpu: 2,
        memory_mb: 2048,
        ttl_seconds: 3600,
        ip: "10.0.0.7".to_string(),
        tap_name: "tap7".to_string(),
        mac_address: "02:00:00:00:00:07".to_string(),
        microvm_state_dir: PathBuf::from("/var/lib/vms/vm-7"),
        definition_dir: PathBuf::from("/var/lib/defs/vm-7"),
        ssh_private_key_path: PathBuf::from("/var/lib/keys/vm-7"),
        ssh_public_key_path: PathBuf::from("/var/lib/keys/vm-7.pub"),
        llm_session_token: "tok-7".to_string(),
        created_at: Timestamp { secs: 1_704_067_200, nanos: 5 },
        expires_at: Timestamp { secs: 1_704_070_800, nanos: 5 },
        status: "running".to_string(),
        spawn_variant: spawn_variant.map(|s| s.to_string()),
    }
}

fn wire(ssh_port: Option<u16>, ssh_user: Option<&str>) -> VmResponsePayload {
    let mut timings = BTreeMap::new();
    timings.insert("build".to_string(), 1200u64);
    timings.insert("boot".to_string(), 800u64);
    VmResponsePayload {
        id: "vm-1".to_string(),
        ip: "10.0.0.2".to_string(),
        ssh_port,
        ssh_user: ssh_user.map(|s| s.to_string()),
        ssh_private_key: "key".to_string(),
        llm_base_url: "http://10.0.0.2:8080".to_string(),
        llm_session_token: "tok".to_string(),
        status: "running".to_string(),
        created_at: Timestamp { secs: 1_704_067_200, nanos: 0 },
        ttl_seconds: 3600,
        flake_ref: "git+https://x#r".to_string(),
        dev_shell: "default".to_string(),
        spawn_variant: "legacy".to_string(),
        phase_timings_ms: timings,
    }
}

#[test]
fn defaults_are_22_root_and_legacy() {
    assert_eq!(default_ssh_port(), 22);
    assert_eq!(DEFAULT_SSH_PORT, 22);
    assert_eq!(default_ssh_user(), "root");
    assert_eq!(default_spawn_variant(), "legacy");
}

#[test]
fn absent_ssh_port_decodes_to_22() {
    let vm = VmResponse::from_payload(wire(None, Some("admin")));
    assert_eq!(vm.ssh_port, 22);
    assert_eq!(vm.ssh_user, "admin");
}

#[test]
fn absent_ssh_user_decodes_to_root() {
    let vm = VmResponse::from_payload(wire(Some(2222), None));
    assert_eq!(vm.ssh_port, 2222);
    assert_eq!(vm.ssh_user, "root");
}

#[test]
fn explicit_zero_port_and_empty_user_are_kept() {
    let vm = VmResponse::from_payload(wire(Some(0), Some("")));
    assert_eq!(vm.ssh_port, 0);
    assert_eq!(vm.ssh_user, "");
}

#[test]
fn vm_response_payload_round_trip() {
    let vm = VmResponse::from_payload(wire(Some(2200), Some("ops")));
    let back = vm.to_payload();
    assert_eq!(back.id, "vm-1");
    assert_eq!(back.ip, "10.0.0.2");
    assert_eq!(back.ssh_port, Some(2200));
    assert_eq!(back.ssh_user.as_deref(), Some("ops"));
    assert_eq!(back.ssh_private_key, "key");
    assert_eq!(back.llm_base_url, "http://10.0.0.2:8080");
    assert_eq!(back.llm_session_token, "tok");
    assert_eq!(back.status, "running");
    assert_eq!(back.created_at, Timestamp { secs: 1_704_067_200, nanos: 0 });
    assert_eq!(back.ttl_seconds, 3600);
    assert_eq!(back.flake_ref, "git+https://x#r");
    assert_eq!(back.dev_shell, "default");
    assert_eq!(back.spawn_variant, "legacy");
    assert_eq!(back.phase_timings_ms, wire(None, None).phase_timings_ms);
    let again = VmResponse::from_payload(back);
    assert_eq!(again.ssh_port, vm.ssh_port);
    assert_eq!(again.ssh_user, vm.ssh_user);
    assert_eq!(again.phase_timings_ms, vm.phase_timings_ms);
}

#[test]
fn encoding_a_defaulted_response_names_the_defaults() {
    let back = VmResponse::from_payload(wire(None, None)).to_payload();
    assert_eq!(back.ssh_port, Some(22));
    assert_eq!(back.ssh_user.as_deref(), Some("root"));
}

#[test]
fn phase_timings_are_ordered_by_key() {
    let vm = VmResponse::from_payload(wire(None, None));
    let keys: Vec<&str> = vm.phase_timings_ms.keys().map(|k| k.as_str()).collect();
    assert_eq!(keys, vec!["boot", "build"]);
}

#[test]
fn persisted_legacy_record_decodes_to_legacy() {
    let vm = PersistedVm::from_payload(stored(None));
    assert_eq!(vm.spawn_variant, "legacy");
    assert_eq!(vm.id, "vm-7");
    assert_eq!(vm.tap_name, "tap7");
}

#[test]
fn persisted_record_keeps_a_named_variant() {
    assert_eq!(PersistedVm::from_payload(stored(Some("fast"))).spawn_variant, "fast");
    assert_eq!(PersistedVm::from_payload(stored(Some(""))).spawn_variant, "");
}

#[test]
fn persisted_vm_payload_round_trip() {
    let vm = PersistedVm::from_payload(stored(Some("fast")));
    let back = vm.to_payload();
    let want = stored(Some("fast"));
    assert_eq!(back.id, want.id);
    assert_eq!(back.flake_ref, want.flake_ref);
    assert_eq!(back.dev_shell, want.dev_shell);
    assert_eq!(back.cpu, want.cpu);
    assert_eq!(back.memory_mb, want.memory_mb);
    assert_eq!(back.ttl_seconds, want.ttl_seconds);
    assert_eq!(back.ip, want.ip);
    assert_eq!(back.tap_name, want.tap_name);
    assert_eq!(back.mac_address, want.mac_address);
    assert_eq!(back.microvm_state_dir, want.microvm_state_dir);
    assert_eq!(back.definition_dir, want.definition_dir);
    assert_eq!(back.ssh_private_key_path, want.ssh_private_key_path);
    assert_eq!(back.ssh_public_key_path, want.ssh_public_key_path);
    assert_eq!(back.llm_session_token, want.llm_session_token);
    assert_eq!(back.created_at, want.created_at);
    assert_eq!(back.expires_at, want.expires_at);
    assert_eq!(back.status, want.status);
    assert_eq!(back.spawn_variant, want.spawn_variant);
}

#[test]
fn to_response_projects_the_record() {
    let vm = PersistedVm::from_payload(stored(Some("fast")));
    let mut timings = BTreeMap::new();
    timings.insert("boot".to_string(), 800u64);
    let shown = vm.to_response("PEM".to_string(), "http://llm:8080", timings.clone());
    assert_eq!(shown.id, "vm-7");
    assert_eq!(shown.ip, "10.0.0.7");
    assert_eq!(shown.ssh_port, 22);
    assert_eq!(shown.ssh_user, "root");
    assert_eq!(shown.ssh_private_key, "PEM");
    assert_eq!(shown.llm_base_url, "http://llm:8080");
    assert_eq!(shown.llm_session_token, "tok-7");
    assert_eq!(shown.status, "running");
    assert_eq!(shown.created_at, Timestamp { secs: 1_704_067_200, nanos: 5 });
    assert_eq!(shown.ttl_seconds, 3600);
    assert_eq!(shown.flake_ref, "git+https://x#r");
    assert_eq!(shown.dev_shell, "default");
    assert_eq!(shown.spawn_variant, "fast");
    assert_eq!(shown.phase_timings_ms, timings);
    assert_eq!(vm.id, "vm-7");
}

#[test]
fn capacity_consistency() {
    let good = CapacityResponse {
        total_cpus: 8,
        used_cpus: 2,
        total_memory_mb: 16384,
        used_memory_mb: 2048,
        vm_count: 1,
        max_vms: 4,
        available_vms: 3,
    };
    assert!(good.is_consistent());
    assert_eq!(good.available_vms + good.vm_count, good.max_vms);
    let full = CapacityResponse { vm_count: 4, available_vms: 0, ..good.clone() };
    assert!(full.is_consistent());
    assert!(!CapacityResponse { available_vms: 2, ..good.clone() }.is_consistent());
    assert!(!CapacityResponse { used_cpus: 9, ..good.clone() }.is_consistent());
    assert!(!CapacityResponse { used_memory_mb: 16385, ..good.clone() }.is_consistent());
    assert!(!CapacityResponse { vm_count: 5, available_vms: 0, ..good.clone() }.is_consistent());
}

#[test]
fn request_and_registry_hold_their_fields() {
    let mut env = BTreeMap::new();
    env.insert("B".to_string(), "2".to_string());
    env.insert("A".to_string(), "1".to_string());
    let req = CreateVmRequest {
        flake_ref: Some("git+https://x#r".to_string()),
        dev_shell: None,
        cpu: Some(2),
        memory_mb: Some(2048),
        ttl_seconds: Some(3600),
        spawn_variant: None,
        guest_autostart: Some(GuestAutostartRequest {
            command: "run".to_string(),
            env,
            files: BTreeMap::new(),
        }),
    };
    let auto = req.clone().guest_autostart.unwrap();
    let names: Vec<&str> = auto.env.keys().map(|k| k.as_str()).collect();
    assert_eq!(names, vec!["A", "B"]);
    assert!(auto.files.is_empty());
    assert_eq!(req.cpu, Some(2));
    let mut sessions = BTreeMap::new();
    sessions.insert(
        "tok".to_string(),
        SessionRecord { vm_id: "vm-1".to_string(), expires_at: Timestamp { secs: 10, nanos: 0 } },
    );
    let registry = SessionRegistry { sessions };
    assert_eq!(registry.sessions["tok"].vm_id, "vm-1");
    assert_eq!(registry.sessions["tok"].expires_at, Timestamp { secs: 10, nanos: 0 });
}

#[test]
fn trimming_text() {
    assert_eq!(trim_trailing_slashes("http://h////"), "http://h");
    assert_eq!(trim_trailing_slashes("a/b"), "a/b");
    assert_eq!(trim_trailing_slashes(""), "");
    assert_eq!(trim_trailing_slashes("//"), "");
    assert_eq!(trim_trailing_slashes("/a/ /"), "/a/ ");
}

#[test]
fn decimal_rendering() {
    assert_eq!(decimal_string(0), "0");
    assert_eq!(decimal_string(7), "7");
    assert_eq!(decimal_string(10), "10");
    assert_eq!(decimal_string(200), "200");
    assert_eq!(decimal_string(404), "404");
    assert_eq!(decimal_string(500), "500");
    assert_eq!(decimal_string(1234), "1234");
    assert_eq!(decimal_string(65535), "65535");
    for n in [0u16, 9, 99, 100, 299, 9999, 10000, 65535] {
        assert_eq!(decimal_string(n), n.to_string());
    }
}

#[test]
fn autostart_maps_default_to_empty() {
    let g = GuestAutostartRequest::from_payload(vm_spawner::models::GuestAutostartPayload {
        command: "run".to_string(),
        env: None,
        files: None,
    });
    assert_eq!(g.command, "run");
    assert!(g.env.is_empty());
    assert!(g.files.is_empty());
    let mut files = BTreeMap::new();
    files.insert("/etc/motd".to_string(), "hi".to_string());
    let g = GuestAutostartRequest::from_payload(vm_spawner::models::GuestAutostartPayload {
        command: "run".to_string(),
        env: None,
        files: Some(files.clone()),
    });
    assert!(g.env.is_empty());
    assert_eq!(g.files, files);
    let p = g.to_payload();
    assert_eq!(p.command, "run");
    assert_eq!(p.env, Some(BTreeMap::new()));
    assert_eq!(p.files, Some(files));
}
