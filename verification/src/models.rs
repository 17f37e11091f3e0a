//! The record shapes exchanged with the spawner service, and the rules by
//! which fields that are absent on the wire or on disk take their defaults.

use vstd::prelude::*;
use std::collections::BTreeMap;
use std::path::PathBuf;

verus! {

/// `std::path::PathBuf`, carried through these records as an opaque host path.
#[verifier::external_type_specification]
#[verifier::external_body]
pub struct ExPathBuf(PathBuf);

/// `PathBuf::clone`: the copy is the same path as the one it was made from.
pub assume_specification[ <PathBuf as Clone>::clone ](p: &PathBuf) -> (r: PathBuf)
    ensures
        r == *p,
;

/// The SSH port of a response that names none.
pub const DEFAULT_SSH_PORT: u16 = 22;

/// The SSH account of a response that names none.
pub open spec fn default_ssh_user_text() -> Seq<char> {
    "root"@
}

/// The spawn variant of a stored record that names none.
pub open spec fn default_spawn_variant_text() -> Seq<char> {
    "legacy"@
}

/// The SSH port assumed when a response omits it.
pub fn default_ssh_port() -> (r: u16)
    ensures
        r == DEFAULT_SSH_PORT,
        r == 22,
{
    DEFAULT_SSH_PORT
}

/// The SSH account assumed when a response omits it.
pub fn default_ssh_user() -> (r: String)
    ensures
        r@ == default_ssh_user_text(),
{
    String::from_str("root")
}

/// The spawn variant assumed when a stored record omits it.
pub fn default_spawn_variant() -> (r: String)
    ensures
        r@ == default_spawn_variant_text(),
{
    String::from_str("legacy")
}

/// The text of an optional string.
pub open spec fn opt_text(o: Option<String>) -> Option<Seq<char>> {
    match o {
        Some(s) => Some(s@),
        None => None,
    }
}

/// An absolute instant in UTC: whole seconds since the Unix epoch and the
/// nanoseconds past that second.
#[derive(Debug, Clone, Copy, PartialEq, Eq)]
pub struct Timestamp {
    pub secs: i64,
    pub nanos: u32,
}

/// A command to run at guest boot, with its environment (name to value) and
/// the files to place (absolute path to contents). Both maps are keyed
/// uniquely and ordered by key.
#[derive(Debug, Clone)]
pub struct GuestAutostartRequest {
    pub command: String,
    pub env: BTreeMap<String, String>,
    pub files: BTreeMap<String, String>,
}

/// A [`GuestAutostartRequest`] as it stands on the wire: either map may be
/// absent.
#[derive(Debug, Clone)]
pub struct GuestAutostartPayload {
    pub command: String,
    pub env: Option<BTreeMap<String, String>>,
    pub files: Option<BTreeMap<String, String>>,
}

/// The mapping that an optional map stands for: an absent one is empty.
pub open spec fn map_or_empty(m: Option<BTreeMap<String, String>>) -> Map<String, String> {
    match m {
        Some(m) => m@,
        None => Map::empty(),
    }
}

impl GuestAutostartRequest {
    /// Decodes a payload: an absent `env` or `files` is the empty map.
    pub fn from_payload(p: GuestAutostartPayload) -> (r: GuestAutostartRequest)
        ensures
            r.command@ == p.command@,
            r.env@ == map_or_empty(p.env),
            r.files@ == map_or_empty(p.files),
    {
        let env = match p.env {
            Some(m) => m,
            None => BTreeMap::new(),
        };
        let files = match p.files {
            Some(m) => m,
            None => BTreeMap::new(),
        };
        GuestAutostartRequest { command: p.command, env, files }
    }

    /// Encodes the request with both maps present.
    pub fn to_payload(&self) -> (p: GuestAutostartPayload)
        ensures
            p.command@ == self.command@,
            p.env is Some,
            p.files is Some,
            map_or_empty(p.env) == self.env@,
            map_or_empty(p.files) == self.files@,
    {
        GuestAutostartPayload {
            command: self.command.clone(),
            env: Some(self.env.clone()),
            files: Some(self.files.clone()),
        }
    }
}

/// A request to create a VM. Every field is optional: the service applies its
/// default to an absent one.
#[derive(Debug, Clone)]
pub struct CreateVmRequest {
    pub flake_ref: Option<String>,
    pub dev_shell: Option<String>,
    pub cpu: Option<u32>,
    pub memory_mb: Option<u32>,
    pub ttl_seconds: Option<u64>,
    pub spawn_variant: Option<String>,
    pub guest_autostart: Option<GuestAutostartRequest>,
}

/// The narrow view of a VM that a status query returns.
#[derive(Debug, Clone)]
pub struct VmStatus {
    pub id: String,
    pub ip: String,
}

/// What a [`VmStatus`] holds, as mathematical values.
pub struct VmStatusView {
    pub id: Seq<char>,
    pub ip: Seq<char>,
}

impl View for VmStatus {
    type V = VmStatusView;

    open spec fn view(&self) -> VmStatusView {
        VmStatusView { id: self.id@, ip: self.ip@ }
    }
}

/// The full view of a VM, as returned when it is created.
#[derive(Debug, Clone)]
pub struct VmResponse {
    /// Server-assigned identifier.
    pub id: String,
    /// Reachable guest address.
    pub ip: String,
    /// TCP port for SSH.
    pub ssh_port: u16,
    /// SSH account name.
    pub ssh_user: String,
    /// PEM-encoded private key with which the caller reaches the guest.
    pub ssh_private_key: String,
    /// Endpoint of the in-guest inference service.
    pub llm_base_url: String,
    /// Bearer credential for that service.
    pub llm_session_token: String,
    /// Coarse lifecycle label.
    pub status: String,
    /// When the VM was created.
    pub created_at: Timestamp,
    /// Lifetime before automatic reaping.
    pub ttl_seconds: u64,
    /// Build-recipe reference after default resolution.
    pub flake_ref: String,
    /// Named environment within the recipe.
    pub dev_shell: String,
    /// Spawn path that was taken.
    pub spawn_variant: String,
    /// Elapsed milliseconds per named spawn phase, ordered by phase name.
    pub phase_timings_ms: BTreeMap<String, u64>,
}

/// What a [`VmResponse`] holds, as mathematical values.
pub struct VmResponseView {
    pub id: Seq<char>,
    pub ip: Seq<char>,
    pub ssh_port: u16,
    pub ssh_user: Seq<char>,
    pub ssh_private_key: Seq<char>,
    pub llm_base_url: Seq<char>,
    pub llm_session_token: Seq<char>,
    pub status: Seq<char>,
    pub created_at: Timestamp,
    pub ttl_seconds: u64,
    pub flake_ref: Seq<char>,
    pub dev_shell: Seq<char>,
    pub spawn_variant: Seq<char>,
    pub phase_timings_ms: Map<String, u64>,
}

impl View for VmResponse {
    type V = VmResponseView;

    open spec fn view(&self) -> VmResponseView {
        VmResponseView {
            id: self.id@,
            ip: self.ip@,
            ssh_port: self.ssh_port,
            ssh_user: self.ssh_user@,
            ssh_private_key: self.ssh_private_key@,
            llm_base_url: self.llm_base_url@,
            llm_session_token: self.llm_session_token@,
            status: self.status@,
            created_at: self.created_at,
            ttl_seconds: self.ttl_seconds,
            flake_ref: self.flake_ref@,
            dev_shell: self.dev_shell@,
            spawn_variant: self.spawn_variant@,
            phase_timings_ms: self.phase_timings_ms@,
        }
    }
}

/// A [`VmResponse`] as it stands on the wire: the fields that have a default may be absent.
#[derive(Debug, Clone)]
pub struct VmResponsePayload {
    /// Server-assigned identifier.
    pub id: String,
    /// Reachable guest address.
    pub ip: String,
    /// TCP port for SSH.
    pub ssh_port: Option<u16>,
    /// SSH account name.
    pub ssh_user: Option<String>,
    /// PEM-encoded private key with which the caller reaches the guest.
    pub ssh_private_key: String,
    /// Endpoint of the in-guest inference service.
    pub llm_base_url: String,
    /// Bearer credential for that service.
    pub llm_session_token: String,
    /// Coarse lifecycle label.
    pub status: String,
    /// When the VM was created.
    pub created_at: Timestamp,
    /// Lifetime before automatic reaping.
    pub ttl_seconds: u64,
    /// Build-recipe reference after default resolution.
    pub flake_ref: String,
    /// Named environment within the recipe.
    pub dev_shell: String,
    /// Spawn path that was taken.
    pub spawn_variant: String,
    /// Elapsed milliseconds per named spawn phase, ordered by phase name.
    pub phase_timings_ms: BTreeMap<String, u64>,
}

/// What a [`VmResponsePayload`] holds, as mathematical values.
pub struct VmResponsePayloadView {
    pub id: Seq<char>,
    pub ip: Seq<char>,
    pub ssh_port: Option<u16>,
    pub ssh_user: Option<Seq<char>>,
    pub ssh_private_key: Seq<char>,
    pub llm_base_url: Seq<char>,
    pub llm_session_token: Seq<char>,
    pub status: Seq<char>,
    pub created_at: Timestamp,
    pub ttl_seconds: u64,
    pub flake_ref: Seq<char>,
    pub dev_shell: Seq<char>,
    pub spawn_variant: Seq<char>,
    pub phase_timings_ms: Map<String, u64>,
}

impl View for VmResponsePayload {
    type V = VmResponsePayloadView;

    open spec fn view(&self) -> VmResponsePayloadView {
        VmResponsePayloadView {
            id: self.id@,
            ip: self.ip@,
            ssh_port: self.ssh_port,
            ssh_user: opt_text(self.ssh_user),
            ssh_private_key: self.ssh_private_key@,
            llm_base_url: self.llm_base_url@,
            llm_session_token: self.llm_session_token@,
            status: self.status@,
            created_at: self.created_at,
            ttl_seconds: self.ttl_seconds,
            flake_ref: self.flake_ref@,
            dev_shell: self.dev_shell@,
            spawn_variant: self.spawn_variant@,
            phase_timings_ms: self.phase_timings_ms@,
        }
    }
}

/// The response that a payload decodes to: an absent `ssh_port` or `ssh_user` takes its default, and a present one is kept whatever it holds.
pub open spec fn resolve_vm_response(p: VmResponsePayloadView) -> VmResponseView {
    VmResponseView {
        id: p.id,
        ip: p.ip,
        ssh_port: match p.ssh_port {
            Some(x) => x,
            None => DEFAULT_SSH_PORT,
        },
        ssh_user: match p.ssh_user {
            Some(x) => x,
            None => default_ssh_user_text(),
        },
        ssh_private_key: p.ssh_private_key,
        llm_base_url: p.llm_base_url,
        llm_session_token: p.llm_session_token,
        status: p.status,
        created_at: p.created_at,
        ttl_seconds: p.ttl_seconds,
        flake_ref: p.flake_ref,
        dev_shell: p.dev_shell,
        spawn_variant: p.spawn_variant,
        phase_timings_ms: p.phase_timings_ms,
    }
}

/// The payload that a response encodes to: every field present.
pub open spec fn vm_response_payload(v: VmResponseView) -> VmResponsePayloadView {
    VmResponsePayloadView {
        id: v.id,
        ip: v.ip,
        ssh_port: Some(v.ssh_port),
        ssh_user: Some(v.ssh_user),
        ssh_private_key: v.ssh_private_key,
        llm_base_url: v.llm_base_url,
        llm_session_token: v.llm_session_token,
        status: v.status,
        created_at: v.created_at,
        ttl_seconds: v.ttl_seconds,
        flake_ref: v.flake_ref,
        dev_shell: v.dev_shell,
        spawn_variant: v.spawn_variant,
        phase_timings_ms: v.phase_timings_ms,
    }
}

impl VmResponse {
    /// Decodes a payload, filling in the defaults of absent fields.
    pub fn from_payload(p: VmResponsePayload) -> (r: VmResponse)
        ensures
            r@ == resolve_vm_response(p@),
    {
        let ssh_port = match p.ssh_port {
            Some(x) => x,
            None => default_ssh_port(),
        };
        let ssh_user = match p.ssh_user {
            Some(x) => x,
            None => default_ssh_user(),
        };
        VmResponse {
            id: p.id,
            ip: p.ip,
            ssh_port,
            ssh_user,
            ssh_private_key: p.ssh_private_key,
            llm_base_url: p.llm_base_url,
            llm_session_token: p.llm_session_token,
            status: p.status,
            created_at: p.created_at,
            ttl_seconds: p.ttl_seconds,
            flake_ref: p.flake_ref,
            dev_shell: p.dev_shell,
            spawn_variant: p.spawn_variant,
            phase_timings_ms: p.phase_timings_ms,
        }
    }

    /// Encodes the response with every field present.
    pub fn to_payload(&self) -> (p: VmResponsePayload)
        ensures
            p@ == vm_response_payload(self@),
    {
        VmResponsePayload {
            id: self.id.clone(),
            ip: self.ip.clone(),
            ssh_port: Some(self.ssh_port),
            ssh_user: Some(self.ssh_user.clone()),
            ssh_private_key: self.ssh_private_key.clone(),
            llm_base_url: self.llm_base_url.clone(),
            llm_session_token: self.llm_session_token.clone(),
            status: self.status.clone(),
            created_at: self.created_at,
            ttl_seconds: self.ttl_seconds,
            flake_ref: self.flake_ref.clone(),
            dev_shell: self.dev_shell.clone(),
            spawn_variant: self.spawn_variant.clone(),
            phase_timings_ms: self.phase_timings_ms.clone(),
        }
    }
}

/// Decoding what was encoded gives the response back.
pub proof fn lemma_vm_response_encode_decode(v: VmResponseView)
    ensures
        resolve_vm_response(vm_response_payload(v)) == v,
{
}

/// Encoding what was decoded gives the payload back, provided that it named
/// both fields that have a default.
pub proof fn lemma_vm_response_decode_encode(p: VmResponsePayloadView)
    requires
        p.ssh_port is Some,
        p.ssh_user is Some,
    ensures
        vm_response_payload(resolve_vm_response(p)) == p,
{
}

/// A payload without `ssh_port` decodes to port 22, one without `ssh_user` to
/// the account `root`; a field that is present is kept as it is, and no other
/// field is touched by either rule.
pub proof fn lemma_vm_response_defaults(p: VmResponsePayloadView)
    ensures
        p.ssh_port is None ==> resolve_vm_response(p).ssh_port == 22,
        p.ssh_user is None ==> resolve_vm_response(p).ssh_user == "root"@,
        p.ssh_port is Some ==> resolve_vm_response(p).ssh_port == p.ssh_port->0,
        p.ssh_user is Some ==> resolve_vm_response(p).ssh_user == p.ssh_user->0,
{
}

/// An instantaneous snapshot of the service's capacity.
#[derive(Debug, Clone)]
pub struct CapacityResponse {
    pub total_cpus: u32,
    pub used_cpus: u32,
    pub total_memory_mb: u64,
    pub used_memory_mb: u64,
    pub vm_count: usize,
    pub max_vms: usize,
    pub available_vms: usize,
}

impl CapacityResponse {
    /// What holds of every snapshot that the service hands out: nothing is
    /// used beyond what there is, and the free slots are those not taken.
    pub open spec fn wf(&self) -> bool {
        &&& self.used_cpus <= self.total_cpus
        &&& self.used_memory_mb <= self.total_memory_mb
        &&& self.vm_count <= self.max_vms
        &&& self.available_vms == self.max_vms - self.vm_count
    }

    /// Tells whether the snapshot is consistent with itself.
    pub fn is_consistent(&self) -> (ok: bool)
        ensures
            ok == self.wf(),
    {
        self.used_cpus <= self.total_cpus && self.used_memory_mb <= self.total_memory_mb
            && self.vm_count <= self.max_vms && self.available_vms == self.max_vms
            - self.vm_count
    }
}

/// In a consistent snapshot the free and the taken slots add up to the limit.
pub proof fn lemma_capacity_slots_add_up(c: CapacityResponse)
    requires
        c.wf(),
    ensures
        c.available_vms + c.vm_count == c.max_vms,
{
}

/// One session: the VM it belongs to and when it lapses.
#[derive(Debug, Clone)]
pub struct SessionRecord {
    pub vm_id: String,
    pub expires_at: Timestamp,
}

/// The sessions that the service knows, by session token.
#[derive(Debug, Clone)]
pub struct SessionRegistry {
    pub sessions: BTreeMap<String, SessionRecord>,
}

/// The record that the service keeps of a VM on disk.
#[derive(Debug, Clone)]
pub struct PersistedVm {
    pub id: String,
    pub flake_ref: String,
    pub dev_shell: String,
    pub cpu: u32,
    pub memory_mb: u32,
    pub ttl_seconds: u64,
    pub ip: String,
    /// Host-side tap device; never shown to clients.
    pub tap_name: String,
    /// Host-side hardware address; never shown to clients.
    pub mac_address: String,
    pub microvm_state_dir: PathBuf,
    pub definition_dir: PathBuf,
    pub ssh_private_key_path: PathBuf,
    pub ssh_public_key_path: PathBuf,
    pub llm_session_token: String,
    pub created_at: Timestamp,
    pub expires_at: Timestamp,
    pub status: String,
    pub spawn_variant: String,
}

/// What a [`PersistedVm`] holds, as mathematical values.
pub struct PersistedVmView {
    pub id: Seq<char>,
    pub flake_ref: Seq<char>,
    pub dev_shell: Seq<char>,
    pub cpu: u32,
    pub memory_mb: u32,
    pub ttl_seconds: u64,
    pub ip: Seq<char>,
    pub tap_name: Seq<char>,
    pub mac_address: Seq<char>,
    pub microvm_state_dir: PathBuf,
    pub definition_dir: PathBuf,
    pub ssh_private_key_path: PathBuf,
    pub ssh_public_key_path: PathBuf,
    pub llm_session_token: Seq<char>,
    pub created_at: Timestamp,
    pub expires_at: Timestamp,
    pub status: Seq<char>,
    pub spawn_variant: Seq<char>,
}

impl View for PersistedVm {
    type V = PersistedVmView;

    open spec fn view(&self) -> PersistedVmView {
        PersistedVmView {
            id: self.id@,
            flake_ref: self.flake_ref@,
            dev_shell: self.dev_shell@,
            cpu: self.cpu,
            memory_mb: self.memory_mb,
            ttl_seconds: self.ttl_seconds,
            ip: self.ip@,
            tap_name: self.tap_name@,
            mac_address: self.mac_address@,
            microvm_state_dir: self.microvm_state_dir,
            definition_dir: self.definition_dir,
            ssh_private_key_path: self.ssh_private_key_path,
            ssh_public_key_path: self.ssh_public_key_path,
            llm_session_token: self.llm_session_token@,
            created_at: self.created_at,
            expires_at: self.expires_at,
            status: self.status@,
            spawn_variant: self.spawn_variant@,
        }
    }
}

/// A [`PersistedVm`] as it was stored: older records lack `spawn_variant`.
#[derive(Debug, Clone)]
pub struct PersistedVmPayload {
    pub id: String,
    pub flake_ref: String,
    pub dev_shell: String,
    pub cpu: u32,
    pub memory_mb: u32,
    pub ttl_seconds: u64,
    pub ip: String,
    /// Host-side tap device; never shown to clients.
    pub tap_name: String,
    /// Host-side hardware address; never shown to clients.
    pub mac_address: String,
    pub microvm_state_dir: PathBuf,
    pub definition_dir: PathBuf,
    pub ssh_private_key_path: PathBuf,
    pub ssh_public_key_path: PathBuf,
    pub llm_session_token: String,
    pub created_at: Timestamp,
    pub expires_at: Timestamp,
    pub status: String,
    pub spawn_variant: Option<String>,
}

/// What a [`PersistedVmPayload`] holds, as mathematical values.
pub struct PersistedVmPayloadView {
    pub id: Seq<char>,
    pub flake_ref: Seq<char>,
    pub dev_shell: Seq<char>,
    pub cpu: u32,
    pub memory_mb: u32,
    pub ttl_seconds: u64,
    pub ip: Seq<char>,
    pub tap_name: Seq<char>,
    pub mac_address: Seq<char>,
    pub microvm_state_dir: PathBuf,
    pub definition_dir: PathBuf,
    pub ssh_private_key_path: PathBuf,
    pub ssh_public_key_path: PathBuf,
    pub llm_session_token: Seq<char>,
    pub created_at: Timestamp,
    pub expires_at: Timestamp,
    pub status: Seq<char>,
    pub spawn_variant: Option<Seq<char>>,
}

impl View for PersistedVmPayload {
    type V = PersistedVmPayloadView;

    open spec fn view(&self) -> PersistedVmPayloadView {
        PersistedVmPayloadView {
            id: self.id@,
            flake_ref: self.flake_ref@,
            dev_shell: self.dev_shell@,
            cpu: self.cpu,
            memory_mb: self.memory_mb,
            ttl_seconds: self.ttl_seconds,
            ip: self.ip@,
            tap_name: self.tap_name@,
            mac_address: self.mac_address@,
            microvm_state_dir: self.microvm_state_dir,
            definition_dir: self.definition_dir,
            ssh_private_key_path: self.ssh_private_key_path,
            ssh_public_key_path: self.ssh_public_key_path,
            llm_session_token: self.llm_session_token@,
            created_at: self.created_at,
            expires_at: self.expires_at,
            status: self.status@,
            spawn_variant: opt_text(self.spawn_variant),
        }
    }
}

/// The record that a stored payload decodes to: an absent `spawn_variant` reads as the legacy one.
pub open spec fn resolve_persisted_vm(p: PersistedVmPayloadView) -> PersistedVmView {
    PersistedVmView {
        id: p.id,
        flake_ref: p.flake_ref,
        dev_shell: p.dev_shell,
        cpu: p.cpu,
        memory_mb: p.memory_mb,
        ttl_seconds: p.ttl_seconds,
        ip: p.ip,
        tap_name: p.tap_name,
        mac_address: p.mac_address,
        microvm_state_dir: p.microvm_state_dir,
        definition_dir: p.definition_dir,
        ssh_private_key_path: p.ssh_private_key_path,
        ssh_public_key_path: p.ssh_public_key_path,
        llm_session_token: p.llm_session_token,
        created_at: p.created_at,
        expires_at: p.expires_at,
        status: p.status,
        spawn_variant: match p.spawn_variant {
            Some(x) => x,
            None => default_spawn_variant_text(),
        },
    }
}

/// The payload that a record is stored as: every field present.
pub open spec fn persisted_vm_payload(v: PersistedVmView) -> PersistedVmPayloadView {
    PersistedVmPayloadView {
        id: v.id,
        flake_ref: v.flake_ref,
        dev_shell: v.dev_shell,
        cpu: v.cpu,
        memory_mb: v.memory_mb,
        ttl_seconds: v.ttl_seconds,
        ip: v.ip,
        tap_name: v.tap_name,
        mac_address: v.mac_address,
        microvm_state_dir: v.microvm_state_dir,
        definition_dir: v.definition_dir,
        ssh_private_key_path: v.ssh_private_key_path,
        ssh_public_key_path: v.ssh_public_key_path,
        llm_session_token: v.llm_session_token,
        created_at: v.created_at,
        expires_at: v.expires_at,
        status: v.status,
        spawn_variant: Some(v.spawn_variant),
    }
}

/// The response that a record is shown as, given the private key, the
/// service's inference endpoint and the collected timings: SSH is always on
/// port 22 as `root`, the host-side paths and addressing stay behind, and
/// every other field is taken over as it is.
pub open spec fn project_response(
    vm: PersistedVmView,
    private_key: Seq<char>,
    llm_base_url: Seq<char>,
    phase_timings_ms: Map<String, u64>,
) -> VmResponseView {
    VmResponseView {
        id: vm.id,
        ip: vm.ip,
        ssh_port: 22,
        ssh_user: "root"@,
        ssh_private_key: private_key,
        llm_base_url: llm_base_url,
        llm_session_token: vm.llm_session_token,
        status: vm.status,
        created_at: vm.created_at,
        ttl_seconds: vm.ttl_seconds,
        flake_ref: vm.flake_ref,
        dev_shell: vm.dev_shell,
        spawn_variant: vm.spawn_variant,
        phase_timings_ms: phase_timings_ms,
    }
}

impl PersistedVm {
    /// Decodes a stored payload, reading an absent `spawn_variant` as the legacy one.
    pub fn from_payload(p: PersistedVmPayload) -> (r: PersistedVm)
        ensures
            r@ == resolve_persisted_vm(p@),
    {
        let spawn_variant = match p.spawn_variant {
            Some(x) => x,
            None => default_spawn_variant(),
        };
        PersistedVm {
            id: p.id,
            flake_ref: p.flake_ref,
            dev_shell: p.dev_shell,
            cpu: p.cpu,
            memory_mb: p.memory_mb,
            ttl_seconds: p.ttl_seconds,
            ip: p.ip,
            tap_name: p.tap_name,
            mac_address: p.mac_address,
            microvm_state_dir: p.microvm_state_dir,
            definition_dir: p.definition_dir,
            ssh_private_key_path: p.ssh_private_key_path,
            ssh_public_key_path: p.ssh_public_key_path,
            llm_session_token: p.llm_session_token,
            created_at: p.created_at,
            expires_at: p.expires_at,
            status: p.status,
            spawn_variant,
        }
    }

    /// Encodes the record with every field present.
    pub fn to_payload(&self) -> (p: PersistedVmPayload)
        ensures
            p@ == persisted_vm_payload(self@),
    {
        PersistedVmPayload {
            id: self.id.clone(),
            flake_ref: self.flake_ref.clone(),
            dev_shell: self.dev_shell.clone(),
            cpu: self.cpu,
            memory_mb: self.memory_mb,
            ttl_seconds: self.ttl_seconds,
            ip: self.ip.clone(),
            tap_name: self.tap_name.clone(),
            mac_address: self.mac_address.clone(),
            microvm_state_dir: self.microvm_state_dir.clone(),
            definition_dir: self.definition_dir.clone(),
            ssh_private_key_path: self.ssh_private_key_path.clone(),
            ssh_public_key_path: self.ssh_public_key_path.clone(),
            llm_session_token: self.llm_session_token.clone(),
            created_at: self.created_at,
            expires_at: self.expires_at,
            status: self.status.clone(),
            spawn_variant: Some(self.spawn_variant.clone()),
        }
    }

    /// Projects the record into the response shown to a client.
    pub fn to_response(
        &self,
        private_key: String,
        llm_base_url: &str,
        phase_timings_ms: BTreeMap<String, u64>,
    ) -> (r: VmResponse)
        ensures
            r@ == project_response(self@, private_key@, llm_base_url@, phase_timings_ms@),
    {
        VmResponse {
            id: self.id.clone(),
            ip: self.ip.clone(),
            ssh_port: 22,
            ssh_user: String::from_str("root"),
            ssh_private_key: private_key,
            llm_base_url: String::from_str(llm_base_url),
            llm_session_token: self.llm_session_token.clone(),
            status: self.status.clone(),
            created_at: self.created_at,
            ttl_seconds: self.ttl_seconds,
            flake_ref: self.flake_ref.clone(),
            dev_shell: self.dev_shell.clone(),
            spawn_variant: self.spawn_variant.clone(),
            phase_timings_ms,
        }
    }
}

/// Decoding what was stored with every field present gives the record back.
pub proof fn lemma_persisted_vm_encode_decode(v: PersistedVmView)
    ensures
        resolve_persisted_vm(persisted_vm_payload(v)) == v,
{
}

/// Storing what was decoded gives the payload back, provided that it named
/// its `spawn_variant`.
pub proof fn lemma_persisted_vm_decode_encode(p: PersistedVmPayloadView)
    requires
        p.spawn_variant is Some,
    ensures
        persisted_vm_payload(resolve_persisted_vm(p)) == p,
{
}

/// A stored record without `spawn_variant` decodes to the legacy variant; one
/// that names it keeps what it names.
pub proof fn lemma_persisted_vm_default_variant(p: PersistedVmPayloadView)
    ensures
        p.spawn_variant is None ==> resolve_persisted_vm(p).spawn_variant == "legacy"@,
        p.spawn_variant is Some ==> resolve_persisted_vm(p).spawn_variant == p.spawn_variant->0,
{
}

/// A record shown to a client always has SSH on port 22 as `root`.
pub proof fn lemma_projection_ssh_defaults(
    vm: PersistedVmView,
    private_key: Seq<char>,
    llm_base_url: Seq<char>,
    phase_timings_ms: Map<String, u64>,
)
    ensures
        project_response(vm, private_key, llm_base_url, phase_timings_ms).ssh_port
            == DEFAULT_SSH_PORT,
        project_response(vm, private_key, llm_base_url, phase_timings_ms).ssh_user
            == default_ssh_user_text(),
{
}

} // verus!
