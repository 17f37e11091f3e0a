//! The client of the spawner service, without its transport: which request
//! each operation issues, and what the outcome of the exchange means.
//!
//! The client never touches the network itself. For each operation it names
//! the call to make ([`HttpCall`]); whoever owns the transport makes it and
//! hands back what happened ([`Exchange`]); the client then says what the
//! operation returns. One call, one exchange: nothing is retried.

use vstd::prelude::*;
use crate::models::resolve_vm_response;
use crate::models::VmResponse;
use crate::models::VmResponsePayload;
use crate::models::VmStatus;
use crate::text::decimal;
use crate::text::decimal_string;
use crate::text::lemma_trimmed_len;
use crate::text::strip_trailing_slashes;
use crate::text::trim_trailing_slashes;
use crate::text::trimmed_len;

verus! {

/// Seconds allowed for creating a VM.
pub const CREATE_VM_TIMEOUT_SECS: u64 = 20;

/// Seconds allowed for deleting a VM.
pub const DELETE_VM_TIMEOUT_SECS: u64 = 10;

/// Seconds allowed for one status query. Callers poll with it while they wait
/// for a VM to come up, so a stalled connection must not eat their budget.
pub const GET_VM_TIMEOUT_SECS: u64 = 2;

/// The HTTP method of a call.
#[derive(Debug, Clone, Copy, PartialEq, Eq, Structural)]
pub enum Method {
    Post,
    Delete,
    Get,
}

/// One request to the service: where it goes, within how many seconds it
/// must be answered, and whether it carries the create request as JSON.
#[derive(Debug, Clone)]
pub struct HttpCall {
    pub method: Method,
    pub url: String,
    pub timeout_secs: u64,
    pub has_json_body: bool,
}

/// What an [`HttpCall`] holds, as mathematical values.
pub struct HttpCallView {
    pub method: Method,
    pub url: Seq<char>,
    pub timeout_secs: u64,
    pub has_json_body: bool,
}

impl View for HttpCall {
    type V = HttpCallView;

    open spec fn view(&self) -> HttpCallView {
        HttpCallView {
            method: self.method,
            url: self.url@,
            timeout_secs: self.timeout_secs,
            has_json_body: self.has_json_body,
        }
    }
}

/// What came of one call.
#[derive(Debug, Clone)]
pub enum Exchange<T> {
    /// No response arrived: the request could not be sent, or the deadline
    /// passed. `cause` is the transport's account of it.
    Failed { cause: String },
    /// A response arrived. `body` is its text (empty where it could not be
    /// read), `decoded` what that text parses to, if it parses.
    Replied { status: u16, body: String, decoded: Option<T> },
}

/// Why an operation failed.
#[derive(Debug, Clone)]
pub enum ClientError {
    /// The request could not be sent, or no response came in time.
    Transport { context: String, cause: String },
    /// The service answered with a status outside 200..=299.
    Remote { context: String, status: u16, body: String },
    /// The service answered with success, but its body is not what the
    /// operation returns.
    Decode { context: String },
}

/// What a [`ClientError`] holds, as mathematical values.
pub enum ClientErrorView {
    Transport { context: Seq<char>, cause: Seq<char> },
    Remote { context: Seq<char>, status: u16, body: Seq<char> },
    Decode { context: Seq<char> },
}

impl View for ClientError {
    type V = ClientErrorView;

    open spec fn view(&self) -> ClientErrorView {
        match *self {
            ClientError::Transport { context, cause } => ClientErrorView::Transport {
                context: context@,
                cause: cause@,
            },
            ClientError::Remote { context, status, body } => ClientErrorView::Remote {
                context: context@,
                status: status,
                body: body@,
            },
            ClientError::Decode { context } => ClientErrorView::Decode { context: context@ },
        }
    }
}

/// The one-line message of an error: the operation, then the status and the
/// service's diagnostic body where there is one, or the transport's cause.
pub open spec fn message_text(e: ClientErrorView) -> Seq<char> {
    match e {
        ClientErrorView::Transport { context, cause } => context + ": "@ + cause,
        ClientErrorView::Remote { context, status, body } => context + ": "@ + decimal(
            status as nat,
        ) + " "@ + body,
        ClientErrorView::Decode { context } => context,
    }
}

impl ClientError {
    /// The error as a one-line message.
    pub fn message(&self) -> (r: String)
        ensures
            r@ == message_text(self@),
    {
        match self {
            ClientError::Transport { context, cause } => {
                let mut m = context.clone();
                m.append(": ");
                m.append(cause.as_str());
                m
            },
            ClientError::Remote { context, status, body } => {
                let mut m = context.clone();
                m.append(": ");
                let digits = decimal_string(*status);
                m.append(digits.as_str());
                m.append(" ");
                m.append(body.as_str());
                m
            },
            ClientError::Decode { context } => context.clone(),
        }
    }
}

/// Whether a status code denotes success.
pub open spec fn is_success(status: u16) -> bool {
    200 <= status <= 299
}

/// The address that create requests go to.
pub open spec fn collection_url(base: Seq<char>) -> Seq<char> {
    base + "/vms"@
}

/// The address of the VM `vm_id`.
pub open spec fn vm_url(base: Seq<char>, vm_id: Seq<char>) -> Seq<char> {
    base + "/vms/"@ + vm_id
}

/// The error that an exchange amounts to, if any. A failed exchange is a
/// transport error. A reply outside 200..=299 is a remote error with its
/// status and body, whatever the body holds. A successful reply is a decode
/// error where the operation returns a value and the body is empty or does
/// not parse; otherwise the operation succeeds.
pub open spec fn exchange_error<T>(
    exchange: Exchange<T>,
    returns_value: bool,
    send_context: Seq<char>,
    remote_context: Seq<char>,
    decode_context: Seq<char>,
) -> Option<ClientErrorView> {
    match exchange {
        Exchange::Failed { cause } => Some(
            ClientErrorView::Transport { context: send_context, cause: cause@ },
        ),
        Exchange::Replied { status, body, decoded } => {
            if !is_success(status) {
                Some(
                    ClientErrorView::Remote {
                        context: remote_context,
                        status: status,
                        body: body@,
                    },
                )
            } else if returns_value && (body@.len() == 0 || decoded is None) {
                Some(ClientErrorView::Decode { context: decode_context })
            } else {
                None
            }
        },
    }
}

/// `prefix` followed by `rest`.
fn join(prefix: &str, rest: &str) -> (r: String)
    ensures
        r@ == prefix@ + rest@,
{
    let mut r = String::from_str(prefix);
    r.append(rest);
    r
}

/// Reads an exchange: the error it amounts to, or else what was decoded.
fn settle<T>(
    exchange: Exchange<T>,
    returns_value: bool,
    send_context: String,
    remote_context: String,
    decode_context: String,
) -> (r: Result<Option<T>, ClientError>)
    ensures
        match exchange_error(
            exchange,
            returns_value,
            send_context@,
            remote_context@,
            decode_context@,
        ) {
            Some(e) => r is Err && r->Err_0@ == e,
            None => r is Ok && exchange is Replied && r->Ok_0 == exchange->decoded,
        },
{
    match exchange {
        Exchange::Failed { cause } => Err(
            ClientError::Transport { context: send_context, cause },
        ),
        Exchange::Replied { status, body, decoded } => {
            if status < 200 || status > 299 {
                Err(ClientError::Remote { context: remote_context, status, body })
            } else if returns_value && (body.as_str().is_empty() || decoded.is_none()) {
                Err(ClientError::Decode { context: decode_context })
            } else {
                Ok(decoded)
            }
        },
    }
}

/// A handle on one spawner service. It holds the service's base URL, trimmed
/// of trailing slashes, and nothing else: every operation stands alone.
#[derive(Debug)]
pub struct MicrovmSpawnerClient {
    base_url: String,
}

impl Clone for MicrovmSpawnerClient {
    fn clone(&self) -> (r: Self)
        ensures
            r@ == self@,
    {
        proof {
            use_type_invariant(self);
        }
        MicrovmSpawnerClient { base_url: self.base_url.clone() }
    }
}

impl View for MicrovmSpawnerClient {
    type V = Seq<char>;

    /// The base URL that the client holds.
    closed spec fn view(&self) -> Seq<char> {
        self.base_url@
    }
}

impl MicrovmSpawnerClient {
    #[verifier::type_invariant]
    spec fn trimmed(&self) -> bool {
        trimmed_len(self.base_url@) == self.base_url@.len()
    }

    /// A client for the service at `base_url`. Every trailing `/` is dropped,
    /// so `http://h`, `http://h/` and `http://h///` give the same client. Any
    /// text is taken, the empty one too: nothing is sent or checked here.
    pub fn new(base_url: &str) -> (r: Self)
        ensures
            r@ == strip_trailing_slashes(base_url@),
            r@.len() == 0 || r@.last() != '/',
    {
        let trimmed = trim_trailing_slashes(base_url);
        proof {
            lemma_trimmed_len(base_url@);
            lemma_strip_is_trimmed(base_url@);
        }
        MicrovmSpawnerClient { base_url: trimmed }
    }

    /// The base URL, without trailing slashes.
    pub fn base_url(&self) -> (r: &str)
        ensures
            r@ == self@,
            r@.len() == 0 || r@.last() != '/',
    {
        proof {
            use_type_invariant(self);
            lemma_trimmed_len(self.base_url@);
        }
        self.base_url.as_str()
    }

    /// The call that creates a VM: a POST of the request, as JSON, to `/vms`
    /// under the base URL, to be answered within 20 seconds.
    pub fn create_vm_call(&self) -> (c: HttpCall)
        ensures
            c@ == (HttpCallView {
                method: Method::Post,
                url: collection_url(self@),
                timeout_secs: 20,
                has_json_body: true,
            }),
    {
        HttpCall {
            method: Method::Post,
            url: join(self.base_url.as_str(), "/vms"),
            timeout_secs: CREATE_VM_TIMEOUT_SECS,
            has_json_body: true,
        }
    }

    /// The call that deletes the VM `vm_id`: a DELETE of `/vms/{vm_id}` under
    /// the base URL, to be answered within 10 seconds.
    pub fn delete_vm_call(&self, vm_id: &str) -> (c: HttpCall)
        ensures
            c@ == (HttpCallView {
                method: Method::Delete,
                url: vm_url(self@, vm_id@),
                timeout_secs: 10,
                has_json_body: false,
            }),
    {
        let mut url = join(self.base_url.as_str(), "/vms/");
        url.append(vm_id);
        HttpCall {
            method: Method::Delete,
            url,
            timeout_secs: DELETE_VM_TIMEOUT_SECS,
            has_json_body: false,
        }
    }

    /// The call that queries the VM `vm_id`: a GET of `/vms/{vm_id}` under
    /// the base URL, to be answered within 2 seconds.
    pub fn get_vm_call(&self, vm_id: &str) -> (c: HttpCall)
        ensures
            c@ == (HttpCallView {
                method: Method::Get,
                url: vm_url(self@, vm_id@),
                timeout_secs: 2,
                has_json_body: false,
            }),
    {
        let mut url = join(self.base_url.as_str(), "/vms/");
        url.append(vm_id);
        HttpCall {
            method: Method::Get,
            url,
            timeout_secs: GET_VM_TIMEOUT_SECS,
            has_json_body: false,
        }
    }

    /// What creating a VM returns, given what came of the call: the decoded
    /// response with its defaults filled in, or the error of the exchange.
    pub fn create_vm(&self, exchange: Exchange<VmResponsePayload>) -> (r: Result<
        VmResponse,
        ClientError,
    >)
        ensures
            match exchange_error(
                exchange,
                true,
                "send create vm request"@,
                "failed to create vm"@,
                "decode create vm response"@,
            ) {
                Some(e) => r is Err && r->Err_0@ == e,
                None => r is Ok && r->Ok_0@ == resolve_vm_response(exchange->decoded->0@),
            },
    {
        let settled = settle(
            exchange,
            true,
            String::from_str("send create vm request"),
            String::from_str("failed to create vm"),
            String::from_str("decode create vm response"),
        );
        match settled {
            Err(e) => Err(e),
            Ok(Some(payload)) => Ok(VmResponse::from_payload(payload)),
            Ok(None) => Err(
                ClientError::Decode { context: String::from_str("decode create vm response") },
            ),
        }
    }

    /// What deleting the VM `vm_id` returns, given what came of the call:
    /// success on any status in 200..=299, whatever the body, or the error of
    /// the exchange.
    pub fn delete_vm(&self, vm_id: &str, exchange: Exchange<()>) -> (r: Result<(), ClientError>)
        ensures
            match exchange_error(
                exchange,
                false,
                "send delete vm request"@,
                "failed to delete vm "@ + vm_id@,
                Seq::<char>::empty(),
            ) {
                Some(e) => r is Err && r->Err_0@ == e,
                None => r is Ok,
            },
    {
        let settled = settle(
            exchange,
            false,
            String::from_str("send delete vm request"),
            join("failed to delete vm ", vm_id),
            String::new(),
        );
        match settled {
            Err(e) => Err(e),
            Ok(_) => Ok(()),
        }
    }

    /// What querying the VM `vm_id` returns, given what came of the call: the
    /// decoded status, or the error of the exchange.
    pub fn get_vm(&self, vm_id: &str, exchange: Exchange<VmStatus>) -> (r: Result<
        VmStatus,
        ClientError,
    >)
        ensures
            match exchange_error(
                exchange,
                true,
                "send get vm request for "@ + vm_id@,
                "failed to get vm "@ + vm_id@,
                "decode vm status response for "@ + vm_id@,
            ) {
                Some(e) => r is Err && r->Err_0@ == e,
                None => r is Ok && r->Ok_0 == exchange->decoded->0,
            },
    {
        let settled = settle(
            exchange,
            true,
            join("send get vm request for ", vm_id),
            join("failed to get vm ", vm_id),
            join("decode vm status response for ", vm_id),
        );
        match settled {
            Err(e) => Err(e),
            Ok(Some(status)) => Ok(status),
            Ok(None) => Err(
                ClientError::Decode { context: join("decode vm status response for ", vm_id) },
            ),
        }
    }
}

/// Whether `needle` occurs in `hay` as a run of consecutive characters.
pub open spec fn occurs_in(needle: Seq<char>, hay: Seq<char>) -> bool {
    exists|i: int|
        0 <= i && i + needle.len() <= hay.len() && #[trigger] hay.subrange(i, i + needle.len())
            == needle
}

/// The middle of three joined texts occurs in the whole.
pub proof fn lemma_occurs_in_joined(before: Seq<char>, needle: Seq<char>, after: Seq<char>)
    ensures
        occurs_in(needle, before + needle + after),
{
    let hay = before + needle + after;
    let i = before.len() as int;
    assert(hay.subrange(i, i + needle.len()) =~= needle);
}

/// The message of a remote error shows its context, its status in decimal
/// and the service's body, each word for word.
pub proof fn lemma_remote_message_shows(context: Seq<char>, status: u16, body: Seq<char>)
    ensures
        occurs_in(
            context,
            message_text(ClientErrorView::Remote { context, status, body }),
        ),
        occurs_in(
            decimal(status as nat),
            message_text(ClientErrorView::Remote { context, status, body }),
        ),
        occurs_in(body, message_text(ClientErrorView::Remote { context, status, body })),
{
    let m = message_text(ClientErrorView::Remote { context, status, body });
    let d = decimal(status as nat);
    let e = Seq::<char>::empty();
    assert(m =~= e + context + (": "@ + d + " "@ + body));
    lemma_occurs_in_joined(e, context, ": "@ + d + " "@ + body);
    assert(m =~= (context + ": "@) + d + (" "@ + body));
    lemma_occurs_in_joined(context + ": "@, d, " "@ + body);
    assert(m =~= (context + ": "@ + d + " "@) + body + e);
    lemma_occurs_in_joined(context + ": "@ + d + " "@, body, e);
}

/// When the service refuses to delete or to show a VM, the error's message
/// shows the VM's id, the status in decimal and the service's body.
pub proof fn lemma_refusal_names_vm(
    delete: bool,
    vm_id: Seq<char>,
    status: u16,
    body: Seq<char>,
)
    ensures
        ({
            let context = if delete {
                "failed to delete vm "@ + vm_id
            } else {
                "failed to get vm "@ + vm_id
            };
            let m = message_text(ClientErrorView::Remote { context, status, body });
            occurs_in(vm_id, m) && occurs_in(decimal(status as nat), m) && occurs_in(body, m)
        }),
{
    let lead = if delete {
        "failed to delete vm "@
    } else {
        "failed to get vm "@
    };
    let context = lead + vm_id;
    let m = message_text(ClientErrorView::Remote { context, status, body });
    lemma_remote_message_shows(context, status, body);
    let tail = ": "@ + decimal(status as nat) + " "@ + body;
    assert(m =~= lead + vm_id + tail);
    lemma_occurs_in_joined(lead, vm_id, tail);
}

/// The address that create requests go to has exactly one `/` between the
/// trimmed base and `vms`: the base itself ends in none.
pub proof fn lemma_one_slash_before_vms(base_url: Seq<char>)
    ensures
        ({
            let base = strip_trailing_slashes(base_url);
            let url = collection_url(base);
            &&& url.len() == base.len() + 4
            &&& url.subrange(0, base.len() as int) == base
            &&& url[base.len() as int] == '/'
            &&& url[base.len() as int + 1] == 'v'
            &&& base.len() > 0 ==> url[base.len() as int - 1] != '/'
        }),
{
    reveal_strlit("/vms");
    lemma_trimmed_len(base_url);
    let base = strip_trailing_slashes(base_url);
    let url = collection_url(base);
    assert(url.subrange(0, base.len() as int) =~= base);
}

/// The status decides first: a reply is a remote error exactly when its
/// status lies outside 200..=299, whatever its body holds or parses to, and
/// an exchange without a reply is always a transport error.
pub proof fn lemma_status_decides<T>(
    exchange: Exchange<T>,
    returns_value: bool,
    send_context: Seq<char>,
    remote_context: Seq<char>,
    decode_context: Seq<char>,
)
    ensures
        ({
            let e = exchange_error(
                exchange,
                returns_value,
                send_context,
                remote_context,
                decode_context,
            );
            &&& exchange is Failed <==> e is Some && e->0 is Transport
            &&& exchange is Replied && !is_success(exchange->status) <==> e is Some && e->0 is Remote
            &&& e is Some && e->0 is Remote ==> e->0->Remote_status == exchange->status
                && e->0->Remote_body == exchange->body@
            &&& !returns_value && exchange is Replied && is_success(exchange->status) ==> e is None
        }),
{
}

/// A successful reply with an empty body, to an operation that returns a
/// value, is a decode error and never a remote one.
pub proof fn lemma_empty_success_is_decode_error<T>(
    status: u16,
    body: String,
    decoded: Option<T>,
    send_context: Seq<char>,
    remote_context: Seq<char>,
    decode_context: Seq<char>,
)
    requires
        is_success(status),
        body@.len() == 0,
    ensures
        exchange_error(
            Exchange::Replied { status, body, decoded },
            true,
            send_context,
            remote_context,
            decode_context,
        ) == Some(ClientErrorView::Decode { context: decode_context }),
{
}

/// With an empty base URL the calls go to the bare paths `/vms` and
/// `/vms/{id}`: nothing is rejected when the client is made.
pub proof fn lemma_empty_base_targets_bare_paths(vm_id: Seq<char>)
    ensures
        collection_url(strip_trailing_slashes(Seq::empty())) == "/vms"@,
        vm_url(strip_trailing_slashes(Seq::empty()), vm_id) == "/vms/"@ + vm_id,
{
    let e = Seq::<char>::empty();
    assert(strip_trailing_slashes(e) =~= e);
    assert(e + "/vms"@ =~= "/vms"@);
    assert(e + "/vms/"@ + vm_id =~= "/vms/"@ + vm_id);
}

/// Trimming leaves nothing more to trim.
pub proof fn lemma_strip_is_trimmed(s: Seq<char>)
    ensures
        trimmed_len(strip_trailing_slashes(s)) == strip_trailing_slashes(s).len(),
        strip_trailing_slashes(strip_trailing_slashes(s)) == strip_trailing_slashes(s),
{
    lemma_trimmed_len(s);
    let t = strip_trailing_slashes(s);
    if t.len() > 0 {
        assert(t.last() == s[trimmed_len(s) - 1]);
    }
    assert(t.take(t.len() as int) =~= t);
}

} // verus!
