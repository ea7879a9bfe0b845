//! The control API surface: the wire payloads the VMM accepts, the
//! requests the library issues, and how answers are read.
//!
//! All requests are `PUT`s except the readiness probe `GET /version`;
//! payloads are compact JSON. Every request carries the headers
//! `Accept: application/json` and `Content-Type: application/json`; the
//! transport that performs a request is expected to set them.

use vstd::prelude::*;

use crate::config::{
    BootSource, Config, ConfigView, Drive, DriveView, MachineView, VSockView, opt_str_view,
};
use crate::config::network::{Interface, InterfaceView};
use crate::config::Machine;
use crate::config::VSock;
use crate::error::Error;
use crate::json::{
    append_json_bool, append_json_string, spec_json_bool, spec_json_string,
};
use crate::strutil::{file_name, i64_to_string, spec_file_name, spec_idec, spec_path_join,
    spec_udec, u64_to_string};

verus! {

/// The HTTP method of a control API request.
#[derive(Debug, Clone, Copy, PartialEq, Eq, Structural)]
pub enum HttpMethod {
    /// An idempotent read.
    Get,
    /// A configuration write or an action.
    Put,
}

/// The mathematical content of an [`ApiRequest`].
pub struct ApiRequestView {
    /// The HTTP method.
    pub method: HttpMethod,
    /// The request path below the socket root.
    pub path: Seq<char>,
    /// The request body.
    pub body: Seq<char>,
}

/// One request against the VMM's control socket.
#[derive(Debug)]
pub struct ApiRequest {
    method: HttpMethod,
    path: String,
    body: String,
}

impl View for ApiRequest {
    type V = ApiRequestView;

    closed spec fn view(&self) -> ApiRequestView {
        ApiRequestView { method: self.method, path: self.path@, body: self.body@ }
    }
}

impl ApiRequest {
    /// The HTTP method.
    pub fn method(&self) -> (r: HttpMethod)
        ensures
            r == self@.method,
    {
        self.method
    }

    /// The request path below the socket root.
    pub fn path(&self) -> (r: &str)
        ensures
            r@ == self@.path,
    {
        self.path.as_str()
    }

    /// The request body.
    pub fn body(&self) -> (r: &str)
        ensures
            r@ == self@.body,
    {
        self.body.as_str()
    }
}

/// The views of a sequence of requests.
pub open spec fn req_views(qs: Seq<ApiRequest>) -> Seq<ApiRequestView> {
    qs.map_values(|q: ApiRequest| q@)
}

/// An action the VMM can be told to take.
#[derive(Debug, Clone, Copy, PartialEq, Eq, Structural)]
pub enum Action {
    /// Boot the configured VM.
    InstanceStart,
    /// Press Ctrl+Alt+Del on the virtual keyboard.
    SendCtrlAltDel,
    /// Flush the metrics.
    FlushMetrics,
}

/// The `/actions` payload for an action.
pub open spec fn spec_action_body(a: Action) -> Seq<char> {
    match a {
        Action::InstanceStart => "{\"action_type\":\"InstanceStart\"}"@,
        Action::SendCtrlAltDel => "{\"action_type\":\"SendCtrlAltDel\"}"@,
        Action::FlushMetrics => "{\"action_type\":\"FlushMetrics\"}"@,
    }
}

/// Renders the `/actions` payload for an action.
pub fn action_body(a: Action) -> (r: String)
    ensures
        r@ == spec_action_body(a),
{
    match a {
        Action::InstanceStart => "{\"action_type\":\"InstanceStart\"}".to_owned(),
        Action::SendCtrlAltDel => "{\"action_type\":\"SendCtrlAltDel\"}".to_owned(),
        Action::FlushMetrics => "{\"action_type\":\"FlushMetrics\"}".to_owned(),
    }
}

/// The `/machine-config` payload.
pub open spec fn spec_machine_config_body(m: MachineView) -> Seq<char> {
    "{\"smt\":"@ + spec_json_bool(m.smt) + ",\"track_dirty_pages\":"@ + spec_json_bool(
        m.track_dirty_pages,
    ) + ",\"mem_size_mib\":"@ + spec_idec(m.mem_size_mib as int) + ",\"vcpu_count\":"@
        + spec_udec(m.vcpu_count as nat) + (match m.cpu_template {
        Some(t) => ",\"cpu_template\":"@ + spec_json_string(t),
        None => Seq::empty(),
    }) + "}"@
}

/// Renders the `/machine-config` payload.
pub fn machine_config_body(m: &Machine) -> (r: String)
    ensures
        r@ == spec_machine_config_body(m@),
{
    let mut s = "{\"smt\":".to_owned();
    append_json_bool(&mut s, m.smt());
    s.append(",\"track_dirty_pages\":");
    append_json_bool(&mut s, m.track_dirty_pages());
    s.append(",\"mem_size_mib\":");
    let mem = i64_to_string(m.mem_size_mib());
    s.append(mem.as_str());
    s.append(",\"vcpu_count\":");
    let vc = u64_to_string(m.vcpu_count() as u64);
    s.append(vc.as_str());
    match m.cpu_template() {
        Some(t) => {
            s.append(",\"cpu_template\":");
            append_json_string(&mut s, t);
        },
        None => {},
    }
    s.append("}");
    proof {
        assert(s@ =~= spec_machine_config_body(m@));
    }
    s
}

/// The `/boot-source` payload: guest-visible kernel path, kernel command
/// line (`null` when absent), and the guest-visible initrd path, left out
/// when absent.
pub open spec fn spec_boot_source_body(
    kernel_image_path: Seq<char>,
    boot_args: Option<Seq<char>>,
    initrd_path: Option<Seq<char>>,
) -> Seq<char> {
    "{\"kernel_image_path\":"@ + spec_json_string(kernel_image_path) + ",\"boot_args\":"@ + (
    match boot_args {
        Some(a) => spec_json_string(a),
        None => "null"@,
    }) + (match initrd_path {
        Some(p) => ",\"initrd_path\":"@ + spec_json_string(p),
        None => Seq::empty(),
    }) + "}"@
}

/// Renders the `/boot-source` payload.
pub fn boot_source_body(b: &BootSource) -> (r: String)
    ensures
        r@ == spec_boot_source_body(
            b.kernel_image_path@,
            opt_str_view(b.boot_args),
            opt_str_view(b.initrd_path),
        ),
{
    let mut s = "{\"kernel_image_path\":".to_owned();
    append_json_string(&mut s, b.kernel_image_path.as_str());
    s.append(",\"boot_args\":");
    match &b.boot_args {
        Some(a) => append_json_string(&mut s, a.as_str()),
        None => s.append("null"),
    }
    match &b.initrd_path {
        Some(p) => {
            s.append(",\"initrd_path\":");
            append_json_string(&mut s, p.as_str());
        },
        None => {},
    }
    s.append("}");
    proof {
        assert(s@ =~= spec_boot_source_body(
            b.kernel_image_path@,
            opt_str_view(b.boot_args),
            opt_str_view(b.initrd_path),
        ));
    }
    s
}

/// The `/drives/<id>` payload. `path_on_host` is the drive image's file
/// name: inside the jail the image lives at its bare name.
pub open spec fn spec_drive_body(d: DriveView, path_on_host: Seq<char>) -> Seq<char> {
    "{\"drive_id\":"@ + spec_json_string(d.drive_id) + ",\"is_read_only\":"@ + spec_json_bool(
        d.is_read_only,
    ) + ",\"is_root_device\":"@ + spec_json_bool(d.is_root_device) + (match d.part_uuid {
        Some(u) => ",\"part_uuid\":"@ + spec_json_string(u),
        None => Seq::empty(),
    }) + ",\"path_on_host\":"@ + spec_json_string(path_on_host) + "}"@
}

/// Renders the `/drives/<id>` payload.
pub fn drive_body(d: &Drive, path_on_host: &str) -> (r: String)
    ensures
        r@ == spec_drive_body(d@, path_on_host@),
{
    let mut s = "{\"drive_id\":".to_owned();
    append_json_string(&mut s, d.drive_id());
    s.append(",\"is_read_only\":");
    append_json_bool(&mut s, d.is_read_only());
    s.append(",\"is_root_device\":");
    append_json_bool(&mut s, d.is_root_device());
    match d.part_uuid() {
        Some(u) => {
            s.append(",\"part_uuid\":");
            append_json_string(&mut s, u);
        },
        None => {},
    }
    s.append(",\"path_on_host\":");
    append_json_string(&mut s, path_on_host);
    s.append("}");
    proof {
        assert(s@ =~= spec_drive_body(d@, path_on_host@));
    }
    s
}

/// The `/network-interfaces/<id>` payload: the interface id and the host
/// device name, in that key order.
pub open spec fn spec_network_body(n: InterfaceView) -> Seq<char> {
    "{\"host_dev_name\":"@ + spec_json_string(n.host_if_name) + ",\"iface_id\":"@
        + spec_json_string(n.vm_if_name) + "}"@
}

/// Renders the `/network-interfaces/<id>` payload.
pub fn network_body(n: &Interface) -> (r: String)
    ensures
        r@ == spec_network_body(n@),
{
    let mut s = "{\"host_dev_name\":".to_owned();
    append_json_string(&mut s, n.host_if_name());
    s.append(",\"iface_id\":");
    append_json_string(&mut s, n.vm_if_name());
    s.append("}");
    proof {
        assert(s@ =~= spec_network_body(n@));
    }
    s
}

/// The `/vsock` payload.
pub open spec fn spec_vsock_body(v: VSockView) -> Seq<char> {
    "{\"guest_cid\":"@ + spec_udec(v.guest_cid as nat) + ",\"uds_path\":"@ + spec_json_string(
        v.uds_path,
    ) + "}"@
}

/// Renders the `/vsock` payload.
pub fn vsock_body(v: &VSock) -> (r: String)
    ensures
        r@ == spec_vsock_body(v@),
{
    let mut s = "{\"guest_cid\":".to_owned();
    let cid = u64_to_string(v.guest_cid() as u64);
    s.append(cid.as_str());
    s.append(",\"uds_path\":");
    append_json_string(&mut s, v.uds_path());
    s.append("}");
    proof {
        assert(s@ =~= spec_vsock_body(v@));
    }
    s
}

/// The readiness probe.
pub open spec fn spec_version_request() -> ApiRequestView {
    ApiRequestView { method: HttpMethod::Get, path: "/version"@, body: Seq::empty() }
}

/// The request that probes whether the control socket answers yet.
pub fn version_request() -> (r: ApiRequest)
    ensures
        r@ == spec_version_request(),
{
    ApiRequest { method: HttpMethod::Get, path: "/version".to_owned(), body: String::new() }
}

/// The polite shutdown request: Ctrl+Alt+Del on the virtual keyboard.
pub open spec fn spec_shutdown_request() -> ApiRequestView {
    ApiRequestView {
        method: HttpMethod::Put,
        path: "/actions"@,
        body: spec_action_body(Action::SendCtrlAltDel),
    }
}

/// Builds the polite shutdown request, the one request a shutdown sends.
pub fn shutdown_request() -> (r: ApiRequest)
    ensures
        r@ == spec_shutdown_request(),
{
    ApiRequest {
        method: HttpMethod::Put,
        path: "/actions".to_owned(),
        body: action_body(Action::SendCtrlAltDel),
    }
}

/// How an answer from the control socket is read: any `2xx` status is
/// success, anything else fails with the status and the answer's body.
pub fn interpret_response(status: u16, body: Option<String>) -> (r: Result<(), Error>)
    ensures
        (r is Ok) == (200 <= status < 300),
        r matches Err(e) ==> e matches Error::FirecrackerAPIError { status: s, body: b }
            && s == status && opt_str_view(b) == opt_str_view(body),
{
    if 200 <= status && status < 300 {
        Ok(())
    } else {
        Err(Error::FirecrackerAPIError { status, body })
    }
}

/// Whether the configured initrd path, if any, has a file name.
pub open spec fn spec_initrd_ok(c: ConfigView) -> bool {
    !(c.src_initrd_path is Some && spec_file_name(c.src_initrd_path->Some_0) is None)
}

/// Whether every drive's source path has a file name.
pub open spec fn spec_drives_ok(ds: Seq<DriveView>) -> bool {
    forall|i: int| 0 <= i < ds.len() ==> spec_file_name(#[trigger] ds[i].src_path) is Some
}

/// The guest-visible initrd path: the initrd's file name rooted at `/`.
pub open spec fn spec_guest_initrd(c: ConfigView) -> Option<Seq<char>> {
    match c.src_initrd_path {
        Some(p) => Some(spec_path_join("/"@, spec_file_name(p)->Some_0)),
        None => None,
    }
}

/// The configuration request for one drive.
pub open spec fn spec_drive_request(d: DriveView) -> ApiRequestView {
    ApiRequestView {
        method: HttpMethod::Put,
        path: "/drives/"@ + d.drive_id,
        body: spec_drive_body(d, spec_file_name(d.src_path)->Some_0),
    }
}

/// The configuration request for the first network interface, if any.
/// Only the first interface is transmitted: the builder accepts several,
/// but the later ones are not sent to the VMM yet.
pub open spec fn spec_network_requests(ifaces: Seq<InterfaceView>) -> Seq<ApiRequestView> {
    if ifaces.len() == 0 {
        Seq::empty()
    } else {
        seq![
            ApiRequestView {
                method: HttpMethod::Put,
                path: "/network-interfaces/"@ + ifaces[0].vm_if_name,
                body: spec_network_body(ifaces[0]),
            },
        ]
    }
}

/// The vsock configuration request, if a vsock is configured.
pub open spec fn spec_vsock_requests(v: Option<VSockView>) -> Seq<ApiRequestView> {
    match v {
        Some(vs) => seq![
            ApiRequestView {
                method: HttpMethod::Put,
                path: "/vsock"@,
                body: spec_vsock_body(vs),
            },
        ],
        None => Seq::empty(),
    }
}

/// The ordered request sequence that takes a freshly started VMM to a
/// booted one: machine config, boot source, the drives in insertion order,
/// the first network interface, the vsock if one is set, and the boot
/// action, strictly in that order.
pub open spec fn spec_start_requests(c: ConfigView) -> Seq<ApiRequestView> {
    seq![
        ApiRequestView {
            method: HttpMethod::Put,
            path: "/machine-config"@,
            body: spec_machine_config_body(c.machine_cfg),
        },
        ApiRequestView {
            method: HttpMethod::Put,
            path: "/boot-source"@,
            body: spec_boot_source_body("/kernel"@, c.kernel_args, spec_guest_initrd(c)),
        },
    ] + c.drives.map_values(|d: DriveView| spec_drive_request(d)) + spec_network_requests(
        c.network_interfaces,
    ) + spec_vsock_requests(c.vsock) + seq![
        ApiRequestView {
            method: HttpMethod::Put,
            path: "/actions"@,
            body: spec_action_body(Action::InstanceStart),
        },
    ]
}

/// Builds the request sequence of [`spec_start_requests`] for a
/// configuration. Fails with `InvalidInitrdPath` or `InvalidDrivePath`
/// when the initrd or a drive source path has no file name to carry into
/// the jail.
#[verifier::loop_isolation(false)]
pub fn start_requests(config: &Config) -> (r: Result<Vec<ApiRequest>, Error>)
    ensures
        (r is Ok) == (spec_initrd_ok(config@) && spec_drives_ok(config@.drives)),
        r matches Ok(reqs) ==> req_views(reqs@) == spec_start_requests(config@),
        !spec_initrd_ok(config@) ==> r == Err::<Vec<ApiRequest>, Error>(Error::InvalidInitrdPath),
        (spec_initrd_ok(config@) && !spec_drives_ok(config@.drives)) ==> r == Err::<
            Vec<ApiRequest>,
            Error,
        >(Error::InvalidDrivePath),
{
    let bs = match config.boot_source() {
        Ok(b) => b,
        Err(_) => {
            return Err(Error::InvalidInitrdPath);
        },
    };
    let mut reqs: Vec<ApiRequest> = Vec::new();
    reqs.push(
        ApiRequest {
            method: HttpMethod::Put,
            path: "/machine-config".to_owned(),
            body: machine_config_body(config.machine_cfg()),
        },
    );
    reqs.push(
        ApiRequest {
            method: HttpMethod::Put,
            path: "/boot-source".to_owned(),
            body: boot_source_body(&bs),
        },
    );
    let ghost head = req_views(reqs@);
    proof {
        assert(head =~= spec_start_requests(config@).take(2));
        assert(head[1].body == spec_boot_source_body(
            "/kernel"@,
            config@.kernel_args,
            spec_guest_initrd(config@),
        ));
    }
    let drives = config.drives();
    let n = drives.len();
    let mut i: usize = 0;
    while i < n
        invariant
            i <= n,
            req_views(reqs@) == head + config@.drives.take(i as int).map_values(
                |d: DriveView| spec_drive_request(d),
            ),
            spec_drives_ok(config@.drives.take(i as int)),
        decreases n - i,
    {
        let d = &drives[i];
        let base = match file_name(d.src_path()) {
            Some(b) => b,
            None => {
                proof {
                    assert(config@.drives[i as int].src_path == d@.src_path);
                    assert(!spec_drives_ok(config@.drives));
                }
                return Err(Error::InvalidDrivePath);
            },
        };
        let mut path = "/drives/".to_owned();
        path.append(d.drive_id());
        let body = drive_body(d, base.as_str());
        let ghost before = reqs@;
        reqs.push(ApiRequest { method: HttpMethod::Put, path, body });
        proof {
            assert(d@ == config@.drives[i as int]);
            assert(reqs@.last()@ == spec_drive_request(config@.drives[i as int]));
            assert(req_views(reqs@) =~= req_views(before).push(reqs@.last()@));
            let prev = config@.drives.take(i as int).map_values(|d: DriveView| spec_drive_request(d));
            let cur = config@.drives.take(i + 1 as int).map_values(
                |d: DriveView| spec_drive_request(d),
            );
            assert(cur =~= prev.push(spec_drive_request(config@.drives[i as int])));
            assert(req_views(reqs@) =~= head + cur);
            assert(spec_drives_ok(config@.drives.take(i + 1 as int)));
        }
        i = i + 1;
    }
    proof {
        assert(config@.drives.take(n as int) =~= config@.drives);
    }
    let ghost with_drives = req_views(reqs@);
    let ifaces = config.network_interfaces();
    if ifaces.len() > 0 {
        let nif = &ifaces[0];
        let mut path = "/network-interfaces/".to_owned();
        path.append(nif.vm_if_name());
        let body = network_body(nif);
        let ghost before = reqs@;
        reqs.push(ApiRequest { method: HttpMethod::Put, path, body });
        proof {
            assert(nif@ == config@.network_interfaces[0]);
            assert(req_views(reqs@) =~= req_views(before).push(reqs@.last()@));
        }
    }
    let ghost with_net = req_views(reqs@);
    proof {
        assert(with_net =~= with_drives + spec_network_requests(config@.network_interfaces));
    }
    match config.vsock_cfg() {
        Some(v) => {
            let body = vsock_body(v);
            let ghost before = reqs@;
            reqs.push(ApiRequest { method: HttpMethod::Put, path: "/vsock".to_owned(), body });
            proof {
                assert(req_views(reqs@) =~= req_views(before).push(reqs@.last()@));
            }
        },
        None => {},
    }
    let ghost with_vsock = req_views(reqs@);
    proof {
        assert(with_vsock =~= with_net + spec_vsock_requests(config@.vsock));
    }
    let ghost before_action = reqs@;
    reqs.push(
        ApiRequest {
            method: HttpMethod::Put,
            path: "/actions".to_owned(),
            body: action_body(Action::InstanceStart),
        },
    );
    proof {
        assert(req_views(reqs@) =~= req_views(before_action).push(reqs@.last()@));
        assert(req_views(reqs@) =~= spec_start_requests(config@));
    }
    Ok(reqs)
}

} // verus!
