use firec::api::{
    Action, HttpMethod, action_body, interpret_response, machine_config_body, shutdown_request,
    version_request,
};
use firec::config::Config;
use firec::{Error, VmId};

fn sample_id() -> VmId {
    VmId::parse("00000000-0000-0000-0000-000000000001").unwrap()
}

#[test]
fn machine_config_payload_defaults() {
    let config = Config::builder(Some(sample_id()), "/tmp/k").build().unwrap();
    assert_eq!(
        machine_config_body(config.machine_cfg()),
        "{\"smt\":false,\"track_dirty_pages\":false,\"mem_size_mib\":1024,\"vcpu_count\":1}"
    );
}

#[test]
fn machine_config_payload_full() {
    let config = Config::builder(Some(sample_id()), "/tmp/k")
        .machine_cfg()
        .smt(true)
        .track_dirty_pages(true)
        .mem_size_mib(-5)
        .vcpu_count(32)
        .cpu_template("C3")
        .build()
        .build()
        .unwrap();
    assert_eq!(
        machine_config_body(config.machine_cfg()),
        "{\"smt\":true,\"track_dirty_pages\":true,\"mem_size_mib\":-5,\"vcpu_count\":32,\"cpu_template\":\"C3\"}"
    );
}

#[test]
fn action_payloads() {
    assert_eq!(action_body(Action::InstanceStart), "{\"action_type\":\"InstanceStart\"}");
    assert_eq!(action_body(Action::SendCtrlAltDel), "{\"action_type\":\"SendCtrlAltDel\"}");
    assert_eq!(action_body(Action::FlushMetrics), "{\"action_type\":\"FlushMetrics\"}");
}

#[test]
fn version_probe_request() {
    let req = version_request();
    assert_eq!(req.method(), HttpMethod::Get);
    assert_eq!(req.path(), "/version");
    assert_eq!(req.body(), "");
}

#[test]
fn shutdown_is_one_ctrl_alt_del_request() {
    let req = shutdown_request();
    assert_eq!(req.method(), HttpMethod::Put);
    assert_eq!(req.path(), "/actions");
    assert_eq!(req.body(), "{\"action_type\":\"SendCtrlAltDel\"}");
}

#[test]
fn start_request_sequence() {
    // The happy-path scenario: one root drive, one interface, defaults
    // elsewhere. The mock-facing order is machine-config, boot-source,
    // drives, network-interfaces, actions.
    let iface = firec::config::network::Interface::new("tap0", "eth0", None);
    let config = Config::builder(Some(sample_id()), "/tmp/k")
        .add_drive("root", "/tmp/r.ext4")
        .is_root_device(true)
        .build()
        .add_network_interface(iface)
        .build()
        .unwrap();
    let reqs = firec::api::start_requests(&config).unwrap();
    let paths: Vec<&str> = reqs.iter().map(|r| r.path()).collect();
    assert_eq!(
        paths,
        vec![
            "/machine-config",
            "/boot-source",
            "/drives/root",
            "/network-interfaces/eth0",
            "/actions",
        ]
    );
    for req in reqs.iter() {
        assert_eq!(req.method(), HttpMethod::Put);
    }
    assert_eq!(
        reqs[1].body(),
        "{\"kernel_image_path\":\"/kernel\",\"boot_args\":null}"
    );
    assert_eq!(
        reqs[2].body(),
        "{\"drive_id\":\"root\",\"is_read_only\":false,\"is_root_device\":true,\"path_on_host\":\"r.ext4\"}"
    );
    assert_eq!(reqs[3].body(), "{\"host_dev_name\":\"tap0\",\"iface_id\":\"eth0\"}");
    assert_eq!(reqs[4].body(), "{\"action_type\":\"InstanceStart\"}");
}

#[test]
fn start_request_sequence_with_everything() {
    let iface = firec::config::network::Interface::new("tap0", "eth0", None);
    let second = firec::config::network::Interface::new("tap1", "eth1", None);
    let config = Config::builder(Some(sample_id()), "/tmp/k")
        .initrd_path("/tmp/initrd.img")
        .kernel_args("console=ttyS0")
        .add_drive("root", "/tmp/r.ext4")
        .is_root_device(true)
        .build()
        .add_drive("data", "/tmp/d.ext4")
        .part_uuid(Some("0eaa91a0-01"))
        .build()
        .add_network_interface(iface)
        .add_network_interface(second)
        .vsock_cfg(firec::config::VSock::new(3, "/run/v.sock"))
        .build()
        .unwrap();
    let reqs = firec::api::start_requests(&config).unwrap();
    let paths: Vec<&str> = reqs.iter().map(|r| r.path()).collect();
    // Drives keep insertion order; only the first interface is sent.
    assert_eq!(
        paths,
        vec![
            "/machine-config",
            "/boot-source",
            "/drives/root",
            "/drives/data",
            "/network-interfaces/eth0",
            "/vsock",
            "/actions",
        ]
    );
    assert_eq!(
        reqs[1].body(),
        "{\"kernel_image_path\":\"/kernel\",\"boot_args\":\"console=ttyS0\",\"initrd_path\":\"/initrd.img\"}"
    );
    assert_eq!(
        reqs[3].body(),
        "{\"drive_id\":\"data\",\"is_read_only\":false,\"is_root_device\":false,\"part_uuid\":\"0eaa91a0-01\",\"path_on_host\":\"d.ext4\"}"
    );
    assert_eq!(reqs[5].body(), "{\"guest_cid\":3,\"uds_path\":\"/run/v.sock\"}");
}

#[test]
fn drive_id_is_json_escaped() {
    let config = Config::builder(Some(sample_id()), "/tmp/k")
        .add_drive("we\"ird\\id\n", "/tmp/r.ext4")
        .build()
        .build()
        .unwrap();
    let reqs = firec::api::start_requests(&config).unwrap();
    assert_eq!(
        reqs[2].body(),
        "{\"drive_id\":\"we\\\"ird\\\\id\\n\",\"is_read_only\":false,\"is_root_device\":false,\"path_on_host\":\"r.ext4\"}"
    );
}

#[test]
fn control_characters_get_hex_escapes() {
    let config = Config::builder(Some(sample_id()), "/tmp/k")
        .kernel_args("a\u{1}b\u{1f}c")
        .build()
        .unwrap();
    let reqs = firec::api::start_requests(&config).unwrap();
    assert_eq!(
        reqs[1].body(),
        "{\"kernel_image_path\":\"/kernel\",\"boot_args\":\"a\\u0001b\\u001fc\"}"
    );
}

#[test]
fn interpret_response_success_range() {
    assert!(interpret_response(200, None).is_ok());
    assert!(interpret_response(204, None).is_ok());
    assert!(interpret_response(299, None).is_ok());
    assert!(interpret_response(199, None).is_err());
    assert!(interpret_response(300, None).is_err());
}

#[test]
fn interpret_response_carries_status_and_body() {
    let err = interpret_response(400, Some("boot source is invalid".to_string())).unwrap_err();
    match err {
        Error::FirecrackerAPIError { status, body } => {
            assert_eq!(status, 400);
            assert_eq!(body.as_deref(), Some("boot source is invalid"));
        }
        other => panic!("wrong error kind: {:?}", other),
    }
    let bare = interpret_response(500, None).unwrap_err();
    match bare {
        Error::FirecrackerAPIError { status, body } => {
            assert_eq!(status, 500);
            assert_eq!(body, None);
        }
        other => panic!("wrong error kind: {:?}", other),
    }
}

#[test]
fn initrd_without_file_name_fails_sequence() {
    let config = Config::builder(Some(sample_id()), "/tmp/k")
        .initrd_path("/tmp/")
        .build()
        .unwrap();
    assert!(matches!(
        firec::api::start_requests(&config),
        Err(Error::InvalidInitrdPath)
    ));
}

#[test]
fn drive_without_file_name_fails_sequence() {
    let config = Config::builder(Some(sample_id()), "/tmp/k")
        .add_drive("root", "/tmp/..")
        .build()
        .build()
        .unwrap();
    assert!(matches!(
        firec::api::start_requests(&config),
        Err(Error::InvalidDrivePath)
    ));
}

#[test]
fn error_messages() {
    assert_eq!(
        Error::Io("broken pipe".to_string()).message(),
        "IO error: broken pipe"
    );
    assert_eq!(Error::Json("oops".to_string()).message(), "JSON error: oops");
    assert_eq!(
        Error::InvalidJailerExecPath.message(),
        "Invalid Jailer executable path specified"
    );
    assert_eq!(Error::InvalidInitrdPath.message(), "Invalid initrd path specified");
    assert_eq!(Error::InvalidSocketPath.message(), "Invalid socket path specified");
    assert_eq!(Error::InvalidDrivePath.message(), "Invalid drive path specified");
    assert_eq!(
        Error::InvalidChrootBasePath.message(),
        "Invalid chroot base path specified"
    );
    assert_eq!(
        Error::FirecrackerAPIError { status: 400, body: Some("no".to_string()) }.message(),
        "Firecracker API call failed with status=400, body=no"
    );
    assert_eq!(
        Error::FirecrackerAPIError { status: 500, body: None }.message(),
        "Firecracker API call failed with status=500"
    );
    assert_eq!(Error::JailerStartTimedOut.message(), "Jailer start timed out");
    assert_eq!(Error::FailedToStart.message(), "Failed to start the VM");
    assert_eq!(Error::ProcessAlreadyRunning.message(), "Process already running");
    assert_eq!(Error::ProcessNotStarted.message(), "Process not started");
    assert_eq!(
        Error::ProcessNotRunning(42).message(),
        "Process not running for pid: 42"
    );
    assert_eq!(
        Error::ProcessNotKilled(42).message(),
        "Process not killed for pid: 42"
    );
    assert_eq!(
        Error::ProcessExitedImmediatelly { exit_status: -1 }.message(),
        "Process exited immediatelly with status: -1"
    );
}
