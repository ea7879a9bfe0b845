use firec::config::{Config, JailerMode, LogLevel, Stdio, StdioPolicy};
use firec::{Error, VmId};

#[test]
fn config_host_values() {
    let id = VmId::generate();
    let id_str = id.as_str().to_string();

    let config = Config::builder(Some(id), "/tmp/kernel.path")
        .jailer_cfg()
        .chroot_base_dir("/chroot")
        .exec_file("/usr/bin/firecracker")
        .mode(JailerMode::Daemon)
        .build()
        .initrd_path("/tmp/initrd.img")
        .add_drive("root", "/tmp/debian.ext4")
        .is_root_device(true)
        .build()
        .socket_path("/firecracker.socket")
        .build()
        .unwrap();

    assert_eq!(config.src_initrd_path().unwrap(), "/tmp/initrd.img");
    assert_eq!(
        config.initrd_path().unwrap().unwrap(),
        format!("/chroot/firecracker/{}/root/initrd.img", id_str)
    );

    assert_eq!(config.src_kernel_image_path(), "/tmp/kernel.path");
    assert_eq!(
        config.kernel_image_path(),
        format!("/chroot/firecracker/{}/root/kernel", id_str)
    );
    assert_eq!(config.socket_path(), "/firecracker.socket");
    assert_eq!(
        config.host_socket_path(),
        format!("/chroot/firecracker/{}/root/firecracker.socket", id_str)
    );

    let boot_source = config.boot_source().unwrap();
    assert_eq!(boot_source.boot_args, None);
    assert_eq!(boot_source.kernel_image_path, "/kernel");
    assert_eq!(boot_source.initrd_path.unwrap(), "/initrd.img");
}

#[test]
fn host_socket_path_derivation() {
    // The derived socket path is chroot base, exec file basename, vm id,
    // "root", then the guest socket path with its root stripped.
    let id = VmId::parse("00000000-0000-0000-0000-000000000001").unwrap();
    let config = Config::builder(Some(id), "/tmp/k")
        .jailer_cfg()
        .chroot_base_dir("/srv/jailer")
        .exec_file("/usr/bin/firecracker")
        .build()
        .socket_path("/run/firecracker.socket")
        .build()
        .unwrap();
    assert_eq!(
        config.host_socket_path(),
        "/srv/jailer/firecracker/00000000-0000-0000-0000-000000000001/root/run/firecracker.socket"
    );
    assert_eq!(
        config.jailer_cfg().workspace_dir(),
        "/srv/jailer/firecracker/00000000-0000-0000-0000-000000000001/root"
    );
}

#[test]
fn builder_defaults() {
    let config = Config::builder(None, "/tmp/k").jailer_cfg().build().build().unwrap();
    assert_eq!(config.socket_path(), "/run/firecracker.socket");
    assert_eq!(config.jailer_cfg().exec_file(), "/usr/bin/firecracker");
    assert_eq!(config.jailer_cfg().jailer_binary(), "jailer");
    assert_eq!(config.jailer_cfg().chroot_base_dir(), "/srv/jailer");
    assert_eq!(config.jailer_cfg().numa_node(), None);
    assert!(matches!(config.jailer_cfg().mode(), JailerMode::Attached(_)));
    assert_eq!(config.machine_cfg().vcpu_count(), 1);
    assert_eq!(config.machine_cfg().mem_size_mib(), 1024);
    assert!(!config.machine_cfg().smt());
    assert!(!config.machine_cfg().track_dirty_pages());
    assert_eq!(config.machine_cfg().cpu_template(), None);
    assert!(config.src_initrd_path().is_none());
    assert!(config.kernel_args().is_none());
    assert!(config.net_ns().is_none());
    assert!(config.vsock_cfg().is_none());
    assert_eq!(config.drives().len(), 0);
    assert_eq!(config.network_interfaces().len(), 0);
    assert_eq!(config.log_level(), None);
    // A generated id is a hyphenated lower-case UUID.
    assert_eq!(config.vm_id().as_str().len(), 36);
}

#[test]
fn builder_setters_carry_over() {
    let config = Config::builder(None, "/tmp/k")
        .log_path("/var/log/fc.log")
        .log_fifo("/var/log/fc.fifo")
        .log_level(LogLevel::Debug)
        .metrics_path("/var/log/fc.metrics")
        .metrics_fifo("/var/log/fc.metrics.fifo")
        .kernel_args("console=ttyS0")
        .net_ns("/var/run/netns/test")
        .machine_cfg()
        .vcpu_count(2)
        .mem_size_mib(2048)
        .smt(true)
        .track_dirty_pages(true)
        .cpu_template("T2")
        .build()
        .jailer_cfg()
        .uid(1000)
        .gid(1000)
        .numa_node(0)
        .jailer_binary("/usr/local/bin/jailer")
        .build()
        .build()
        .unwrap();
    assert_eq!(config.log_path(), Some("/var/log/fc.log"));
    assert_eq!(config.log_fifo(), Some("/var/log/fc.fifo"));
    assert_eq!(config.log_level(), Some(LogLevel::Debug));
    assert_eq!(config.metrics_path(), Some("/var/log/fc.metrics"));
    assert_eq!(config.metrics_fifo(), Some("/var/log/fc.metrics.fifo"));
    assert_eq!(config.kernel_args(), Some("console=ttyS0"));
    assert_eq!(config.net_ns(), Some("/var/run/netns/test"));
    assert_eq!(config.machine_cfg().vcpu_count(), 2);
    assert_eq!(config.machine_cfg().mem_size_mib(), 2048);
    assert!(config.machine_cfg().smt());
    assert!(config.machine_cfg().track_dirty_pages());
    assert_eq!(config.machine_cfg().cpu_template(), Some("T2"));
    assert_eq!(config.jailer_cfg().uid(), 1000);
    assert_eq!(config.jailer_cfg().gid(), 1000);
    assert_eq!(config.jailer_cfg().numa_node(), Some(0));
    assert_eq!(config.jailer_cfg().jailer_binary(), "/usr/local/bin/jailer");
}

#[test]
fn drive_accessors() {
    let config = Config::builder(None, "/tmp/k")
        .add_drive("data", "/tmp/data.ext4")
        .is_read_only(true)
        .part_uuid(Some("0eaa91a0-01"))
        .build()
        .build()
        .unwrap();
    let drive = &config.drives()[0];
    assert_eq!(drive.drive_id(), "data");
    assert!(drive.is_read_only());
    assert!(!drive.is_root_device());
    assert_eq!(drive.part_uuid(), Some("0eaa91a0-01"));
    assert_eq!(drive.src_path(), "/tmp/data.ext4");
}

#[test]
fn rejects_second_root_drive() {
    let result = Config::builder(None, "/tmp/k")
        .add_drive("root", "/tmp/a.ext4")
        .is_root_device(true)
        .build()
        .add_drive("other", "/tmp/b.ext4")
        .is_root_device(true)
        .build()
        .build();
    assert!(matches!(result, Err(Error::InvalidDrivePath)));
}

#[test]
fn accepts_single_root_drive_among_many() {
    let config = Config::builder(None, "/tmp/k")
        .add_drive("root", "/tmp/a.ext4")
        .is_root_device(true)
        .build()
        .add_drive("other", "/tmp/b.ext4")
        .build()
        .build()
        .unwrap();
    assert_eq!(config.drives().len(), 2);
    assert!(config.drives()[0].is_root_device());
    assert!(!config.drives()[1].is_root_device());
}

#[test]
fn rejects_exec_file_without_file_name() {
    let result = Config::builder(None, "/tmp/k")
        .jailer_cfg()
        .exec_file("/usr/bin/")
        .build()
        .build();
    assert!(matches!(result, Err(Error::InvalidJailerExecPath)));
}

#[test]
fn vsock_carries_over() {
    let config = Config::builder(None, "/tmp/k")
        .vsock_cfg(firec::config::VSock::new(3, "/run/vsock.sock"))
        .build()
        .unwrap();
    let vsock = config.vsock_cfg().unwrap();
    assert_eq!(vsock.guest_cid(), 3);
    assert_eq!(vsock.uds_path(), "/run/vsock.sock");
}

#[test]
fn interface_accessors() {
    let iface = firec::config::network::Interface::new(
        "host_if_name",
        "vm_if_name",
        Some("AA:FC:00:00:00:01"),
    );
    assert_eq!(iface.host_if_name(), "host_if_name");
    assert_eq!(iface.vm_if_name(), "vm_if_name");
    assert_eq!(iface.vm_mac_address(), Some("AA:FC:00:00:00:01"));
    let bare = firec::config::network::Interface::new("tap0", "eth0", None);
    assert_eq!(bare.vm_mac_address(), None);
}

#[test]
fn stdio_default_is_unset() {
    let stdio = Stdio::default();
    assert_eq!(stdio.stdin, None);
    assert_eq!(stdio.stdout, None);
    assert_eq!(stdio.stderr, None);
    let some = Stdio { stdin: Some(StdioPolicy::Null), ..Stdio::default() };
    assert_eq!(some.stdin, Some(StdioPolicy::Null));
}
