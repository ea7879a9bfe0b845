use firec::strutil::{dir_name, file_name, i64_to_string, path_join, strip_root, u64_to_string};
use firec::VmId;

#[test]
fn decimal_rendering() {
    assert_eq!(u64_to_string(0), "0");
    assert_eq!(u64_to_string(7), "7");
    assert_eq!(u64_to_string(10), "10");
    assert_eq!(u64_to_string(4294967295), "4294967295");
    assert_eq!(u64_to_string(18446744073709551615), "18446744073709551615");
    assert_eq!(i64_to_string(0), "0");
    assert_eq!(i64_to_string(-1), "-1");
    assert_eq!(i64_to_string(1024), "1024");
    assert_eq!(i64_to_string(i64::MIN), "-9223372036854775808");
    assert_eq!(i64_to_string(i64::MAX), "9223372036854775807");
}

#[test]
fn path_join_rules() {
    assert_eq!(path_join("/srv", "jailer"), "/srv/jailer");
    assert_eq!(path_join("/srv/", "jailer"), "/srv/jailer");
    assert_eq!(path_join("", "jailer"), "jailer");
    assert_eq!(path_join("/srv", "/abs"), "/abs");
    assert_eq!(path_join("/", "run"), "/run");
}

#[test]
fn file_name_rules() {
    assert_eq!(file_name("/tmp/k").as_deref(), Some("k"));
    assert_eq!(file_name("k").as_deref(), Some("k"));
    assert_eq!(file_name("/tmp/"), None);
    assert_eq!(file_name(""), None);
    assert_eq!(file_name(".."), None);
    assert_eq!(file_name("/a/.."), None);
    assert_eq!(file_name("."), None);
    assert_eq!(file_name("/a/b.ext4").as_deref(), Some("b.ext4"));
}

#[test]
fn dir_name_rules() {
    assert_eq!(dir_name("/a/b").as_deref(), Some("/a"));
    assert_eq!(dir_name("/a").as_deref(), Some("/"));
    assert_eq!(dir_name("a/b/c").as_deref(), Some("a/b"));
    assert_eq!(dir_name("plain"), None);
}

#[test]
fn strip_root_rules() {
    assert_eq!(strip_root("/run/fc.sock"), "run/fc.sock");
    assert_eq!(strip_root("run/fc.sock"), "run/fc.sock");
    assert_eq!(strip_root(""), "");
    assert_eq!(strip_root("/"), "");
}

#[test]
fn vm_id_parsing() {
    let id = VmId::parse("00000000-0000-0000-0000-000000000001").unwrap();
    assert_eq!(id.as_str(), "00000000-0000-0000-0000-000000000001");
    assert!(VmId::parse("not-a-uuid").is_none());
    assert!(VmId::parse("00000000-0000-0000-0000-00000000000").is_none());
    assert!(VmId::parse("00000000-0000-0000-0000-0000000000012").is_none());
    assert!(VmId::parse("0000000000000-0000-0000-000000000001").is_none());
    // Upper case is not the canonical form.
    assert!(VmId::parse("00000000-0000-0000-0000-00000000000A").is_none());
}

#[test]
fn vm_id_generation_is_canonical() {
    let id = VmId::generate();
    let s = id.as_str().to_string();
    assert_eq!(s.len(), 36);
    // The generated form parses back as a canonical id — this would fail
    // if generation handed back anything but a hyphenated lower-case UUID.
    assert!(VmId::parse(&s).is_some());
    // Two generated ids differ (version-4 ids collide with negligible
    // probability).
    let other = VmId::generate();
    assert_ne!(s, other.as_str().to_string());
}
