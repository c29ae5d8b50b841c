use ovs_unixctl::{find_socket_at, pid_file_path, rundir, Error, OvsUnixCtl};

#[test]
fn rundir_falls_back_to_default() {
    assert_eq!(rundir(None), "/var/run/openvswitch");
    assert_eq!(rundir(Some("/tmp/ovs".to_string())), "/tmp/ovs");
}

#[test]
fn pid_file_in_rundir() {
    assert_eq!(pid_file_path("ovs-vswitchd", "/var/run/openvswitch"), "/var/run/openvswitch/ovs-vswitchd.pid");
    assert_eq!(pid_file_path("northd", "/run/ovn/"), "/run/ovn/northd.pid");
}

#[test]
fn missing_pid_file_is_not_running() {
    assert!(matches!(find_socket_at("ovs-vswitchd", "/run", None), Err(Error::OvsNotRunning)));
}

#[test]
fn empty_pid_file_is_not_running() {
    assert!(matches!(
        find_socket_at("ovs-vswitchd", "/run", Some(String::new())),
        Err(Error::OvsNotRunning)
    ));
    assert!(matches!(
        find_socket_at("ovs-vswitchd", "/run", Some(" \n\t".to_string())),
        Err(Error::OvsNotRunning)
    ));
}

#[test]
fn pid_names_socket() {
    let p = find_socket_at("ovs-vswitchd", "/run/openvswitch", Some(" 1234\n".to_string())).unwrap();
    assert_eq!(p, "/run/openvswitch/ovs-vswitchd.1234.ctl");
}

#[test]
fn absent_socket_is_socket_not_found() {
    match OvsUnixCtl::with_target("ovsdb-server", "/run/ovs", Some("77\n".to_string()), false, None) {
        Err(Error::SocketNotFound(p)) => assert_eq!(p, "/run/ovs/ovsdb-server.77.ctl"),
        Err(e) => panic!("unexpected {:?}", e),
        Ok(_) => panic!("unexpected success"),
    }
    assert!(matches!(
        OvsUnixCtl::with_target("ovsdb-server", "/run/ovs", None, false, None),
        Err(Error::OvsNotRunning)
    ));
}

#[test]
fn present_socket_opens() {
    let ctl = OvsUnixCtl::new("/run/ovs", Some("99".to_string()), true, None).ok().unwrap();
    assert_eq!(ctl.socket(), "/run/ovs/ovs-vswitchd.99.ctl");
    assert_eq!(ctl.timeout_ms(), 1000);
    let ctl = OvsUnixCtl::with_target("northd", "/r", Some("5".to_string()), true, Some(2500)).ok().unwrap();
    assert_eq!(ctl.socket(), "/r/northd.5.ctl");
    assert_eq!(ctl.timeout_ms(), 2500);
}

#[test]
fn explicit_path_must_exist() {
    match OvsUnixCtl::unix("/tmp/nothing.ctl".to_string(), false, None) {
        Err(Error::SocketNotFound(p)) => assert_eq!(p, "/tmp/nothing.ctl"),
        Err(e) => panic!("unexpected {:?}", e),
        Ok(_) => panic!("unexpected success"),
    }
    let ctl = OvsUnixCtl::unix("/tmp/x.ctl".to_string(), true, Some(10)).ok().unwrap();
    assert_eq!(ctl.socket(), "/tmp/x.ctl");
    assert_eq!(ctl.timeout_ms(), 10);
}
