use ovs_unixctl::{parse_command_list, parse_version, Error, OvsUnixCtl, Received, Response};

fn pair(a: &str, b: &str) -> (String, String) {
    (a.to_string(), b.to_string())
}

fn answer(result: Option<&str>, id: usize) -> Received {
    Received::Message(Response { result: result.map(|s| s.to_string()), error: None, id: Some(id) })
}

fn open() -> OvsUnixCtl {
    OvsUnixCtl::unix("/run/ovs/ovs-vswitchd.1.ctl".to_string(), true, None).ok().unwrap()
}

#[test]
fn command_list_drops_header_and_trims() {
    let cmds = parse_command_list("Commands:\nlist-commands \nbond/list [dp]\n");
    assert_eq!(cmds, vec![pair("list-commands", ""), pair("bond/list", "[dp]")]);
}

#[test]
fn command_list_edge_cases() {
    assert_eq!(parse_command_list(""), vec![]);
    assert_eq!(parse_command_list("Commands:"), vec![]);
    assert_eq!(
        parse_command_list("Commands:\r\n  bond/show  [port]\r\n  exit\nfdb/flush [bridge] [mac]"),
        vec![pair("bond/show", "[port]"), pair("exit", ""), pair("fdb/flush", "[bridge] [mac]")]
    );
}

#[test]
fn list_commands() {
    let mut ovs = open();
    let req = ovs.list_commands_request();
    assert_eq!(req.method, "list-commands");
    let text = "The available commands are:\n  list-commands\n  dpif-netdev/bond-show     [dp]\n  version\n";
    let cmds = ovs.list_commands(&req, answer(Some(text), req.id)).unwrap();
    assert!(cmds.iter().any(|(cmd, _args)| cmd == "list-commands"));
    assert!(cmds
        .iter()
        .any(|(cmd, args)| (cmd, args) == (&"dpif-netdev/bond-show".to_string(), &"[dp]".to_string())));
}

#[test]
fn list_commands_without_result() {
    let mut ovs = open();
    let req = ovs.list_commands_request();
    match ovs.list_commands(&req, answer(None, req.id)) {
        Err(Error::OvsInvalidResponse { cmd, response, error }) => {
            assert_eq!(cmd, "list-commands");
            assert_eq!(response, "");
            assert_eq!(error, "should not be empty");
        }
        other => panic!("unexpected {:?}", other),
    }
}

#[test]
fn version_three_and_four_parts() {
    assert_eq!(parse_version("daemon (Open vSwitch) 3.2.1").unwrap(), (3, 2, 1, String::new()));
    assert_eq!(parse_version("daemon (Open vSwitch) 3.2.1-4").unwrap(), (3, 2, 1, "4".to_string()));
    assert_eq!(
        parse_version("ovs-vswitchd (Open vSwitch) 2.17.90.1-rc\n").unwrap(),
        (2, 17, 90, "1-rc".to_string())
    );
}

#[test]
fn version_without_prefix() {
    match parse_version("3.2.1") {
        Err(Error::OvsInvalidResponse { cmd, response, error }) => {
            assert_eq!(cmd, "version");
            assert_eq!(response, "3.2.1");
            assert_eq!(error, "invalid prefix");
        }
        other => panic!("unexpected {:?}", other),
    }
    assert!(matches!(parse_version("(Open vSwitch) 3.2.1"), Err(Error::OvsInvalidResponse { .. })));
}

#[test]
fn version_names_unparsable_part() {
    match parse_version("daemon (Open vSwitch) 3.x.1") {
        Err(Error::OvsInvalidResponse { error, .. }) => assert_eq!(error, "can't parse x"),
        other => panic!("unexpected {:?}", other),
    }
    match parse_version("daemon (Open vSwitch) 3.2.99999999999") {
        Err(Error::OvsInvalidResponse { error, .. }) => assert_eq!(error, "can't parse 99999999999"),
        other => panic!("unexpected {:?}", other),
    }
}

#[test]
fn version_with_too_few_parts() {
    match parse_version("daemon (Open vSwitch) 3.2") {
        Err(Error::OvsInvalidResponse { error, .. }) => assert_eq!(error, "parse error"),
        other => panic!("unexpected {:?}", other),
    }
}

#[test]
fn version() {
    let mut ovs = open();
    let req = ovs.version_request();
    assert_eq!(req.method, "version");
    let (x, y, z, _) = ovs.version(&req, answer(Some("ovs-vswitchd (Open vSwitch) 3.1.0"), req.id)).unwrap();
    assert!(x + y + z > 0);
    assert_eq!((x, y, z), (3, 1, 0));
}

#[test]
fn version_without_result() {
    let mut ovs = open();
    let req = ovs.version_request();
    match ovs.version(&req, answer(None, req.id)) {
        Err(Error::OvsInvalidResponse { cmd, error, .. }) => {
            assert_eq!(cmd, "version");
            assert_eq!(error, "should not be empty");
        }
        other => panic!("unexpected {:?}", other),
    }
}

#[test]
fn run_passes_result_through() {
    let mut ovs = open();
    assert!(ovs.can_call());
    let first = ovs.request("bond/show", &vec!["bond0".to_string()]);
    let second = ovs.request("bond/list", &vec![]);
    assert_eq!((first.id, second.id), (1, 2));
    let out = ovs.run(&second, answer(Some("bond0\n"), 2)).unwrap();
    assert_eq!(out, Some("bond0\n".to_string()));
    assert!(matches!(ovs.run(&first, answer(Some("x"), 2)), Err(Error::Protocol(_))));
}
