use cache_reg::addr::{IfAddr, IpAddr, Ipv4Addr};
use cache_reg::registrar::{
    probe_outcome, sleep_interval_ms, CycleAction, Options, Registrar, StartupError, CACHE_PORT,
};

fn options_eth0() -> Options {
    Options {
        verbose: false,
        broadcast: None,
        interface: vec![IfAddr::V4 {
            addr: Ipv4Addr::from_octets(10, 0, 0, 5),
            mask: Ipv4Addr::from_octets(255, 255, 255, 0),
        }],
        addcache: None,
        timeout_secs: 2,
        ttl_text: String::from("60"),
        ttl_secs: 60,
        checkfile: None,
        identifier: Some(String::from("host.example.com")),
        setupname: Some(String::from("main")),
    }
}

#[test]
fn cache_port_is_fixed() {
    assert_eq!(CACHE_PORT, 14869);
}

#[test]
fn sleep_interval_values() {
    assert_eq!(sleep_interval_ms(60), 58000);
    assert_eq!(sleep_interval_ms(1), 0);
    assert_eq!(sleep_interval_ms(2), 0);
    assert_eq!(sleep_interval_ms(0), 0);
    assert_eq!(sleep_interval_ms(3), 1000);
}

#[test]
fn prepare_without_ipv4_fails() {
    let mut opts = options_eth0();
    opts.interface = vec![IfAddr::Other];
    let err = Registrar::prepare(&opts, "host.example.com").err().unwrap();
    assert_eq!(err, StartupError::NoAddressFound);
    assert_eq!(err.message(), "no IP address found for this interface");
}

#[test]
fn prepare_resolves_and_computes_broadcast() {
    let opts = options_eth0();
    let setup = Registrar::prepare(&opts, "host.example.com").ok().unwrap();
    assert_eq!(setup.local_ip.octets(), (10, 0, 0, 5));
    assert_eq!(setup.netmask.octets(), (255, 255, 255, 0));
    assert_eq!(setup.broadcast.octets(), (10, 0, 0, 255));
    assert_eq!(setup.timeout_ms, 2000);
    assert_eq!(setup.heartbeat_msg, "+60@se/host.example.com/nicos/setupname='main'\n");
    assert_eq!(
        setup.query_msg,
        "+60@se/host.example.com/nicos/setupname='main'\n+60@se/host.example.com/nicos/setupname?\n"
    );
}

#[test]
fn prepare_prefers_explicit_broadcast() {
    let mut opts = options_eth0();
    opts.broadcast = Some(Ipv4Addr::from_octets(10, 0, 0, 127));
    let setup = Registrar::prepare(&opts, "host.example.com").ok().unwrap();
    assert_eq!(setup.broadcast.octets(), (10, 0, 0, 127));
}

#[test]
fn registration_msgs_default_to_fqdn_and_short_name() {
    let mut opts = options_eth0();
    opts.identifier = None;
    opts.setupname = None;
    let (query, heartbeat) = Registrar::registration_msgs(&opts, "host.example.com");
    assert_eq!(heartbeat, "+60@se/host.example.com/nicos/setupname='host'\n");
    assert_eq!(
        query,
        "+60@se/host.example.com/nicos/setupname='host'\n+60@se/host.example.com/nicos/setupname?\n"
    );
}

#[test]
fn probe_reply_sender_is_the_result() {
    let sender = Ipv4Addr::from_octets(10, 0, 0, 23);
    assert_eq!(probe_outcome(true, Some(IpAddr::V4(sender))), Some(sender));
}

#[test]
fn probe_without_reply_or_send_yields_none() {
    assert_eq!(probe_outcome(true, None), None);
    assert_eq!(probe_outcome(false, None), None);
}

#[test]
fn probed_address_is_sole_primary_target() {
    let opts = options_eth0();
    let setup = Registrar::prepare(&opts, "host.example.com").ok().unwrap();
    let broadcast = setup.broadcast;
    let sender = Ipv4Addr::from_octets(10, 0, 0, 23);
    let reg = Registrar::new(options_eth0(), setup, Some(sender), None);
    assert_eq!(reg.targets().as_slice(), &[sender]);
    assert!(!reg.targets().contains(&broadcast));
}

#[test]
fn broadcast_is_primary_target_without_reply() {
    let opts = options_eth0();
    let setup = Registrar::prepare(&opts, "host.example.com").ok().unwrap();
    let broadcast = setup.broadcast;
    let reg = Registrar::new(options_eth0(), setup, None, None);
    assert_eq!(reg.targets().as_slice(), &[broadcast]);
}

#[test]
fn secondary_cache_address_is_appended() {
    let opts = options_eth0();
    let setup = Registrar::prepare(&opts, "host.example.com").ok().unwrap();
    let broadcast = setup.broadcast;
    let extra = Ipv4Addr::from_octets(172, 16, 0, 1);
    let reg = Registrar::new(options_eth0(), setup, None, Some(extra));
    assert_eq!(reg.targets().as_slice(), &[broadcast, extra]);
}

#[test]
fn missing_sentinel_terminates_without_announcing() {
    let mut opts = options_eth0();
    opts.checkfile = Some(std::path::PathBuf::from("/tmp/does_not_matter"));
    let setup = Registrar::prepare(&opts, "host.example.com").ok().unwrap();
    let reg = Registrar::new(opts, setup, None, None);
    assert_eq!(reg.run_step(false), CycleAction::Terminate);
    assert_eq!(reg.run_step(true), CycleAction::Announce { sleep_ms: 58000 });
}

#[test]
fn absent_sentinel_config_never_terminates() {
    let opts = options_eth0();
    let setup = Registrar::prepare(&opts, "host.example.com").ok().unwrap();
    let reg = Registrar::new(options_eth0(), setup, None, None);
    assert_eq!(reg.run_step(false), CycleAction::Announce { sleep_ms: 58000 });
    assert_eq!(reg.run_step(true), CycleAction::Announce { sleep_ms: 58000 });
}

#[test]
fn two_cycles_send_identical_bytes() {
    let opts = options_eth0();
    let setup = Registrar::prepare(&opts, "host.example.com").ok().unwrap();
    let reg = Registrar::new(options_eth0(), setup, None, None);
    let first_action = reg.run_step(true);
    let first_payload = reg.message().clone();
    let first_targets = reg.targets().clone();
    let second_action = reg.run_step(true);
    let second_payload = reg.message().clone();
    let second_targets = reg.targets().clone();
    assert_eq!(first_action, second_action);
    assert_eq!(first_payload, second_payload);
    assert_eq!(first_targets, second_targets);
}

#[test]
fn end_to_end_cycle() {
    let opts = options_eth0();
    let setup = Registrar::prepare(&opts, "irrelevant").ok().unwrap();
    assert_eq!(setup.broadcast.octets(), (10, 0, 0, 255));
    let reg = Registrar::new(options_eth0(), setup, None, None);
    assert_eq!(reg.targets().len(), 1);
    assert_eq!(reg.targets()[0].octets(), (10, 0, 0, 255));
    assert_eq!(reg.message().as_str(), "+60@se/host.example.com/nicos/setupname='main'\n");
    match reg.run_step(true) {
        CycleAction::Announce { sleep_ms } => assert_eq!(sleep_ms, 58000),
        CycleAction::Terminate => panic!("the loop must announce, not terminate"),
    }
}
