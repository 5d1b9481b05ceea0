use cache_reg::msg::build_messages;

#[test]
fn heartbeat_is_single_set_line() {
    let (_, heartbeat) = build_messages("60", "host.example.com", "main");
    assert_eq!(heartbeat, "+60@se/host.example.com/nicos/setupname='main'\n");
}

#[test]
fn query_is_heartbeat_plus_query_line() {
    let (query, heartbeat) = build_messages("60", "host.example.com", "main");
    assert_eq!(
        query,
        "+60@se/host.example.com/nicos/setupname='main'\n+60@se/host.example.com/nicos/setupname?\n"
    );
    assert!(query.starts_with(&heartbeat));
    assert_eq!(query, format!("{}{}", heartbeat, "+60@se/host.example.com/nicos/setupname?\n"));
}

#[test]
fn ttl_text_uses_default_float_formatting() {
    let whole: f64 = 60.0;
    assert_eq!(format!("{}", whole), "60");
    let fractional: f64 = 2.5;
    assert_eq!(format!("{}", fractional), "2.5");
    let (_, heartbeat) = build_messages(&format!("{}", fractional), "id", "setup");
    assert_eq!(heartbeat, "+2.5@se/id/nicos/setupname='setup'\n");
}

#[test]
fn empty_setupname_is_kept_literally() {
    let (query, heartbeat) = build_messages("1", "id", "");
    assert_eq!(heartbeat, "+1@se/id/nicos/setupname=''\n");
    assert_eq!(query, "+1@se/id/nicos/setupname=''\n+1@se/id/nicos/setupname?\n");
}
