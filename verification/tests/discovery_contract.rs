use squaregolf_connector::discovery::{
    browse_line_outcome, build_mdns_ptr_query, decode_dns_name, discover_squarelaunch_ws_endpoint,
    dns_names_equal, encode_dns_name, ipv4_to_string, parse_dns_sd_browse_instance,
    parse_dns_sd_error, parse_dns_sd_resolve_endpoint, parse_mdns_packet, resolve_line_outcome,
    split_budget, squarelaunch_query, DiscoveredSquareLaunchEndpoint, DnsSdLine, MdnsRecords,
};

fn hex_bytes(hex: &str) -> Vec<u8> {
    hex.as_bytes()
        .chunks(2)
        .map(|pair| {
            let text = std::str::from_utf8(pair).expect("hex utf8");
            u8::from_str_radix(text, 16).expect("hex byte")
        })
        .collect()
}

#[test]
fn mdns_endpoint_uses_srv_port_and_a_record_address() {
    let mut records = MdnsRecords::default();
    records.instances.push("SQUARELAUNCH B0100SIM._openlaunch-ws._tcp.local.".to_string());
    records.srvs.push((
        "SQUARELAUNCH B0100SIM._openlaunch-ws._tcp.local.".to_string(),
        "squarelaunch-sim.local.".to_string(),
        3030,
    ));
    records.addrs.push(("squarelaunch-sim.local.".to_string(), (192, 168, 1, 50)));

    let endpoint = records.endpoint().expect("mdns endpoint");

    assert_eq!(endpoint.host, "192.168.1.50");
    assert_eq!(endpoint.port, 3030);
}

#[test]
fn mdns_parser_accepts_real_openlaunch_simulator_packet() {
    let packet = hex_bytes(
        "0000840000010001000000040e5f6f70656e6c61756e63682d7773045f746370056c6f63616c00000c0001c00c000c00010000119400100d4e4f564120423031303053494dc00cc03700210001000000780018000000000b680f5368616e65732d4d61632d6d696e69c020c037002f0001000000780008c037000400000008c05900010001000000780004c0a8443ac0370010000100001194006b0a6d6f64656c3d4e4f5641186d616e7566616374757265723d4f70656e204c61756e63680f73657269616c3d423031303053494d18686f73746e616d653d5368616e65732d4d61632d6d696e691d76657273696f6e3d73696d756c61746f722d323032352d4465632d3032",
    );
    let mut records = MdnsRecords::default();

    parse_mdns_packet(&packet, &mut records);
    let endpoint = records.endpoint().expect("simulator endpoint");

    assert_eq!(endpoint.host, "192.168.68.58");
    assert_eq!(endpoint.port, 2920);
}

#[test]
fn dns_sd_browse_output_parses_instance_name() {
    let line = "18:41:09.123  Add     3  14 local. _openlaunch-ws._tcp. SQUARELAUNCH B0100SIM";

    let instance = parse_dns_sd_browse_instance(line).expect("dns-sd browse instance");

    assert_eq!(instance, "SQUARELAUNCH B0100SIM");
}

#[test]
fn dns_sd_resolve_output_parses_host_and_port() {
    let line = "18:41:11.456  SQUARELAUNCH B0100SIM._openlaunch-ws._tcp.local. can be reached at squarelaunch-sim.local.:3030 (interface 14)";

    let endpoint = parse_dns_sd_resolve_endpoint(line).expect("dns-sd resolve endpoint");

    assert_eq!(endpoint.host, "squarelaunch-sim.local");
    assert_eq!(endpoint.port, 3030);
}

#[test]
fn dns_sd_failure_line_is_reported() {
    let line = "DNSServiceBrowse failed -65563 (Service Not Running)";

    let error = parse_dns_sd_error(line).expect("dns-sd failure");

    assert_eq!(error, "DNSServiceBrowse failed -65563 (Service Not Running)");
}

#[test]
fn dns_sd_lines_without_answers() {
    assert_eq!(parse_dns_sd_browse_instance("Browsing for _openlaunch-ws._tcp.local"), None);
    assert_eq!(parse_dns_sd_browse_instance("12:00 Add 2 4 local. _openlaunch-ws._tcp.   "), None);
    assert_eq!(parse_dns_sd_resolve_endpoint("x can be reached at host.local.:notaport"), None);
    assert_eq!(parse_dns_sd_resolve_endpoint("x can be reached at .:3030"), None);
    assert_eq!(parse_dns_sd_resolve_endpoint("no marker here"), None);
    assert_eq!(
        parse_dns_sd_error("  DNSServiceResolve failed -1  ").as_deref(),
        Some("DNSServiceResolve failed -1")
    );
    assert_eq!(parse_dns_sd_error("something else"), None);
}

#[test]
fn dns_sd_line_outcomes() {
    assert_eq!(
        browse_line_outcome("DNSServiceBrowse failed -65563"),
        DnsSdLine::Failed("DNSServiceBrowse failed -65563".to_string())
    );
    assert_eq!(
        browse_line_outcome("1 Add 3 14 local. _openlaunch-ws._tcp. NOVA B0100SIM"),
        DnsSdLine::Found("NOVA B0100SIM".to_string())
    );
    assert_eq!(browse_line_outcome("Timestamp A/R Flags"), DnsSdLine::Continue);
    assert_eq!(
        resolve_line_outcome("x can be reached at host.local.:2920 (interface 4)"),
        DnsSdLine::Found(DiscoveredSquareLaunchEndpoint { host: "host.local".to_string(), port: 2920 })
    );
    assert_eq!(resolve_line_outcome("Lookup x"), DnsSdLine::Continue);
}

#[test]
fn ptr_query_matches_wire_format() {
    let query = build_mdns_ptr_query("_openlaunch-ws._tcp.local.");
    let mut expected = vec![0u8, 0, 0, 0, 0, 1, 0, 0, 0, 0, 0, 0];
    expected.push(14);
    expected.extend_from_slice(b"_openlaunch-ws");
    expected.push(4);
    expected.extend_from_slice(b"_tcp");
    expected.push(5);
    expected.extend_from_slice(b"local");
    expected.extend_from_slice(&[0, 0, 12, 0x80, 0x01]);
    assert_eq!(query, expected);
    assert_eq!(squarelaunch_query(), expected);

    let long_label = "a".repeat(70);
    let mut out = Vec::new();
    encode_dns_name(&long_label, &mut out);
    assert_eq!(out.len(), 1 + 63 + 1);
    assert_eq!(out[0], 63);
}

#[test]
fn query_name_reads_back() {
    let query = build_mdns_ptr_query("_openlaunch-ws._tcp.local.");
    let (name, next) = decode_dns_name(&query, 12).expect("name");
    assert_eq!(name, "_openlaunch-ws._tcp.local.");
    assert_eq!(next, query.len() - 4);
}

#[test]
fn compressed_names_follow_pointers() {
    let mut packet = vec![0u8; 12];
    packet.extend_from_slice(&[3, b'f', b'o', b'o', 0]);
    packet.extend_from_slice(&[3, b'b', b'a', b'r', 0xc0, 12]);
    assert_eq!(decode_dns_name(&packet, 17), Some(("bar.foo.".to_string(), 23)));
    let looping = vec![0xc0u8, 0];
    assert_eq!(decode_dns_name(&looping, 0), None);
    assert_eq!(decode_dns_name(&[5, b'a'], 0), None);
}

#[test]
fn names_compare_without_case_or_final_dot() {
    assert!(dns_names_equal("Host.Local.", "host.local"));
    assert!(!dns_names_equal("host.local", "other.local"));
    assert_eq!(ipv4_to_string((10, 0, 255, 1)), "10.0.255.1");
}

#[test]
fn endpoint_without_address_uses_target_name() {
    let mut records = MdnsRecords::default();
    records.srvs.push(("other._openlaunch-ws._tcp.local.".to_string(), "box.local.".to_string(), 2920));
    assert_eq!(
        records.endpoint(),
        Some(DiscoveredSquareLaunchEndpoint { host: "box.local".to_string(), port: 2920 })
    );
    records.instances.push("mine._openlaunch-ws._tcp.local.".to_string());
    assert_eq!(records.endpoint(), None);
}

#[test]
fn discovery_prefers_multicast_then_dns_sd() {
    let found = DiscoveredSquareLaunchEndpoint { host: "10.0.0.2".to_string(), port: 2920 };
    assert_eq!(
        discover_squarelaunch_ws_endpoint(Some(found.clone()), Err("ignored".to_string())),
        Ok(found.clone())
    );
    assert_eq!(discover_squarelaunch_ws_endpoint(None, Ok(Some(found.clone()))), Ok(found));
    assert_eq!(
        discover_squarelaunch_ws_endpoint(None, Ok(None)).unwrap_err(),
        "SquareLaunch WebSocket discovery timed out; no _openlaunch-ws._tcp.local. service found"
    );
    assert_eq!(
        discover_squarelaunch_ws_endpoint(None, Err("failed to spawn".to_string())).unwrap_err(),
        "SquareLaunch WebSocket discovery failed: failed to spawn"
    );
}

#[test]
fn time_budget_split() {
    assert_eq!(split_budget(5_000_000_000), (2_000_000_000, 3_000_000_000));
    assert_eq!(split_budget(2_500_000_000), (2_000_000_000, 1_000_000_000));
    assert_eq!(split_budget(1_000_000_000), (1_000_000_000, 1_000_000_000));
}

#[test]
fn packets_only_add_records() {
    let packet = hex_bytes(
        "0000840000010001000000040e5f6f70656e6c61756e63682d7773045f746370056c6f63616c00000c0001c00c000c00010000119400100d4e4f564120423031303053494dc00cc03700210001000000780018000000000b680f5368616e65732d4d61632d6d696e69c020c037002f0001000000780008c037000400000008c05900010001000000780004c0a8443ac0370010000100001194006b0a6d6f64656c3d4e4f5641186d616e7566616374757265723d4f70656e204c61756e63680f73657269616c3d423031303053494d18686f73746e616d653d5368616e65732d4d61632d6d696e691d76657273696f6e3d73696d756c61746f722d323032352d4465632d3032",
    );
    let mut records = MdnsRecords::default();
    records.instances.push("earlier._openlaunch-ws._tcp.local.".to_string());
    records.addrs.push(("earlier.local.".to_string(), (10, 0, 0, 1)));
    parse_mdns_packet(&packet, &mut records);
    assert_eq!(records.instances[0], "earlier._openlaunch-ws._tcp.local.");
    assert!(records.instances.len() >= 2);
    assert_eq!(records.addrs[0], ("earlier.local.".to_string(), (10, 0, 0, 1)));
    assert!(records.addrs.len() >= 2);
    let before = records.clone();
    parse_mdns_packet(&[0u8; 5], &mut records);
    assert_eq!(records, before);
}
