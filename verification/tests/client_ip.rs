use michi_api::client_ip::{
    client_ip_text, forwarded_hops, resolve_client_ip, trimmed_header, IpAddress, IpValue,
    ProxyPolicy,
};

/// Reads a dotted IPv4 text, as the application reads a header value.
fn v4(text: &str) -> IpAddress {
    let parts: Vec<u8> = text.split('.').map(|p| p.parse().unwrap()).collect();
    assert_eq!(parts.len(), 4);
    IpAddress::v4(parts[0], parts[1], parts[2], parts[3])
}

/// The peer part of a `host:port` socket address.
fn peer(socket: &str) -> IpAddress {
    v4(socket.split(':').next().unwrap())
}

fn policy(trust_proxy: bool, trusted: Vec<&str>) -> ProxyPolicy {
    ProxyPolicy {
        trust_proxy,
        trusted_proxies: trusted.into_iter().map(|t| v4(t).value).collect(),
    }
}

/// The client address of a request, as the server resolves it from the
/// peer and the two forwarding headers.
fn extract(p: &ProxyPolicy, socket: &str, forwarded: Option<&str>, real_ip: Option<&str>) -> String {
    let hops = forwarded.map(|h| {
        forwarded_hops(h).iter().map(|t| Some(v4(t))).collect::<Vec<Option<IpAddress>>>()
    });
    let real = real_ip.map(|r| v4(&trimmed_header(r)));
    let resolved = resolve_client_ip(Some(peer(socket)), hops, real, p);
    client_ip_text(&resolved)
}

#[test]
fn test_extract_client_ip_no_trust_proxy_ignores_headers() {
    let cfg = policy(false, vec!["127.0.0.1"]);
    let ip = extract(&cfg, "192.168.1.100:54321", Some("8.8.8.8"), Some("8.8.4.4"));
    assert_eq!(ip, "192.168.1.100");
}

#[test]
fn test_extract_client_ip_untrusted_peer_cannot_spoof() {
    let cfg = policy(true, vec!["127.0.0.1", "10.0.0.1"]);
    let ip = extract(&cfg, "192.168.1.50:41234", Some("1.1.1.1"), None);
    assert_eq!(ip, "192.168.1.50");
}

#[test]
fn test_extract_client_ip_trusted_proxy_accepts_forwarded() {
    let cfg = policy(true, vec!["127.0.0.1", "10.0.0.1"]);
    let ip = extract(&cfg, "10.0.0.1:41234", Some("203.0.113.195, 10.0.0.1"), None);
    assert_eq!(ip, "203.0.113.195");
}

#[test]
fn test_extract_client_ip_trusted_proxy_handles_spoofed_prefix_right_to_left() {
    let cfg = policy(true, vec!["10.0.0.1"]);
    let ip = extract(&cfg, "10.0.0.1:41234", Some("127.0.0.1, 203.0.113.195"), None);
    assert_eq!(
        ip, "203.0.113.195",
        "Must resolve to the true client IP (203.0.113.195) rather than the spoofed prefix (127.0.0.1)"
    );
}

#[test]
fn test_extract_client_ip_trusted_proxy_accepts_real_ip() {
    let cfg = policy(true, vec!["127.0.0.1"]);
    let ip = extract(&cfg, "127.0.0.1:41234", None, Some("198.51.100.4"));
    assert_eq!(ip, "198.51.100.4");
}

#[test]
fn forwarded_hops_are_trimmed_and_nearest_first() {
    let hops = forwarded_hops(" 1.2.3.4 ,5.6.7.8,  9.9.9.9");
    assert_eq!(hops, vec!["9.9.9.9".to_string(), "5.6.7.8".to_string(), "1.2.3.4".to_string()]);
}

#[test]
fn no_peer_resolves_to_loopback_text() {
    let cfg = policy(true, vec!["127.0.0.1"]);
    let resolved = resolve_client_ip(None, None, None, &cfg);
    assert!(resolved.is_none());
    assert_eq!(client_ip_text(&resolved), "127.0.0.1");
}

#[test]
fn trusted_proxy_chain_skips_every_trusted_hop() {
    let cfg = policy(true, vec!["10.0.0.1", "10.0.0.2"]);
    let ip = extract(&cfg, "10.0.0.1:1", Some("198.51.100.7, 10.0.0.2"), Some("192.0.2.1"));
    assert_eq!(ip, "198.51.100.7");
}

#[test]
fn all_forwarded_hops_trusted_falls_back_to_real_ip() {
    let cfg = policy(true, vec!["10.0.0.1", "10.0.0.2"]);
    let ip = extract(&cfg, "10.0.0.1:1", Some("10.0.0.2"), Some(" 192.0.2.1 "));
    assert_eq!(ip, "192.0.2.1");
}

#[test]
fn trusted_proxy_without_headers_gives_no_address() {
    let cfg = policy(true, vec!["10.0.0.1"]);
    let resolved = resolve_client_ip(Some(v4("10.0.0.1")), None, None, &cfg);
    assert!(resolved.is_none());
}

#[test]
fn ipv4_text_is_dotted_decimal() {
    let a = IpAddress::v4(203, 0, 113, 195);
    assert_eq!(a.text, "203.0.113.195");
    assert_eq!(a.value, IpValue::V4(203, 0, 113, 195));
    let p = policy(true, vec!["203.0.113.195"]);
    assert!(p.is_trusted_proxy(a.value));
    assert!(!policy(false, vec!["203.0.113.195"]).is_trusted_proxy(a.value));
}
