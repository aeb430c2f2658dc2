use ssh_client_core::client::{AuthMethod, Client, CommandExecutedResult};
use ssh_client_core::host::{Host, IpAddress};

#[test]
fn hostname_text_is_the_name() {
    let h = Host::Hostname("example.com".to_string());
    assert_eq!(h.to_text(), "example.com");
}

#[test]
fn v4_text_is_dotted_decimal() {
    assert_eq!(IpAddress::V4(192, 168, 0, 1).to_text(), "192.168.0.1");
    assert_eq!(IpAddress::V4(0, 0, 0, 0).to_text(), "0.0.0.0");
    assert_eq!(IpAddress::V4(255, 255, 255, 255).to_text(), "255.255.255.255");
}

#[test]
fn v6_text_is_colon_separated_hex() {
    let ip = IpAddress::V6(0x2001, 0xdb8, 0, 0, 0, 0, 0, 1);
    assert_eq!(ip.to_text(), "2001:db8:0:0:0:0:0:1");
}

#[test]
fn address_is_host_and_port() {
    let c = Client::new(
        Host::IpAddress(IpAddress::V4(127, 0, 0, 1)),
        2222,
        "root".to_string(),
        AuthMethod::Password("pw".to_string()),
    );
    assert_eq!(c.address(), "127.0.0.1:2222");
    let d = Client::new(
        Host::Hostname("example.com".to_string()),
        22,
        "root".to_string(),
        AuthMethod::Password("pw".to_string()),
    );
    assert_eq!(d.address(), "example.com:22");
}

#[test]
fn result_new_keeps_fields() {
    let r = CommandExecutedResult::new("out".to_string(), 4);
    assert_eq!(r.output, "out");
    assert_eq!(r.exit_status, 4);
}
