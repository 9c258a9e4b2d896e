use tun_provider::{IpAddress, Route, TunConfig};

fn route(address: IpAddress, prefix: u8) -> Route {
    Route::new(address, prefix).unwrap()
}

fn sample() -> TunConfig {
    TunConfig {
        addresses: vec![IpAddress::V4(0x0a00_0002), IpAddress::V6(0xfe80 << 112)],
        dns_servers: vec![IpAddress::V4(0x0808_0808), IpAddress::V4(0x0101_0101)],
        routes: vec![route(IpAddress::V4(0xc0a8_0000), 16), route(IpAddress::V6(0), 0)],
        mtu: 1420,
    }
}

#[test]
fn route_takes_prefixes_up_to_the_address_width() {
    let v4 = IpAddress::V4(0xc0a8_0100);
    assert_eq!(Route::new(v4, 0).map(|r| (r.address(), r.prefix())), Some((v4, 0)));
    assert_eq!(Route::new(v4, 24).map(|r| (r.address(), r.prefix())), Some((v4, 24)));
    assert_eq!(Route::new(v4, 32).map(|r| (r.address(), r.prefix())), Some((v4, 32)));
    assert_eq!(Route::new(v4, 33), None);
    assert_eq!(Route::new(v4, 255), None);
    let v6 = IpAddress::V6(0x2001_0db8 << 96);
    assert_eq!(Route::new(v6, 33).map(|r| (r.address(), r.prefix())), Some((v6, 33)));
    assert_eq!(Route::new(v6, 128).map(|r| (r.address(), r.prefix())), Some((v6, 128)));
    assert_eq!(Route::new(v6, 129), None);
}

#[test]
fn route_keeps_its_parts() {
    for prefix in [0u8, 1, 31, 32] {
        let made = route(IpAddress::V4(0xffff_ffff), prefix);
        assert_eq!(made.address(), IpAddress::V4(0xffff_ffff));
        assert_eq!(made.prefix(), prefix);
    }
    let made = route(IpAddress::V6(1), 64);
    assert_eq!(made.address(), IpAddress::V6(1));
    assert_eq!(made.prefix(), 64);
    assert_ne!(route(IpAddress::V4(0), 0), route(IpAddress::V6(0), 0));
}

#[test]
fn config_equals_its_clone() {
    let config = sample();
    let copy = config.clone();
    assert!(config.same_as(&copy));
    assert!(config == copy);
    assert_eq!(copy.addresses, config.addresses);
    assert_eq!(copy.dns_servers, config.dns_servers);
    assert_eq!(copy.routes, config.routes);
    assert_eq!(copy.mtu, 1420);
}

#[test]
fn routes_compare_as_a_set() {
    let config = sample();
    let mut other = sample();
    other.routes.reverse();
    assert!(config.same_as(&other));
    other.routes.push(route(IpAddress::V6(0), 0));
    assert!(config.same_as(&other));
    assert!(other.same_as(&config));
    other.routes.push(route(IpAddress::V4(0), 0));
    assert!(!config.same_as(&other));
    assert!(!other.same_as(&config));
    let mut fewer = sample();
    fewer.routes.pop();
    assert!(!config.same_as(&fewer));
    assert!(!fewer.same_as(&config));
}

#[test]
fn routes_differ_by_prefix_and_by_address() {
    let config = sample();
    let mut other = sample();
    other.routes[0] = route(IpAddress::V4(0xc0a8_0000), 17);
    assert!(!config.same_as(&other));
    other.routes[0] = route(IpAddress::V4(0xc0a9_0000), 16);
    assert!(!config.same_as(&other));
    other.routes[0] = route(IpAddress::V6(0xc0a8_0000), 16);
    assert!(!config.same_as(&other));
}

#[test]
fn addresses_and_dns_servers_compare_in_order() {
    let config = sample();
    let mut other = sample();
    other.addresses.reverse();
    assert!(!config.same_as(&other));
    let mut other = sample();
    other.dns_servers.reverse();
    assert!(!config.same_as(&other));
    let mut other = sample();
    other.dns_servers.pop();
    assert!(!config.same_as(&other));
    let mut other = sample();
    other.addresses.push(IpAddress::V4(0x0a00_0002));
    assert!(!config.same_as(&other));
}

#[test]
fn mtu_is_part_of_the_config() {
    let config = sample();
    let mut other = sample();
    other.mtu = 1421;
    assert!(!config.same_as(&other));
    assert!(config != other);
}

#[test]
fn initial_config_intercepts_everything() {
    let initial = TunConfig::initial();
    assert_eq!(initial.addresses, vec![IpAddress::V4(0x0a00_0001)]);
    assert_eq!(initial.dns_servers, Vec::new());
    assert_eq!(
        initial.routes,
        vec![route(IpAddress::V4(0), 0), route(IpAddress::V6(0), 0)]
    );
    assert_eq!(initial.mtu, 1380);
}
