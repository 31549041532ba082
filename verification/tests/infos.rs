use camport3::flags::{
    fmt_ty_interface_type, TY_INTERFACE_ETHERNET, TY_INTERFACE_IEEE80211, TY_INTERFACE_RAW,
    TY_INTERFACE_UNKNOWN, TY_INTERFACE_USB,
};
use camport3::types::{DeviceBaseInfo, InterfaceInfo, NetInfo, UsbInfo, VersionInfo};
use camport3::util::{addr_from_arr, bit_is_set, str_eq};

fn net(mac: &str, ip: &str, gateway: &str) -> NetInfo {
    NetInfo {
        mac: String::from(mac),
        ip: String::from(ip),
        netmask: String::from("255.255.255.0"),
        gateway: String::from(gateway),
        broadcast: String::from("192.168.4.255"),
    }
}

fn iface(ty: u32) -> InterfaceInfo {
    InterfaceInfo {
        name: String::from("eno1"),
        id: String::from("eth-30:0e:d5:57:c2:ea9b04a8c0"),
        ty,
        net: net("30:0e:d5:57:c2:ea", "192.168.4.155", "192.168.4.1"),
    }
}

fn device(ty: u32) -> DeviceBaseInfo {
    DeviceBaseInfo {
        iface: iface(ty),
        id: String::from("207000144626"),
        vendor_name: String::from("Percipio"),
        user_defined_name: String::from("left-arm"),
        model_name: String::from("PM801-GN-E1"),
        hardware_version: VersionInfo { major: 1, minor: 0, patch: 0 },
        firmware_version: VersionInfo { major: 2, minor: 5, patch: 13 },
        net: net("68:f7:56:3a:11:04", "192.168.4.20", ""),
        usb: UsbInfo { bus: 2, addr: 7 },
        build_hash: String::from("f3a9b2c"),
        config_version: String::from("3.0"),
    }
}

#[test]
fn version_getters() {
    let v = VersionInfo { major: 3, minor: 6, patch: 66 };
    assert_eq!(v.major(), 3);
    assert_eq!(v.minor(), 6);
    assert_eq!(v.patch(), 66);
    assert_eq!(v.parts(), (3, 6, 66));
}

#[test]
fn interface_getters_and_net_info() {
    let i = iface(TY_INTERFACE_ETHERNET);
    assert_eq!(i.name(), "eno1");
    assert_eq!(i.id(), "eth-30:0e:d5:57:c2:ea9b04a8c0");
    assert_eq!(i.type_(), TY_INTERFACE_ETHERNET);
    assert!(i.net_info().is_some());
    assert_eq!(i.net_info().unwrap().ip(), "192.168.4.155");

    assert!(iface(TY_INTERFACE_IEEE80211).net_info().is_some());
    assert!(iface(TY_INTERFACE_USB).net_info().is_none());
    assert!(iface(TY_INTERFACE_RAW).net_info().is_none());
    assert!(iface(TY_INTERFACE_UNKNOWN).net_info().is_none());
}

#[test]
fn device_getters() {
    let d = device(TY_INTERFACE_ETHERNET);
    assert_eq!(d.iface().name(), "eno1");
    assert_eq!(d.id(), "207000144626");
    assert_eq!(d.vender_name(), "Percipio");
    assert_eq!(d.user_defined_name(), "left-arm");
    assert_eq!(d.model_name(), "PM801-GN-E1");
    assert_eq!(d.hardware_version().parts(), (1, 0, 0));
    assert_eq!(d.firmware_version().parts(), (2, 5, 13));
    assert_eq!(d.build_hash(), "f3a9b2c");
    assert_eq!(d.config_version(), "3.0");
}

#[test]
fn device_address_halves_follow_interface_type() {
    let eth = device(TY_INTERFACE_ETHERNET);
    assert!(eth.get_net_info().is_some());
    assert_eq!(eth.get_net_info().unwrap().ip(), "192.168.4.20");
    assert!(eth.get_usb_info().is_none());

    let wifi = device(TY_INTERFACE_IEEE80211);
    assert!(wifi.get_net_info().is_some());
    assert!(wifi.get_usb_info().is_none());

    let usb = device(TY_INTERFACE_USB);
    assert!(usb.get_net_info().is_none());
    let u = usb.get_usb_info().unwrap();
    assert_eq!(u.bus(), 2);
    assert_eq!(u.addr(), 7);
}

#[test]
fn gateway_is_empty_or_present() {
    let with = net("30:0e:d5:57:c2:ea", "192.168.4.155", "192.168.4.1");
    assert_eq!(with.gateway(), Some("192.168.4.1"));

    let without = net("30:0e:d5:57:c2:ea", "192.168.4.155", "");
    assert_eq!(without.gateway(), None);

    assert_eq!(with.netmask(), "255.255.255.0");
    assert_eq!(with.broadcast(), "192.168.4.255");
}

#[test]
fn mac_parses_through_macaddr() {
    let good = net("30:0e:d5:57:c2:ea", "192.168.4.155", "");
    let parsed = good.mac().unwrap();
    assert_eq!(parsed, macaddr::MacAddr::from([0x30, 0x0e, 0xd5, 0x57, 0xc2, 0xea]));

    let bad = net("not a mac", "192.168.4.155", "");
    assert!(bad.mac().is_err());

    let empty = net("", "192.168.4.155", "");
    assert!(empty.mac().is_err());
}

#[test]
fn interface_type_names() {
    assert_eq!(fmt_ty_interface_type(TY_INTERFACE_UNKNOWN), "");
    assert_eq!(fmt_ty_interface_type(TY_INTERFACE_RAW), "RAW");
    assert_eq!(fmt_ty_interface_type(TY_INTERFACE_USB), "USB");
    assert_eq!(fmt_ty_interface_type(TY_INTERFACE_ETHERNET), "ETH");
    assert_eq!(fmt_ty_interface_type(TY_INTERFACE_IEEE80211), "WIFI");
    assert_eq!(
        fmt_ty_interface_type(TY_INTERFACE_USB | TY_INTERFACE_ETHERNET),
        "USB,ETH"
    );
    assert_eq!(fmt_ty_interface_type(0xffff), "RAW,USB,ETH,WIFI");
}

#[test]
fn bit_tests() {
    assert!(bit_is_set(6, TY_INTERFACE_USB));
    assert!(bit_is_set(6, TY_INTERFACE_ETHERNET));
    assert!(!bit_is_set(6, TY_INTERFACE_RAW));
    assert!(bit_is_set(0, TY_INTERFACE_UNKNOWN));
}

#[test]
fn string_equality() {
    assert!(str_eq("abc", "abc"));
    assert!(!str_eq("abc", "abd"));
    assert!(!str_eq("abc", "abcd"));
    assert!(str_eq("", ""));
}

#[test]
fn address_prefix_reinterpreted_as_bytes() {
    let raw: [i8; 6] = [104, -9, 86, 58, 17, 4];
    let bytes = addr_from_arr::<6, 4>(raw, 4);
    assert_eq!(bytes, vec![104u8, 247, 86, 58]);

    let all = addr_from_arr::<6, 6>(raw, 6);
    assert_eq!(all, vec![104u8, 247, 86, 58, 17, 4]);
}
