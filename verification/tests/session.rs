use camport3::context::{Context, DeviceModel, InterfaceModel, SdkModel};
use camport3::flags::{TY_INTERFACE_ETHERNET, TY_INTERFACE_USB};
use camport3::status::ErrorCode;
use camport3::types::{DeviceBaseInfo, InterfaceInfo, NetInfo, UsbInfo, VersionInfo};

fn net(ip: &str) -> NetInfo {
    NetInfo {
        mac: String::from("30:0e:d5:57:c2:ea"),
        ip: String::from(ip),
        netmask: String::from("255.255.255.0"),
        gateway: String::new(),
        broadcast: String::from("192.168.4.255"),
    }
}

fn iface_info(id: &str, ty: u32, ip: &str) -> InterfaceInfo {
    InterfaceInfo { name: String::from("eno1"), id: String::from(id), ty, net: net(ip) }
}

fn device(id: &str, ip: &str, firmware_errcode: u32) -> DeviceModel {
    DeviceModel {
        info: DeviceBaseInfo {
            iface: iface_info("eth-0", TY_INTERFACE_ETHERNET, "192.168.4.155"),
            id: String::from(id),
            vendor_name: String::from("Percipio"),
            user_defined_name: String::new(),
            model_name: String::from("PM801-GN-E1"),
            hardware_version: VersionInfo { major: 1, minor: 0, patch: 0 },
            firmware_version: VersionInfo { major: 2, minor: 5, patch: 13 },
            net: net(ip),
            usb: UsbInfo { bus: 0, addr: 0 },
            build_hash: String::from("f3a9b2c"),
            config_version: String::from("3.0"),
        },
        firmware_errcode,
    }
}

fn model() -> SdkModel {
    SdkModel {
        version: VersionInfo { major: 3, minor: 6, patch: 66 },
        interfaces: vec![
            InterfaceModel {
                info: iface_info("eth-0", TY_INTERFACE_ETHERNET, "192.168.4.155"),
                devices: vec![
                    device("cam-a", "192.168.4.20", 0),
                    device("cam-b", "192.168.4.21", 0x30001),
                    device("cam-c", "192.168.4.22", 0),
                ],
            },
            InterfaceModel {
                info: iface_info("usb-2-7", TY_INTERFACE_USB, ""),
                devices: vec![],
            },
        ],
    }
}

#[test]
fn nothing_is_visible_before_update() {
    let ctx = Context::new(model());
    assert_eq!(ctx.get_interface_number(), 0);
    assert_eq!(ctx.get_interface_list(0).len(), 0);
    assert!(!ctx.has_interface("eth-0"));

    let e = ctx.open_interface("eth-0").unwrap_err();
    assert_eq!(e.errcode, ErrorCode::InvalidInterface);
    assert_eq!(e.firmware_errcode, None);
}

#[test]
fn update_makes_every_interface_visible() {
    let mut ctx = Context::new(model());
    ctx.update_interface_list();
    assert_eq!(ctx.get_interface_number(), 2);
    assert!(ctx.has_interface("eth-0"));
    assert!(ctx.has_interface("usb-2-7"));
    assert!(!ctx.has_interface("eth-1"));
}

#[test]
fn interface_list_is_clipped_to_the_request() {
    let mut ctx = Context::new(model());
    ctx.update_interface_list();

    let all = ctx.get_interface_list(0);
    assert_eq!(all.len(), 2);
    assert_eq!(all[0].id(), "eth-0");
    assert_eq!(all[1].id(), "usb-2-7");

    let one = ctx.get_interface_list(1);
    assert_eq!(one.len(), 1);
    assert_eq!(one[0].id(), "eth-0");

    let many = ctx.get_interface_list(10);
    assert_eq!(many.len(), 2);
}

#[test]
fn no_device_is_visible_before_the_device_update() {
    let mut ctx = Context::new(model());
    ctx.update_interface_list();
    let iface = ctx.open_interface("eth-0").unwrap();

    assert_eq!(iface.get_device_list(0).unwrap().len(), 0);
    assert_eq!(iface.has_device("cam-a").unwrap(), false);

    let e = iface.open_device("cam-a").unwrap_err();
    assert_eq!(e.errcode, ErrorCode::InvalidParameter);
}

#[test]
fn device_list_is_clipped_to_the_request() {
    let mut ctx = Context::new(model());
    ctx.update_interface_list();
    let mut iface = ctx.open_interface("eth-0").unwrap();
    iface.update_device_list().unwrap();

    let all = iface.get_device_list(0).unwrap();
    assert_eq!(all.len(), 3);
    assert_eq!(all[0].id(), "cam-a");
    assert_eq!(all[2].id(), "cam-c");

    let two = iface.get_device_list(2).unwrap();
    assert_eq!(two.len(), 2);
    assert_eq!(two[1].id(), "cam-b");

    assert!(iface.has_device("cam-b").unwrap());
    assert!(!iface.has_device("cam-z").unwrap());
}

#[test]
fn opening_devices_reports_firmware_faults() {
    let mut ctx = Context::new(model());
    ctx.update_interface_list();
    let mut iface = ctx.open_interface("eth-0").unwrap();
    iface.update_device_list().unwrap();

    let ok = iface.open_device("cam-a").unwrap();
    assert_eq!(ok.info.id(), "cam-a");

    let e = iface.open_device("cam-b").unwrap_err();
    assert_eq!(e.errcode, ErrorCode::DeviceError);
    assert_eq!(e.firmware_errcode, Some(0x30001));

    let e = iface.open_device("cam-z").unwrap_err();
    assert_eq!(e.errcode, ErrorCode::InvalidParameter);
    assert_eq!(e.firmware_errcode, None);
}

#[test]
fn opening_a_device_by_address() {
    let mut ctx = Context::new(model());
    ctx.update_interface_list();
    let mut iface = ctx.open_interface("eth-0").unwrap();
    iface.update_device_list().unwrap();

    let dev = iface.open_device_with_ip("192.168.4.22").unwrap();
    assert_eq!(dev.info.id(), "cam-c");

    let e = iface.open_device_with_ip("192.168.9.9").unwrap_err();
    assert_eq!(e.errcode, ErrorCode::InvalidParameter);
}

#[test]
fn opened_interface_carries_its_description() {
    let mut ctx = Context::new(model());
    ctx.update_interface_list();
    let iface = ctx.open_interface("usb-2-7").unwrap();
    assert_eq!(iface.info.id(), "usb-2-7");
    assert_eq!(iface.info.type_(), TY_INTERFACE_USB);
    assert!(iface.info.net_info().is_none());
}
