use camport3::context::{Context, DeviceModel, InterfaceModel, SdkModel};
use camport3::flags::TY_INTERFACE_ETHERNET;
use camport3::types::{DeviceBaseInfo, InterfaceInfo, NetInfo, UsbInfo, VersionInfo};

const VALID_ID: &str = "eth-30:0e:d5:57:c2:ea9b04a8c0";

fn eth_net_info() -> NetInfo {
    NetInfo {
        mac: String::from("30:0e:d5:57:c2:ea"),
        ip: String::from("192.168.4.155"),
        netmask: String::from("255.255.255.0"),
        gateway: String::from("192.168.4.1"),
        broadcast: String::from("192.168.4.255"),
    }
}

fn eth_interface_info() -> InterfaceInfo {
    InterfaceInfo {
        name: String::from("eno1"),
        id: String::from(VALID_ID),
        ty: TY_INTERFACE_ETHERNET,
        net: eth_net_info(),
    }
}

fn camera_device(id: &str) -> DeviceModel {
    DeviceModel {
        info: DeviceBaseInfo {
            iface: eth_interface_info(),
            id: String::from(id),
            vendor_name: String::from("Percipio"),
            user_defined_name: String::new(),
            model_name: String::from("PM801-GN-E1"),
            hardware_version: VersionInfo { major: 1, minor: 0, patch: 0 },
            firmware_version: VersionInfo { major: 2, minor: 5, patch: 13 },
            net: NetInfo {
                mac: String::from("68:f7:56:3a:11:04"),
                ip: String::from("192.168.4.20"),
                netmask: String::from("255.255.255.0"),
                gateway: String::from("192.168.4.1"),
                broadcast: String::from("192.168.4.255"),
            },
            usb: UsbInfo { bus: 0, addr: 0 },
            build_hash: String::from("f3a9b2c"),
            config_version: String::from("3.0"),
        },
        firmware_errcode: 0,
    }
}

fn sample_model() -> SdkModel {
    SdkModel {
        version: VersionInfo { major: 3, minor: 6, patch: 66 },
        interfaces: vec![InterfaceModel {
            info: eth_interface_info(),
            devices: vec![camera_device("207000144626"), camera_device("207000144627")],
        }],
    }
}

fn setup_context() -> Context {
    let mut ctx = Context::new(sample_model());
    ctx.update_interface_list();
    let out = ctx.get_interface_list(0);
    assert!(out.len() >= 1);
    ctx
}

#[test]
fn test_device() {
    let ctx = setup_context();

    let mut iface = ctx.open_interface(VALID_ID).unwrap();
    iface.update_device_list().unwrap();

    let mut dev_ids = Vec::new();
    for dev in iface.get_device_list(0).unwrap() {
        assert!(!dev.id().is_empty());
        dev_ids.push(dev.id().to_owned());
    }

    assert!(dev_ids.len() > 0);
    let dev_id = &dev_ids[0];
    let dev = iface.open_device(dev_id).unwrap();
    assert_eq!(dev.info.id(), "207000144626");
}
