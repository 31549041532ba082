//! The data carried by the vendor's info structures.
//!
//! The vendor reports versions, interfaces and devices through fixed C
//! layouts whose text fields are NUL-terminated `char` arrays. The types
//! here hold the same data as plain values: each fixed text field as an
//! owned `String`, each numeric field as the matching integer. Whoever
//! reads the raw layouts decodes them into these types; everything the
//! crate then does with the data is verified against them.

use vstd::prelude::*;
use crate::flags::{has_net_info, has_usb_info};

verus! {

/// A library, hardware or firmware version number.
#[derive(Debug, Clone, Copy, PartialEq, Eq, Structural)]
pub struct VersionInfo {
    pub major: u32,
    pub minor: u32,
    pub patch: u32,
}

impl VersionInfo {
    pub fn major(&self) -> (r: u32)
        ensures
            r == self.major,
    {
        self.major
    }

    pub fn minor(&self) -> (r: u32)
        ensures
            r == self.minor,
    {
        self.minor
    }

    pub fn patch(&self) -> (r: u32)
        ensures
            r == self.patch,
    {
        self.patch
    }

    /// The three components in order, for destructuring.
    pub fn parts(&self) -> (r: (u32, u32, u32))
        ensures
            r == (self.major, self.minor, self.patch),
    {
        (self.major, self.minor, self.patch)
    }
}

/// The network address information of an Ethernet or wireless interface,
/// with each field held as the vendor's NUL-terminated text, decoded.
#[derive(Debug)]
pub struct NetInfo {
    pub mac: String,
    pub ip: String,
    pub netmask: String,
    pub gateway: String,
    pub broadcast: String,
}

impl Clone for NetInfo {
    fn clone(&self) -> (r: Self)
        ensures
            r == *self,
    {
        NetInfo {
            mac: self.mac.clone(),
            ip: self.ip.clone(),
            netmask: self.netmask.clone(),
            gateway: self.gateway.clone(),
            broadcast: self.broadcast.clone(),
        }
    }
}

impl NetInfo {
    pub fn ip(&self) -> (r: &str)
        ensures
            r@ == self.ip@,
    {
        self.ip.as_str()
    }

    pub fn netmask(&self) -> (r: &str)
        ensures
            r@ == self.netmask@,
    {
        self.netmask.as_str()
    }

    /// The gateway text, or nothing where the vendor left the field empty.
    pub fn gateway(&self) -> (r: Option<&str>)
        ensures
            r is Some <==> self.gateway@.len() != 0,
            r matches Some(s) ==> s@ == self.gateway@,
    {
        if self.gateway.as_str().is_empty() {
            None
        } else {
            Some(self.gateway.as_str())
        }
    }

    pub fn broadcast(&self) -> (r: &str)
        ensures
            r@ == self.broadcast@,
    {
        self.broadcast.as_str()
    }
}

/// The bus address of a USB interface.
#[derive(Debug, Clone, Copy, PartialEq, Eq, Structural)]
pub struct UsbInfo {
    pub bus: i32,
    pub addr: i32,
}

impl UsbInfo {
    pub fn bus(&self) -> (r: i32)
        ensures
            r == self.bus,
    {
        self.bus
    }

    pub fn addr(&self) -> (r: i32)
        ensures
            r == self.addr,
    {
        self.addr
    }
}

/// One interface through which the library discovers cameras.
#[derive(Debug)]
pub struct InterfaceInfo {
    pub name: String,
    pub id: String,
    pub ty: u32,
    pub net: NetInfo,
}

impl Clone for InterfaceInfo {
    fn clone(&self) -> (r: Self)
        ensures
            r == *self,
    {
        InterfaceInfo {
            name: self.name.clone(),
            id: self.id.clone(),
            ty: self.ty,
            net: self.net.clone(),
        }
    }
}

impl InterfaceInfo {
    pub fn name(&self) -> (r: &str)
        ensures
            r@ == self.name@,
    {
        self.name.as_str()
    }

    pub fn id(&self) -> (r: &str)
        ensures
            r@ == self.id@,
    {
        self.id.as_str()
    }

    pub fn type_(&self) -> (r: u32)
        ensures
            r == self.ty,
    {
        self.ty
    }

    /// The network details, present exactly on Ethernet and wireless
    /// interfaces.
    ///
    /// The presence is keyed on the Ethernet or wireless bit being set,
    /// deliberately not on the USB bit being absent: a type word with
    /// neither family's bit — unknown or raw — names no network half, so
    /// it yields nothing here, as in [`DeviceBaseInfo::get_net_info`].
    pub fn net_info(&self) -> (r: Option<&NetInfo>)
        ensures
            r is Some <==> has_net_info(self.ty),
            r matches Some(n) ==> n == &self.net,
    {
        let t = self.type_();
        if crate::util::bit_is_set(t, crate::flags::TY_INTERFACE_ETHERNET) || crate::util::bit_is_set(
            t,
            crate::flags::TY_INTERFACE_IEEE80211,
        ) {
            Some(&self.net)
        } else {
            None
        }
    }
}

/// Everything the vendor reports about one discovered device.
///
/// The vendor's layout overlays the network and USB details in a union
/// discriminated by the owning interface's type bits; here both halves are
/// held side by side and the getters apply the discrimination.
#[derive(Debug)]
pub struct DeviceBaseInfo {
    pub iface: InterfaceInfo,
    pub id: String,
    pub vendor_name: String,
    pub user_defined_name: String,
    pub model_name: String,
    pub hardware_version: VersionInfo,
    pub firmware_version: VersionInfo,
    pub net: NetInfo,
    pub usb: UsbInfo,
    pub build_hash: String,
    pub config_version: String,
}

impl Clone for DeviceBaseInfo {
    fn clone(&self) -> (r: Self)
        ensures
            r == *self,
    {
        DeviceBaseInfo {
            iface: self.iface.clone(),
            id: self.id.clone(),
            vendor_name: self.vendor_name.clone(),
            user_defined_name: self.user_defined_name.clone(),
            model_name: self.model_name.clone(),
            hardware_version: self.hardware_version,
            firmware_version: self.firmware_version,
            net: self.net.clone(),
            usb: self.usb,
            build_hash: self.build_hash.clone(),
            config_version: self.config_version.clone(),
        }
    }
}

impl DeviceBaseInfo {
    /// The interface this device was discovered through.
    pub fn iface(&self) -> (r: &InterfaceInfo)
        ensures
            r == &self.iface,
    {
        &self.iface
    }

    pub fn id(&self) -> (r: &str)
        ensures
            r@ == self.id@,
    {
        self.id.as_str()
    }

    pub fn vender_name(&self) -> (r: &str)
        ensures
            r@ == self.vendor_name@,
    {
        self.vendor_name.as_str()
    }

    pub fn user_defined_name(&self) -> (r: &str)
        ensures
            r@ == self.user_defined_name@,
    {
        self.user_defined_name.as_str()
    }

    pub fn model_name(&self) -> (r: &str)
        ensures
            r@ == self.model_name@,
    {
        self.model_name.as_str()
    }

    pub fn hardware_version(&self) -> (r: &VersionInfo)
        ensures
            r == &self.hardware_version,
    {
        &self.hardware_version
    }

    pub fn firmware_version(&self) -> (r: &VersionInfo)
        ensures
            r == &self.firmware_version,
    {
        &self.firmware_version
    }

    /// The network half of the overlaid address details, present exactly
    /// where the owning interface is Ethernet or wireless.
    pub fn get_net_info(&self) -> (r: Option<&NetInfo>)
        ensures
            r is Some <==> has_net_info(self.iface.ty),
            r matches Some(n) ==> n == &self.net,
    {
        let t = self.iface.type_();
        if crate::util::bit_is_set(t, crate::flags::TY_INTERFACE_ETHERNET) || crate::util::bit_is_set(
            t,
            crate::flags::TY_INTERFACE_IEEE80211,
        ) {
            Some(&self.net)
        } else {
            None
        }
    }

    /// The USB half of the overlaid address details, present exactly where
    /// the owning interface is USB.
    pub fn get_usb_info(&self) -> (r: Option<&UsbInfo>)
        ensures
            r is Some <==> has_usb_info(self.iface.ty),
            r matches Some(u) ==> u == &self.usb,
    {
        let t = self.iface.type_();
        if crate::util::bit_is_set(t, crate::flags::TY_INTERFACE_USB) {
            Some(&self.usb)
        } else {
            None
        }
    }

    pub fn build_hash(&self) -> (r: &str)
        ensures
            r@ == self.build_hash@,
    {
        self.build_hash.as_str()
    }

    pub fn config_version(&self) -> (r: &str)
        ensures
            r@ == self.config_version@,
    {
        self.config_version.as_str()
    }
}

} // verus!
