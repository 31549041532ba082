//! The handle lifecycle, verified over an explicit hardware description.
//!
//! The native library keeps its discovery state behind opaque handles: a
//! context must be initialised before anything else, interfaces become
//! visible only after an update call, devices only after the owning
//! interface's own update call, and opening anything is answered with a
//! status code. This module states that bookkeeping exactly. An
//! [`SdkModel`] describes what is attached — the library version, the
//! interfaces, and each interface's devices — and [`Context`],
//! [`InterfaceHandle`] and [`DeviceHandle`] carry the session through the
//! same calls the native library answers, with each call's outcome pinned
//! down against the description.

use vstd::prelude::*;
use crate::status::{spec_error_string, ty_error_string, DeviceError, ErrorCode};
use crate::types::{DeviceBaseInfo, InterfaceInfo, VersionInfo};
use crate::util::str_eq;

verus! {

/// One attached device: what the vendor reports about it, and the
/// firmware error word that opening it would hand back (zero where it
/// opens cleanly).
#[derive(Debug)]
pub struct DeviceModel {
    pub info: DeviceBaseInfo,
    pub firmware_errcode: u32,
}

impl Clone for DeviceModel {
    fn clone(&self) -> (r: Self)
        ensures
            r == *self,
    {
        DeviceModel { info: self.info.clone(), firmware_errcode: self.firmware_errcode }
    }
}

/// One attached interface and the devices discoverable through it.
#[derive(Debug)]
pub struct InterfaceModel {
    pub info: InterfaceInfo,
    pub devices: Vec<DeviceModel>,
}

/// The hardware description a session runs against: the native library's
/// version and every attached interface.
#[derive(Debug)]
pub struct SdkModel {
    pub version: VersionInfo,
    pub interfaces: Vec<InterfaceModel>,
}

/// The interface identifiers of `s`, in order.
pub open spec fn iface_ids(s: Seq<InterfaceModel>) -> Seq<Seq<char>> {
    s.map_values(|m: InterfaceModel| m.info.id@)
}

/// The interface descriptions of `s`, in order.
pub open spec fn iface_infos(s: Seq<InterfaceModel>) -> Seq<InterfaceInfo> {
    s.map_values(|m: InterfaceModel| m.info)
}

/// The device identifiers of `s`, in order.
pub open spec fn device_ids(s: Seq<DeviceModel>) -> Seq<Seq<char>> {
    s.map_values(|d: DeviceModel| d.info.id@)
}

/// The device IP texts of `s`, in order.
pub open spec fn device_ips(s: Seq<DeviceModel>) -> Seq<Seq<char>> {
    s.map_values(|d: DeviceModel| d.info.net.ip@)
}

/// The device descriptions of `s`, in order.
pub open spec fn device_infos(s: Seq<DeviceModel>) -> Seq<DeviceBaseInfo> {
    s.map_values(|d: DeviceModel| d.info)
}

/// How many entries a list query returns: all of them where `n` is zero
/// (the conventional ask-for-everything request), else at most `n`.
pub open spec fn take_count(n: usize, avail: nat) -> nat {
    let want: nat = if n == 0 {
        avail
    } else {
        n as nat
    };
    if want <= avail {
        want
    } else {
        avail
    }
}

/// An element-by-element copy of a device list.
fn clone_devices(v: &Vec<DeviceModel>) -> (r: Vec<DeviceModel>)
    ensures
        r@ == v@,
{
    let mut out: Vec<DeviceModel> = Vec::new();
    let mut i: usize = 0;
    while i < v.len()
        invariant
            i <= v@.len(),
            out@ == v@.take(i as int),
        decreases v@.len() - i,
    {
        out.push(v[i].clone());
        proof {
            assert(v@.take(i as int + 1) =~= v@.take(i as int).push(v@[i as int]));
        }
        i += 1;
    }
    proof {
        assert(v@.take(v@.len() as int) =~= v@);
    }
    out
}

/// An open library session.
///
/// The native library answers nothing until it is initialised and reports
/// no interfaces until they are enumerated; `updated` records whether that
/// enumeration has happened, and `model` is the hardware the session runs
/// against.
#[derive(Debug)]
pub struct Context {
    pub model: SdkModel,
    pub updated: bool,
}

impl Context {
    /// The interfaces the session can currently see: none until
    /// [`Context::update_interface_list`] has run, all of the attached
    /// ones afterwards.
    pub open spec fn visible(&self) -> Seq<InterfaceModel> {
        if self.updated {
            self.model.interfaces@
        } else {
            Seq::<InterfaceModel>::empty()
        }
    }

    /// Opens a session against the given hardware description. No
    /// interface is visible until the list is updated.
    pub fn new(model: SdkModel) -> (r: Context)
        ensures
            r.model == model,
            !r.updated,
    {
        Context { model, updated: false }
    }

    /// A readable description of a raw status value.
    pub fn error_string(&self, status: i32) -> (r: &'static str)
        ensures
            r@ == spec_error_string(status),
    {
        ty_error_string(status)
    }

    /// The native library's version.
    pub fn version(&self) -> (r: VersionInfo)
        ensures
            r == self.model.version,
    {
        self.model.version
    }

    /// Enumerates the attached interfaces: afterwards every interface of
    /// the description is visible.
    pub fn update_interface_list(&mut self)
        ensures
            final(self).model == old(self).model,
            final(self).updated,
    {
        self.updated = true;
    }

    /// How many interfaces are currently visible.
    pub fn get_interface_number(&self) -> (r: usize)
        ensures
            r == self.visible().len(),
    {
        if self.updated {
            self.model.interfaces.len()
        } else {
            0
        }
    }

    /// The first visible interfaces, all of them where `n` is zero and at
    /// most `n` otherwise.
    pub fn get_interface_list(&self, n: usize) -> (r: Vec<InterfaceInfo>)
        ensures
            r@ == iface_infos(self.visible()).take(take_count(n, self.visible().len()) as int),
    {
        let mut out: Vec<InterfaceInfo> = Vec::new();
        if !self.updated {
            proof {
                assert(iface_infos(self.visible()).take(
                    take_count(n, self.visible().len()) as int,
                ) =~= out@);
            }
            return out;
        }
        let avail = self.model.interfaces.len();
        let want = if n == 0 {
            avail
        } else {
            n
        };
        let count = if want < avail {
            want
        } else {
            avail
        };
        let mut i: usize = 0;
        while i < count
            invariant
                self.updated,
                i <= count,
                count <= avail,
                avail == self.model.interfaces@.len(),
                count as nat == take_count(n, self.visible().len()),
                out@ == iface_infos(self.visible()).take(i as int),
            decreases count - i,
        {
            out.push(self.model.interfaces[i].info.clone());
            proof {
                assert(iface_infos(self.visible()).take(i as int + 1) =~= iface_infos(
                    self.visible(),
                ).take(i as int).push(self.visible()[i as int].info));
            }
            i += 1;
        }
        out
    }

    /// Whether a visible interface carries the given identifier.
    pub fn has_interface(&self, id: &str) -> (r: bool)
        ensures
            r == iface_ids(self.visible()).contains(id@),
    {
        if !self.updated {
            return false;
        }
        let n = self.model.interfaces.len();
        let mut i: usize = 0;
        while i < n
            invariant
                self.updated,
                n == self.model.interfaces@.len(),
                i <= n,
                forall|j: int| 0 <= j < i ==> iface_ids(self.visible())[j] != id@,
            decreases n - i,
        {
            if str_eq(self.model.interfaces[i].info.id.as_str(), id) {
                proof {
                    assert(iface_ids(self.visible())[i as int] == id@);
                }
                return true;
            }
            i += 1;
        }
        false
    }

    /// Opens the visible interface carrying the given identifier.
    ///
    /// Succeeds exactly where such an interface is visible, handing back a
    /// handle onto the first match; any other identifier is rejected as an
    /// invalid interface.
    pub fn open_interface(&self, id: &str) -> (r: Result<InterfaceHandle, DeviceError>)
        ensures
            r is Ok <==> iface_ids(self.visible()).contains(id@),
            r matches Ok(h) ==> (iface_ids(self.visible()).index_of_first(id@) matches Some(k)
                && h.info == self.visible()[k].info && h.devices@ == self.visible()[k].devices@
                && !h.dev_updated),
            r matches Err(e) ==> (e == DeviceError {
                errcode: ErrorCode::InvalidInterface,
                firmware_errcode: None,
            }),
    {
        if self.updated {
            let n = self.model.interfaces.len();
            let mut i: usize = 0;
            while i < n
                invariant
                    self.updated,
                    n == self.model.interfaces@.len(),
                    i <= n,
                    forall|j: int| 0 <= j < i ==> iface_ids(self.visible())[j] != id@,
                decreases n - i,
            {
                if str_eq(self.model.interfaces[i].info.id.as_str(), id) {
                    proof {
                        assert(iface_ids(self.visible())[i as int] == id@);
                        iface_ids(self.visible()).index_of_first_ensures(id@);
                    }
                    return Ok(
                        InterfaceHandle {
                            info: self.model.interfaces[i].info.clone(),
                            devices: clone_devices(&self.model.interfaces[i].devices),
                            dev_updated: false,
                        },
                    );
                }
                i += 1;
            }
        }
        Err(DeviceError { errcode: ErrorCode::InvalidInterface, firmware_errcode: None })
    }
}

/// An open interface: the interface's description, its devices, and
/// whether the device list has been enumerated yet.
#[derive(Debug)]
pub struct InterfaceHandle {
    pub info: InterfaceInfo,
    pub devices: Vec<DeviceModel>,
    pub dev_updated: bool,
}

impl InterfaceHandle {
    /// The devices the handle can currently see: none until
    /// [`InterfaceHandle::update_device_list`] has run, all of the
    /// interface's devices afterwards.
    pub open spec fn visible_devices(&self) -> Seq<DeviceModel> {
        if self.dev_updated {
            self.devices@
        } else {
            Seq::<DeviceModel>::empty()
        }
    }

    /// Enumerates the interface's devices: afterwards every device of the
    /// interface is visible.
    pub fn update_device_list(&mut self) -> (r: Result<(), DeviceError>)
        ensures
            r is Ok,
            final(self).info == old(self).info,
            final(self).devices == old(self).devices,
            final(self).dev_updated,
    {
        self.dev_updated = true;
        Ok(())
    }

    /// The first visible devices, all of them where `n` is zero and at
    /// most `n` otherwise.
    pub fn get_device_list(&self, n: usize) -> (r: Result<Vec<DeviceBaseInfo>, DeviceError>)
        ensures
            r is Ok,
            r matches Ok(v) ==> v@ == device_infos(self.visible_devices()).take(
                take_count(n, self.visible_devices().len()) as int,
            ),
    {
        let mut out: Vec<DeviceBaseInfo> = Vec::new();
        if !self.dev_updated {
            proof {
                assert(device_infos(self.visible_devices()).take(
                    take_count(n, self.visible_devices().len()) as int,
                ) =~= out@);
            }
            return Ok(out);
        }
        let avail = self.devices.len();
        let want = if n == 0 {
            avail
        } else {
            n
        };
        let count = if want < avail {
            want
        } else {
            avail
        };
        let mut i: usize = 0;
        while i < count
            invariant
                self.dev_updated,
                i <= count,
                count <= avail,
                avail == self.devices@.len(),
                count as nat == take_count(n, self.visible_devices().len()),
                out@ == device_infos(self.visible_devices()).take(i as int),
            decreases count - i,
        {
            out.push(self.devices[i].info.clone());
            proof {
                assert(device_infos(self.visible_devices()).take(i as int + 1) =~= device_infos(
                    self.visible_devices(),
                ).take(i as int).push(self.visible_devices()[i as int].info));
            }
            i += 1;
        }
        Ok(out)
    }

    /// Whether a visible device carries the given identifier.
    pub fn has_device(&self, id: &str) -> (r: Result<bool, DeviceError>)
        ensures
            r is Ok,
            r matches Ok(b) ==> b == device_ids(self.visible_devices()).contains(id@),
    {
        if !self.dev_updated {
            return Ok(false);
        }
        let n = self.devices.len();
        let mut i: usize = 0;
        while i < n
            invariant
                self.dev_updated,
                n == self.devices@.len(),
                i <= n,
                forall|j: int| 0 <= j < i ==> device_ids(self.visible_devices())[j] != id@,
            decreases n - i,
        {
            if str_eq(self.devices[i].info.id.as_str(), id) {
                proof {
                    assert(device_ids(self.visible_devices())[i as int] == id@);
                }
                return Ok(true);
            }
            i += 1;
        }
        Ok(false)
    }

    /// Opens the visible device carrying the given identifier.
    ///
    /// An identifier that names no visible device is rejected as an
    /// invalid parameter. For the first visible match, the open succeeds
    /// exactly where the device's firmware error word is zero; a non-zero
    /// word is handed back as a device error carrying that word.
    pub fn open_device(&self, id: &str) -> (r: Result<DeviceHandle, DeviceError>)
        ensures
            !device_ids(self.visible_devices()).contains(id@) ==> (r matches Err(e) && e
                == DeviceError { errcode: ErrorCode::InvalidParameter, firmware_errcode: None }),
            device_ids(self.visible_devices()).index_of_first(id@) matches Some(k) ==> (if self
                .visible_devices()[k].firmware_errcode == 0 {
                r matches Ok(h) && h.info == self.visible_devices()[k].info
            } else {
                r matches Err(e) && e == (DeviceError {
                    errcode: ErrorCode::DeviceError,
                    firmware_errcode: Some(self.visible_devices()[k].firmware_errcode),
                })
            }),
    {
        proof {
            device_ids(self.visible_devices()).index_of_first_ensures(id@);
        }
        if self.dev_updated {
            let n = self.devices.len();
            let mut i: usize = 0;
            while i < n
                invariant
                    self.dev_updated,
                    n == self.devices@.len(),
                    i <= n,
                    forall|j: int| 0 <= j < i ==> device_ids(self.visible_devices())[j] != id@,
                decreases n - i,
            {
                if str_eq(self.devices[i].info.id.as_str(), id) {
                    proof {
                        assert(device_ids(self.visible_devices())[i as int] == id@);
                        device_ids(self.visible_devices()).index_of_first_ensures(id@);
                    }
                    let fw = self.devices[i].firmware_errcode;
                    if fw != 0 {
                        return Err(
                            DeviceError {
                                errcode: ErrorCode::DeviceError,
                                firmware_errcode: Some(fw),
                            },
                        );
                    }
                    return Ok(DeviceHandle { info: self.devices[i].info.clone() });
                }
                i += 1;
            }
        }
        Err(DeviceError { errcode: ErrorCode::InvalidParameter, firmware_errcode: None })
    }

    /// Opens the visible device whose network address text equals the
    /// given one; any other address is rejected as an invalid parameter.
    pub fn open_device_with_ip(&self, ip: &str) -> (r: Result<DeviceHandle, DeviceError>)
        ensures
            r is Ok <==> device_ips(self.visible_devices()).contains(ip@),
            r matches Ok(h) ==> (device_ips(self.visible_devices()).index_of_first(ip@)
                matches Some(k) && h.info == self.visible_devices()[k].info),
            r matches Err(e) ==> (e == DeviceError {
                errcode: ErrorCode::InvalidParameter,
                firmware_errcode: None,
            }),
    {
        if self.dev_updated {
            let n = self.devices.len();
            let mut i: usize = 0;
            while i < n
                invariant
                    self.dev_updated,
                    n == self.devices@.len(),
                    i <= n,
                    forall|j: int| 0 <= j < i ==> device_ips(self.visible_devices())[j] != ip@,
                decreases n - i,
            {
                if str_eq(self.devices[i].info.net.ip.as_str(), ip) {
                    proof {
                        assert(device_ips(self.visible_devices())[i as int] == ip@);
                        device_ips(self.visible_devices()).index_of_first_ensures(ip@);
                    }
                    return Ok(DeviceHandle { info: self.devices[i].info.clone() });
                }
                i += 1;
            }
        }
        Err(DeviceError { errcode: ErrorCode::InvalidParameter, firmware_errcode: None })
    }
}

/// An open device: what the vendor reports about it.
#[derive(Debug)]
pub struct DeviceHandle {
    pub info: DeviceBaseInfo,
}

} // verus!
