//! Devices of the supported drivers, and where their attributes live.

use crate::paths::{joined_path, path_join};
use crate::text::{has_char, text_eq};
use vstd::prelude::*;
use vstd::string::{StrSliceExecFns, StringExecFns};

verus! {

/// The directory that holds one directory per driver.
pub const DRIVERS_DIR: &'static str = "/sys/bus/usb/drivers";

/// The directory, below a device, that holds its attributes.
pub const ATTRIBUTES_DIR: &'static str = "kraken";

/// Whether `name` is one of the drivers this service controls.
pub open spec fn is_supported_driver(name: Seq<char>) -> bool {
    name == "kraken"@ || name == "kraken_x62"@
}

/// Whether `name` is a single, ordinary file name: not empty, without a
/// separator, and neither "." nor "..". Joining such a name to a directory
/// stays inside that directory.
pub open spec fn is_bare_name(name: Seq<char>) -> bool {
    &&& name.len() > 0
    &&& !name.contains('/')
    &&& !(name.len() == 1 && name[0] == '.')
    &&& !(name.len() == 2 && name[0] == '.' && name[1] == '.')
}

/// Whether a directory entry below a driver is a device: devices are
/// directories whose name holds a colon.
pub open spec fn is_device_entry(name: Seq<char>, is_dir: bool) -> bool {
    name.contains(':') && is_dir
}

/// The attributes directory of a device: below the drivers directory, the
/// driver, the device, and the directory of the attributes.
pub open spec fn attributes_dir_of(driver: Seq<char>, device: Seq<char>) -> Seq<char> {
    joined_path(joined_path(joined_path("/sys/bus/usb/drivers"@, driver), device), "kraken"@)
}

/// The file of an attribute of a device, in the device's attributes
/// directory.
pub open spec fn attribute_file(driver: Seq<char>, device: Seq<char>, attribute: Seq<char>) -> Seq<
    char,
> {
    joined_path(attributes_dir_of(driver, device), attribute)
}

/// Whether `name` is a supported driver.
pub fn supported_driver(name: &str) -> (r: bool)
    ensures
        r == is_supported_driver(name@),
{
    text_eq(name, "kraken") || text_eq(name, "kraken_x62")
}

/// Whether `name` is a single, ordinary file name.
pub fn bare_name(name: &str) -> (r: bool)
    ensures
        r == is_bare_name(name@),
{
    let n: usize = name.unicode_len();
    if n == 0 {
        return false;
    }
    if has_char(name, '/') {
        return false;
    }
    if n == 1 && name.get_char(0) == '.' {
        return false;
    }
    if n == 2 && name.get_char(0) == '.' && name.get_char(1) == '.' {
        return false;
    }
    true
}

/// Whether a directory entry below a driver is a device.
pub fn device_entry(name: &str, is_dir: bool) -> (r: bool)
    ensures
        r == is_device_entry(name@, is_dir),
{
    is_dir && has_char(name, ':')
}

/// Why a pair of names is not a device.
#[derive(Clone, Copy, Debug, PartialEq, Eq, Structural)]
pub enum DeviceError {
    /// The driver is not one this service controls.
    DriverNotSupported,
    /// The device is not a single file name.
    ParamsDeviceName,
}

/// A device of a driver.
#[derive(Debug)]
pub struct Device {
    driver: String,
    device: String,
}

impl Device {
    /// The driver's name.
    pub closed spec fn driver_name(&self) -> Seq<char> {
        self.driver@
    }

    /// The device's name.
    pub closed spec fn device_name(&self) -> Seq<char> {
        self.device@
    }

    /// Whether the device belongs to a supported driver and its name cannot
    /// lead out of the driver's directory.
    pub open spec fn is_safe(&self) -> bool {
        is_supported_driver(self.driver_name()) && is_bare_name(self.device_name())
    }

    /// The attributes directory of this device.
    pub open spec fn attributes_dir_spec(&self) -> Seq<char> {
        attributes_dir_of(self.driver_name(), self.device_name())
    }

    /// A device from its two names, taken as they are.
    pub fn new(driver: &str, device: &str) -> (r: Device)
        ensures
            r.driver_name() == driver@,
            r.device_name() == device@,
    {
        Device { driver: String::from_str(driver), device: String::from_str(device) }
    }

    /// A device from two names that a client sent: the driver must be
    /// supported and the device a single file name.
    pub fn try_from(driver: &str, device: &str) -> (r: Result<Device, DeviceError>)
        ensures
            r is Ok <==> is_supported_driver(driver@) && is_bare_name(device@),
            r matches Ok(d) ==> d.driver_name() == driver@ && d.device_name() == device@
                && d.is_safe(),
            !is_supported_driver(driver@) ==> r == Err::<Device, DeviceError>(
                DeviceError::DriverNotSupported,
            ),
            is_supported_driver(driver@) && !is_bare_name(device@) ==> r == Err::<
                Device,
                DeviceError,
            >(DeviceError::ParamsDeviceName),
    {
        if !supported_driver(driver) {
            return Err(DeviceError::DriverNotSupported);
        }
        if !bare_name(device) {
            return Err(DeviceError::ParamsDeviceName);
        }
        Ok(Device::new(driver, device))
    }

    /// The driver's name.
    pub fn driver(&self) -> (r: &str)
        ensures
            r@ == self.driver_name(),
    {
        self.driver.as_str()
    }

    /// The device's name.
    pub fn device(&self) -> (r: &str)
        ensures
            r@ == self.device_name(),
    {
        self.device.as_str()
    }

    /// The directory that holds this device's attributes.
    pub fn attributes_dir(&self) -> (r: String)
        ensures
            r@ == self.attributes_dir_spec(),
    {
        let driver_dir = path_join(DRIVERS_DIR, self.driver.as_str());
        let device_dir = path_join(driver_dir.as_str(), self.device.as_str());
        path_join(device_dir.as_str(), ATTRIBUTES_DIR)
    }

    /// The file of the attribute `name` of this device.
    pub fn attribute_path(&self, name: &str) -> (r: String)
        ensures
            r@ == attribute_file(self.driver_name(), self.device_name(), name@),
    {
        let dir = self.attributes_dir();
        path_join(dir.as_str(), name)
    }
}

/// The directory of the driver `driver`.
pub fn driver_dir(driver: &str) -> (r: String)
    ensures
        r@ == joined_path("/sys/bus/usb/drivers"@, driver@),
{
    path_join(DRIVERS_DIR, driver)
}

/// The names of the supported drivers, in the order in which they are listed.
pub fn supported_drivers() -> (r: Vec<String>)
    ensures
        r@.len() == 2,
        r@[0]@ == "kraken"@,
        r@[1]@ == "kraken_x62"@,
        forall|i: int| 0 <= i < r@.len() ==> is_supported_driver(#[trigger] r@[i]@),
{
    let mut r: Vec<String> = Vec::new();
    r.push(String::from_str("kraken"));
    r.push(String::from_str("kraken_x62"));
    r
}

/// The names of the supported drivers are single file names.
pub proof fn law_supported_drivers_are_bare(driver: Seq<char>)
    requires
        is_supported_driver(driver),
    ensures
        is_bare_name(driver),
{
    reveal_strlit("kraken");
    reveal_strlit("kraken_x62");
    assert forall|i: int| 0 <= i < driver.len() implies driver[i] != '/' by {}
}

/// A single file name joined to a path that does not end in a separator is
/// that path, a separator, and the name.
pub proof fn lemma_join_bare(base: Seq<char>, name: Seq<char>)
    requires
        base.len() > 0,
        base.last() != '/',
        is_bare_name(name),
    ensures
        joined_path(base, name) == base + seq!['/'] + name,
        joined_path(base, name).last() != '/',
{
    assert(name.contains(name[0]));
    assert(name.contains(name.last()));
    assert(joined_path(base, name) =~= base + seq!['/'] + name);
    assert((base + seq!['/'] + name).last() == name.last());
}

/// The file of an attribute lies in the attribute tree: where the driver,
/// the device and the attribute are single file names, the file's path is
/// the drivers directory followed by exactly these names and the attributes
/// directory, each after one separator. Nothing in it leads upwards or away.
pub proof fn law_attribute_stays_in_tree(
    driver: Seq<char>,
    device: Seq<char>,
    attribute: Seq<char>,
)
    requires
        is_bare_name(driver),
        is_bare_name(device),
        is_bare_name(attribute),
    ensures
        attribute_file(driver, device, attribute) == "/sys/bus/usb/drivers"@ + seq!['/'] + driver
            + seq!['/'] + device + seq!['/'] + "kraken"@ + seq!['/'] + attribute,
{
    reveal_strlit("/sys/bus/usb/drivers");
    reveal_strlit("kraken");
    let root = "/sys/bus/usb/drivers"@;
    let kraken = "kraken"@;
    assert(root.last() == 's');
    lemma_join_bare(root, driver);
    let a = joined_path(root, driver);
    lemma_join_bare(a, device);
    let b = joined_path(a, device);
    assert(is_bare_name(kraken)) by {
        assert forall|i: int| 0 <= i < kraken.len() implies kraken[i] != '/' by {}
    }
    lemma_join_bare(b, kraken);
    let c = joined_path(b, kraken);
    lemma_join_bare(c, attribute);
}

} // verus!
