//! The device locator and the interface locator.
//!
//! Both are linear scans in descriptor order in which the first match wins.

use crate::descriptor::{ConfigDescriptor, DeviceDescriptor, InterfaceDescriptor, InterfaceDescriptorView};
use crate::error::UsbError;
use vstd::prelude::*;

verus! {

/// A descriptor read that a scan passes over: it succeeded, on a device that is
/// not the console.
pub open spec fn passed_over(read: Result<DeviceDescriptor, UsbError>) -> bool {
    read matches Ok(descriptor) && !descriptor.is_console()
}

/// Whether a scan of `devices` ends at index `i`: every earlier read is passed
/// over, and the read at `i` failed or shows the console.
pub open spec fn scan_ends_at(devices: Seq<Result<DeviceDescriptor, UsbError>>, i: int) -> bool {
    &&& 0 <= i < devices.len()
    &&& !passed_over(devices[i])
    &&& forall|k: int| 0 <= k < i ==> passed_over(#[trigger] devices[k])
}

/// The outcome of scanning `devices`, the descriptor reads of the attached
/// devices in enumeration order.
///
/// Where the scan ends on the console, the outcome is its index; where it ends
/// on a failed read, that read's error; where it ends nowhere, `NotFound`.
pub open spec fn device_scan(devices: Seq<Result<DeviceDescriptor, UsbError>>) -> Result<
    usize,
    UsbError,
> {
    if exists|i: int| scan_ends_at(devices, i) {
        let i = choose|i: int| scan_ends_at(devices, i);
        match devices[i] {
            Ok(_) => Ok(i as usize),
            Err(error) => Err(error),
        }
    } else {
        Err(UsbError::NotFound)
    }
}

/// A scan ends at one index at most.
pub proof fn lemma_scan_end_unique(
    devices: Seq<Result<DeviceDescriptor, UsbError>>,
    i: int,
    j: int,
)
    requires
        scan_ends_at(devices, i),
        scan_ends_at(devices, j),
    ensures
        i == j,
{
    if i < j {
        assert(passed_over(devices[i]));
    } else if j < i {
        assert(passed_over(devices[j]));
    }
}

/// Finds the console among the attached devices.
///
/// `devices` holds, in enumeration order, what reading each device's descriptor
/// gave. The first device with the console's vendor and product ID wins. A
/// failed read that comes before it ends the scan with that read's error: no
/// device is skipped.
pub fn find_device(devices: &[Result<DeviceDescriptor, UsbError>]) -> (r: Result<usize, UsbError>)
    ensures
        r == device_scan(devices@),
{
    let mut i: usize = 0;
    while i < devices.len()
        invariant
            i <= devices.len(),
            forall|k: int| 0 <= k < i ==> passed_over(#[trigger] devices@[k]),
        decreases devices.len() - i,
    {
        match &devices[i] {
            Ok(descriptor) => {
                if descriptor.matches_console() {
                    proof {
                        assert(scan_ends_at(devices@, i as int));
                        let chosen = choose|c: int| scan_ends_at(devices@, c);
                        lemma_scan_end_unique(devices@, chosen, i as int);
                    }
                    return Ok(i);
                }
            },
            Err(error) => {
                proof {
                    assert(scan_ends_at(devices@, i as int));
                    let chosen = choose|c: int| scan_ends_at(devices@, c);
                    lemma_scan_end_unique(devices@, chosen, i as int);
                }
                return Err(*error);
            },
        }
        i += 1;
    }
    proof {
        assert forall|c: int| !scan_ends_at(devices@, c) by {
            if 0 <= c < devices@.len() {
                assert(passed_over(devices@[c]));
            }
        }
    }
    Err(UsbError::NotFound)
}

/// Where no attached device is the console and every descriptor read
/// succeeds, the scan reports `NotFound`.
pub proof fn law_absent_console_not_found(devices: Seq<Result<DeviceDescriptor, UsbError>>)
    requires
        forall|i: int| 0 <= i < devices.len() ==> passed_over(#[trigger] devices[i]),
    ensures
        device_scan(devices) == Err::<usize, UsbError>(UsbError::NotFound),
{
    assert forall|c: int| !scan_ends_at(devices, c) by {
        if 0 <= c < devices.len() {
            assert(passed_over(devices[c]));
        }
    }
}

/// Where every descriptor read succeeds and exactly one attached device is the
/// console, the scan returns that device, wherever it stands in the
/// enumeration.
pub proof fn law_single_console_found(
    devices: Seq<Result<DeviceDescriptor, UsbError>>,
    position: int,
)
    requires
        devices.len() <= usize::MAX,
        0 <= position < devices.len(),
        forall|i: int| 0 <= i < devices.len() ==> (#[trigger] devices[i]).is_ok(),
        forall|i: int|
            0 <= i < devices.len() ==> ((#[trigger] devices[i]).unwrap().is_console() <==> i
                == position),
    ensures
        device_scan(devices) == Ok::<usize, UsbError>(position as usize),
{
    assert forall|k: int| 0 <= k < position implies passed_over(#[trigger] devices[k]) by {
        assert(devices[k].is_ok());
        assert(!devices[k].unwrap().is_console());
    }
    assert(devices[position].is_ok());
    assert(devices[position].unwrap().is_console());
    assert(scan_ends_at(devices, position));
    let chosen = choose|c: int| scan_ends_at(devices, c);
    lemma_scan_end_unique(devices, chosen, position);
}

/// Whether `(i, j)` is a position in `config`: alternate setting `j` of
/// interface `i`.
pub open spec fn setting_at(config: Seq<Seq<InterfaceDescriptorView>>, i: int, j: int) -> bool {
    0 <= i < config.len() && 0 <= j < config[i].len()
}

/// Whether position `(a, b)` comes before `(i, j)` in descriptor order:
/// interfaces in their order, and within an interface its alternate settings in
/// theirs.
pub open spec fn comes_before(a: int, b: int, i: int, j: int) -> bool {
    a < i || (a == i && b < j)
}

/// Whether `(i, j)` is the position of the first setting in `config`, in
/// descriptor order, with the console's class and subclass code.
pub open spec fn first_console_setting_at(
    config: Seq<Seq<InterfaceDescriptorView>>,
    i: int,
    j: int,
) -> bool {
    &&& setting_at(config, i, j)
    &&& config[i][j].is_console()
    &&& forall|a: int, b: int|
        setting_at(config, a, b) && comes_before(a, b, i, j) ==> !(#[trigger] config[a][b]).is_console()
}

/// The position of the console interface in `config`, if it has one.
pub open spec fn console_setting(config: Seq<Seq<InterfaceDescriptorView>>) -> Option<(int, int)> {
    if exists|i: int, j: int| first_console_setting_at(config, i, j) {
        Some(choose|i: int, j: int| first_console_setting_at(config, i, j))
    } else {
        None
    }
}

/// A configuration has one first console setting at most.
pub proof fn lemma_first_console_setting_unique(
    config: Seq<Seq<InterfaceDescriptorView>>,
    i: int,
    j: int,
    a: int,
    b: int,
)
    requires
        first_console_setting_at(config, i, j),
        first_console_setting_at(config, a, b),
    ensures
        i == a,
        j == b,
{
    if comes_before(a, b, i, j) {
        assert(!config[a][b].is_console());
    } else if comes_before(i, j, a, b) {
        assert(!config[i][j].is_console());
    }
}

/// Finds the console interface in the active configuration of the device.
///
/// Interfaces are visited in descriptor order, and the alternate settings of
/// each in theirs. The first setting with the console's class and subclass
/// code wins. `NotFound` is the only error.
pub fn find_interface_descriptor(config: &ConfigDescriptor) -> (r: Result<
    &InterfaceDescriptor,
    UsbError,
>)
    ensures
        match console_setting(config@) {
            Some((i, j)) => r matches Ok(descriptor) && *descriptor
                == config.interfaces@[i].descriptors@[j],
            None => r == Err::<&InterfaceDescriptor, UsbError>(UsbError::NotFound),
        },
{
    let mut i: usize = 0;
    while i < config.interfaces.len()
        invariant
            i <= config.interfaces.len(),
            forall|a: int, b: int|
                setting_at(config@, a, b) && a < i ==> !(#[trigger] config@[a][b]).is_console(),
        decreases config.interfaces.len() - i,
    {
        let interface = &config.interfaces[i];
        assert(config@[i as int] == interface@);
        let mut j: usize = 0;
        while j < interface.descriptors.len()
            invariant
                i < config.interfaces.len(),
                j <= interface.descriptors.len(),
                *interface == config.interfaces@[i as int],
                config@[i as int] == interface@,
                forall|a: int, b: int|
                    setting_at(config@, a, b) && comes_before(a, b, i as int, j as int) ==> !(
                    #[trigger] config@[a][b]).is_console(),
            decreases interface.descriptors.len() - j,
        {
            let descriptor = &interface.descriptors[j];
            assert(config@[i as int][j as int] == descriptor@);
            if descriptor.matches_console() {
                proof {
                    assert(first_console_setting_at(config@, i as int, j as int));
                    let (ci, cj) = choose|ci: int, cj: int|
                        first_console_setting_at(config@, ci, cj);
                    lemma_first_console_setting_unique(config@, ci, cj, i as int, j as int);
                }
                return Ok(descriptor);
            }
            j += 1;
        }
        i += 1;
    }
    proof {
        assert forall|ci: int, cj: int| !first_console_setting_at(config@, ci, cj) by {
            if setting_at(config@, ci, cj) {
                assert(!config@[ci][cj].is_console());
            }
        }
    }
    Err(UsbError::NotFound)
}

/// The interface locator returns the first setting with the console's class
/// and subclass code, however many other settings come before or after it,
/// and none where no setting has them.
pub proof fn law_first_console_setting(config: Seq<Seq<InterfaceDescriptorView>>)
    ensures
        match console_setting(config) {
            Some((i, j)) => first_console_setting_at(config, i, j),
            None => forall|i: int, j: int|
                setting_at(config, i, j) ==> !(#[trigger] config[i][j]).is_console(),
        },
{
    if !exists|i: int, j: int| first_console_setting_at(config, i, j) {
        assert forall|i: int, j: int| setting_at(config, i, j) implies !(
        #[trigger] config[i][j]).is_console() by {
            if config[i][j].is_console() {
                lemma_console_setting_exists(config, i, j);
            }
        }
    }
}

/// A configuration with a console setting at `(i, j)` has a first one, at or
/// before `(i, j)`.
pub proof fn lemma_console_setting_exists(
    config: Seq<Seq<InterfaceDescriptorView>>,
    i: int,
    j: int,
)
    requires
        setting_at(config, i, j),
        config[i][j].is_console(),
    ensures
        exists|a: int, b: int| first_console_setting_at(config, a, b),
{
    lemma_first_in_prefix(config, i, j, 0, 0);
}

/// Induction behind [`lemma_console_setting_exists`]: scanning from `(a, b)`,
/// with no console setting before it, reaches a first one.
proof fn lemma_first_in_prefix(
    config: Seq<Seq<InterfaceDescriptorView>>,
    i: int,
    j: int,
    a: int,
    b: int,
)
    requires
        setting_at(config, i, j),
        config[i][j].is_console(),
        0 <= a <= i,
        0 <= b,
        a == i ==> b <= j,
        b <= config[a].len(),
        forall|x: int, y: int|
            setting_at(config, x, y) && comes_before(x, y, a, b) ==> !(
            #[trigger] config[x][y]).is_console(),
    ensures
        exists|x: int, y: int| first_console_setting_at(config, x, y),
    decreases i - a, config[a].len() - b,
{
    if b < config[a].len() {
        if config[a][b].is_console() {
            assert(first_console_setting_at(config, a, b));
        } else {
            lemma_first_in_prefix(config, i, j, a, b + 1);
        }
    } else {
        lemma_first_in_prefix(config, i, j, a + 1, 0);
    }
}

} // verus!
