//! Bluetooth devices as the control tool lists them, and the reading of its
//! listing and of its per-device report.

use crate::control::Request;
use crate::text::{
    chars_of, contains, has_prefix, is_whitespace, lemma_run_from, lemma_run_length,
    lemma_tokens_between, lines, lines_of, occurs_in, run_length, skip_run, starts_with,
    token_count, token_starts_at, tokens_before, views_of,
};
use vstd::prelude::*;

verus! {

/// One Bluetooth peripheral known to the adapter, as it stood when the tool
/// was asked.
#[derive(Debug, Clone, PartialEq, Eq)]
pub struct BluetoothDevice {
    /// Hardware address, as the tool printed it.
    pub mac: String,
    /// Human-readable label; may be empty and need not be unique.
    pub name: String,
    /// An active link exists.
    pub connected: bool,
    /// The device is in the adapter's paired set.
    pub paired: bool,
}

/// What a `BluetoothDevice` holds, as plain values.
pub ghost struct DeviceModel {
    pub mac: Seq<char>,
    pub name: Seq<char>,
    pub connected: bool,
    pub paired: bool,
}

impl View for BluetoothDevice {
    type V = DeviceModel;

    open spec fn view(&self) -> DeviceModel {
        DeviceModel {
            mac: self.mac@,
            name: self.name@,
            connected: self.connected,
            paired: self.paired,
        }
    }
}

/// The models of a list of devices, in order.
pub open spec fn models_of(devices: Seq<BluetoothDevice>) -> Seq<DeviceModel> {
    devices.map_values(|d: BluetoothDevice| d@)
}

/// The word and the space that open a device line: `"Device "`.
pub open spec fn device_prefix() -> Seq<char> {
    seq!['D', 'e', 'v', 'i', 'c', 'e', ' ']
}

/// The text whose presence in a device report means an active link.
pub open spec fn connected_marker() -> Seq<char> {
    "Connected: yes"@
}

/// The offset at which the address of a device line begins: behind the
/// prefix and any further white space.
pub open spec fn address_start(line: Seq<char>) -> int {
    7 + run_length(line.subrange(7, line.len() as int), true)
}

/// The offset at which the address of a device line ends: the first white
/// space at or after its start, or the end of the line.
pub open spec fn address_end(line: Seq<char>) -> int {
    address_start(line) + run_length(
        line.subrange(address_start(line), line.len() as int),
        false,
    )
}

/// The offset at which the third token of a device line begins: behind the
/// address and the white space that follows it; the length of the line where
/// there is no third token.
pub open spec fn third_token_start(line: Seq<char>) -> int {
    address_end(line) + run_length(line.subrange(address_end(line), line.len() as int), true)
}

/// The device that a line of the listing describes, if it describes one.
///
/// A device line begins with `"Device "` and holds at least three tokens,
/// tokens being set apart by white space. The address is its second token.
/// The name is all that stands behind the one white-space character that
/// ends the address, up to the end of the line, taken as it stands. A line
/// that does not begin with the prefix, or holds fewer than three tokens,
/// describes no device. A parsed device is never yet connected.
pub open spec fn device_of_line(line: Seq<char>, paired: bool) -> Option<DeviceModel> {
    if has_prefix(line, device_prefix()) && third_token_start(line) < line.len() {
        Some(
            DeviceModel {
                mac: line.subrange(address_start(line), address_end(line)),
                name: line.subrange(address_end(line) + 1, line.len() as int),
                connected: false,
                paired,
            },
        )
    } else {
        None
    }
}

/// The devices that a sequence of lines describes, in the order of the
/// lines; lines that describe none are passed over.
pub open spec fn devices_in(lines: Seq<Seq<char>>, paired: bool) -> Seq<DeviceModel>
    decreases lines.len(),
{
    if lines.len() == 0 {
        Seq::empty()
    } else {
        let head = devices_in(lines.drop_last(), paired);
        match device_of_line(lines.last(), paired) {
            Some(d) => head.push(d),
            None => head,
        }
    }
}

/// Whether a device report speaks of an active link. A report that could not
/// be had counts as none.
pub open spec fn report_connected(info: Option<Seq<char>>) -> bool {
    match info {
        Some(text) => occurs_in(text, connected_marker()),
        None => false,
    }
}

/// A line describes a device exactly where it begins with the prefix and
/// holds at least three tokens. Its address is then the line's second token:
/// not empty, free of white space, begun behind exactly one earlier token and
/// ended by white space.
pub proof fn lemma_device_line_tokens(line: Seq<char>, paired: bool)
    ensures
        device_of_line(line, paired) is Some <==> has_prefix(line, device_prefix())
            && token_count(line) >= 3,
        device_of_line(line, paired) is Some ==> {
            &&& 7 <= address_start(line) < address_end(line) < third_token_start(line)
                < line.len()
            &&& token_starts_at(line, address_start(line))
            &&& tokens_before(line, address_start(line)) == 1
            &&& forall|i: int|
                address_start(line) <= i < address_end(line) ==> !is_whitespace(
                    #[trigger] line[i],
                )
            &&& is_whitespace(line[address_end(line)])
            &&& token_starts_at(line, third_token_start(line))
            &&& tokens_before(line, third_token_start(line)) == 2
        },
{
    if has_prefix(line, device_prefix()) {
        let n = line.len() as int;
        let a = address_start(line);
        let b = address_end(line);
        let c = third_token_start(line);
        let head = line.subrange(0, 7);
        assert(head == device_prefix());
        assert forall|i: int| 0 <= i < 7 implies line[i] == device_prefix()[i] by {
            assert(head[i] == line[i]);
        }
        assert(!is_whitespace('D') && !is_whitespace('e') && !is_whitespace('v')
            && !is_whitespace('i') && !is_whitespace('c') && is_whitespace(' '));
        lemma_run_from(line, 7, true);
        lemma_run_from(line, a, false);
        lemma_run_from(line, b, true);
        assert(token_starts_at(line, 0));
        assert forall|i: int| 0 < i < a implies !token_starts_at(line, i) by {
            if i < 6 {
                assert(!is_whitespace(line[i - 1]));
            } else {
                assert(is_whitespace(line[i]));
            }
        }
        lemma_tokens_between(line, 0, a);
        assert(tokens_before(line, 0) == 0);
        assert(tokens_before(line, a) == 1);
        if a < n {
            assert(is_whitespace(line[a - 1]));
            assert(token_starts_at(line, a));
            assert(a < b);
            assert forall|i: int| a < i < b implies !token_starts_at(line, i) by {
                assert(!is_whitespace(line[i - 1]));
            }
            lemma_tokens_between(line, a, b);
            assert forall|i: int| b <= i < c implies !token_starts_at(line, i) by {
                assert(is_whitespace(line[i]));
            }
            lemma_tokens_between(line, b, c);
            assert(tokens_before(line, c) == 2);
            if c < n {
                assert(b < c);
                assert(is_whitespace(line[c - 1]));
                assert(token_starts_at(line, c));
                lemma_tokens_between(line, c, n);
            }
        }
    }
}

/// A line made of the prefix, an address that is not empty and holds no white
/// space, one space, and a name that holds more than white space describes
/// the device with that address and that name, the name's own spaces kept.
pub proof fn lemma_well_formed_line(mac: Seq<char>, name: Seq<char>, paired: bool)
    requires
        mac.len() > 0,
        forall|j: int| 0 <= j < mac.len() ==> !is_whitespace(mac[j]),
        exists|j: int| 0 <= j < name.len() && !is_whitespace(name[j]),
    ensures
        device_of_line(device_prefix() + mac + seq![' '] + name, paired) == Some(
            DeviceModel { mac, name, connected: false, paired },
        ),
{
    let line = device_prefix() + mac + seq![' '] + name;
    let n = line.len() as int;
    let m = mac.len() as int;
    assert(line.subrange(0, 7) =~= device_prefix());
    assert(is_whitespace(' '));
    let after_prefix = line.subrange(7, n);
    assert(after_prefix[0] == mac[0]);
    lemma_run_length(after_prefix, true, 0);
    assert(address_start(line) == 7);
    assert forall|j: int| 0 <= j < m implies !is_whitespace(after_prefix[j]) by {
        assert(after_prefix[j] == mac[j]);
    }
    assert(after_prefix[m] == ' ');
    lemma_run_length(after_prefix, false, m);
    assert(address_end(line) == 7 + m);
    lemma_run_from(line, 7 + m, true);
    let j = choose|j: int| 0 <= j < name.len() && !is_whitespace(name[j]);
    assert(line[7 + m + 1 + j] == name[j]);
    assert(third_token_start(line) < n);
    assert(line.subrange(7, 7 + m) =~= mac);
    assert(line.subrange(7 + m + 1, n) =~= name);
}

/// A line that does not begin with the prefix describes no device, and adds
/// nothing to the devices of the lines before it.
pub proof fn lemma_other_line_excluded(before: Seq<Seq<char>>, line: Seq<char>, paired: bool)
    requires
        !has_prefix(line, device_prefix()),
    ensures
        device_of_line(line, paired) is None,
        devices_in(before.push(line), paired) == devices_in(before, paired),
{
    assert(before.push(line).drop_last() =~= before);
}

/// A line of fewer than three tokens describes no device, whatever it begins
/// with, and adds nothing to the devices of the lines before it.
pub proof fn lemma_short_line_dropped(before: Seq<Seq<char>>, line: Seq<char>, paired: bool)
    requires
        token_count(line) < 3,
    ensures
        device_of_line(line, paired) is None,
        devices_in(before.push(line), paired) == devices_in(before, paired),
{
    lemma_device_line_tokens(line, paired);
    assert(before.push(line).drop_last() =~= before);
}

/// A listing gives at most one device per line, and each device read from it
/// carries the given paired flag and is not yet connected.
pub proof fn lemma_listed_devices(lines: Seq<Seq<char>>, paired: bool)
    ensures
        devices_in(lines, paired).len() <= lines.len(),
        forall|i: int|
            0 <= i < devices_in(lines, paired).len() ==> {
                &&& (#[trigger] devices_in(lines, paired)[i]).paired == paired
                &&& !devices_in(lines, paired)[i].connected
            },
    decreases lines.len(),
{
    if lines.len() > 0 {
        lemma_listed_devices(lines.drop_last(), paired);
    }
}

/// Reads one line of the tool's device listing. The line gives a device
/// exactly where it begins with `"Device "` and holds at least three tokens.
pub fn parse_device_line(line: &str, is_paired: bool) -> (r: Option<BluetoothDevice>)
    ensures
        match r {
            Some(d) => device_of_line(line@, is_paired) == Some(d@),
            None => device_of_line(line@, is_paired) is None,
        },
        r is Some <==> has_prefix(line@, device_prefix()) && token_count(line@) >= 3,
{
    proof {
        lemma_device_line_tokens(line@, is_paired);
    }
    let chars = chars_of(line);
    let prefix = chars_of("Device ");
    proof {
        reveal_strlit("Device ");
        assert(prefix@ =~= device_prefix());
    }
    if !starts_with(&chars, &prefix) {
        return None;
    }
    let n = chars.len();
    let start = skip_run(&chars, 7, true);
    let end = skip_run(&chars, start, false);
    let third = skip_run(&chars, end, true);
    if third >= n {
        return None;
    }
    let mac = line.substring_char(start, end).to_owned();
    let name = line.substring_char(end + 1, n).to_owned();
    Some(BluetoothDevice { mac, name, connected: false, paired: is_paired })
}

/// Whether the tool's report on one device speaks of an active link: the
/// report holds `"Connected: yes"`. `None` stands for a report that could not
/// be had.
pub fn is_device_connected(info: Option<&str>) -> (connected: bool)
    ensures
        connected == report_connected(
            match info {
                Some(text) => Some(text@),
                None => None,
            },
        ),
{
    match info {
        Some(text) => contains(text, "Connected: yes"),
        None => false,
    }
}

/// Reads the tool's listing of paired devices: one device for each line that
/// describes one, in the listing's order, each paired and not yet known to be
/// connected. `None` stands for a listing that could not be had and gives no
/// devices.
pub fn get_bluetooth_devices(listing: Option<&str>) -> (devices: Vec<BluetoothDevice>)
    ensures
        models_of(devices@) == match listing {
            Some(text) => devices_in(lines_of(text@), true),
            None => Seq::empty(),
        },
{
    let mut devices: Vec<BluetoothDevice> = Vec::new();
    assert(models_of(devices@) =~= Seq::<DeviceModel>::empty());
    if let Some(text) = listing {
        let all = lines(text);
        let ghost wanted = lines_of(text@);
        let mut i: usize = 0;
        while i < all.len()
            invariant
                i <= all.len(),
                views_of(all@) == wanted,
                models_of(devices@) == devices_in(wanted.take(i as int), true),
            decreases all.len() - i,
        {
            let ghost before = models_of(devices@);
            let parsed = parse_device_line(all[i].as_str(), true);
            proof {
                assert(wanted[i as int] == all[i as int]@);
                assert(wanted.take(i + 1).drop_last() =~= wanted.take(i as int));
                assert(wanted.take(i + 1).last() == wanted[i as int]);
            }
            if let Some(device) = parsed {
                devices.push(device);
                proof {
                    assert(models_of(devices@) =~= before.push(device@));
                }
            }
            i += 1;
        }
        proof {
            assert(wanted.take(i as int) =~= wanted);
        }
    }
    devices
}

/// The same device with `connected` set from the tool's report on it.
pub fn with_connection(device: BluetoothDevice, info: Option<&str>) -> (r: BluetoothDevice)
    ensures
        r@ == (DeviceModel {
            connected: report_connected(
                match info {
                    Some(text) => Some(text@),
                    None => None,
                },
            ),
            ..device@
        }),
{
    let connected = is_device_connected(info);
    BluetoothDevice { mac: device.mac, name: device.name, connected, paired: device.paired }
}

/// The report on the device at place `i`, where `infos` holds one; a place
/// past its end, like a report that could not be had, holds none.
pub open spec fn info_at(infos: Seq<Option<String>>, i: int) -> Option<Seq<char>> {
    if 0 <= i < infos.len() {
        match infos[i] {
            Some(text) => Some(text@),
            None => None,
        }
    } else {
        None
    }
}

/// The second pass over a listing: sets `connected` on each device from the
/// tool's report on it, `infos` holding the reports in the order of the
/// devices. Nothing else changes.
pub fn mark_connected(devices: &mut Vec<BluetoothDevice>, infos: &Vec<Option<String>>)
    ensures
        final(devices)@.len() == old(devices)@.len(),
        forall|i: int|
            0 <= i < old(devices)@.len() ==> (#[trigger] final(devices)@[i])@ == (DeviceModel {
                connected: report_connected(info_at(infos@, i)),
                ..old(devices)@[i]@
            }),
{
    let n = devices.len();
    let mut i: usize = 0;
    while i < n
        invariant
            i <= n,
            n == devices@.len(),
            n == old(devices)@.len(),
            forall|j: int|
                0 <= j < i ==> (#[trigger] devices@[j])@ == (DeviceModel {
                    connected: report_connected(info_at(infos@, j)),
                    ..old(devices)@[j]@
                }),
            forall|j: int| i <= j < n ==> devices@[j] == old(devices)@[j],
        decreases n - i,
    {
        let connected = if i < infos.len() {
            match &infos[i] {
                Some(text) => is_device_connected(Some(text.as_str())),
                None => false,
            }
        } else {
            false
        };
        let marked = BluetoothDevice {
            mac: devices[i].mac.clone(),
            name: devices[i].name.clone(),
            connected,
            paired: devices[i].paired,
        };
        devices.set(i, marked);
        i += 1;
    }
}

/// The requests of the second pass: one report per device, in the order of
/// the devices, each asked for by the device's address.
pub fn info_requests(devices: &Vec<BluetoothDevice>) -> (requests: Vec<Request>)
    ensures
        requests@.len() == devices@.len(),
        forall|i: int|
            0 <= i < devices@.len() ==> (#[trigger] requests@[i] matches Request::Info(mac)
                && mac@ == devices@[i].mac@),
{
    let mut requests: Vec<Request> = Vec::new();
    let mut i: usize = 0;
    while i < devices.len()
        invariant
            i <= devices.len(),
            requests@.len() == i,
            forall|j: int|
                0 <= j < i ==> (#[trigger] requests@[j] matches Request::Info(mac) && mac@
                    == devices@[j].mac@),
        decreases devices.len() - i,
    {
        requests.push(Request::Info(devices[i].mac.clone()));
        i += 1;
    }
    requests
}

} // verus!
