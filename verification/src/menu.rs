//! The tray menu: what it shows for a given adapter state and device list,
//! what each of its items asks of the control tool, and what follows once the
//! tool has answered.

use crate::control::{
    arguments_of, connect_device, disable_bluetooth, disconnect_device, enable_bluetooth,
    link_outcome, link_reported, power_outcome, power_reported, power_word, Request,
};
use crate::device::{models_of, BluetoothDevice, DeviceModel};
use vstd::prelude::*;

verus! {

/// What choosing a menu item sets off.
#[derive(Debug, Clone, PartialEq, Eq)]
pub enum MenuAction {
    /// Switch the adapter to the state it is not in.
    ToggleBluetooth,
    /// Open a link to the device with this address.
    Connect(String),
    /// Close the link to the device with this address.
    Disconnect(String),
    /// Start the application afresh.
    Restart,
    /// Leave the application.
    Quit,
}

/// One row of the tray menu.
#[derive(Debug, Clone, PartialEq, Eq)]
pub enum MenuEntry {
    /// A line of text that cannot be chosen.
    Label(String),
    /// A line of text that sets off an action when chosen.
    Item(String, MenuAction),
}

/// What the application does once an action has been dealt with.
#[derive(Debug, Clone, Copy, PartialEq, Eq, Structural)]
pub enum Next {
    /// Keep running as it is.
    Stay,
    /// Start afresh, so that the menu is rebuilt from the tool's new state.
    Restart,
    /// Exit.
    Quit,
}

/// The answer to a chosen action: a message for the desktop, if any, and how
/// the application goes on.
#[derive(Debug, Clone, PartialEq, Eq)]
pub struct Followup {
    pub notification: Option<String>,
    pub next: Next,
}

/// A `MenuAction` as plain values.
pub ghost enum ActionModel {
    ToggleBluetooth,
    Connect(Seq<char>),
    Disconnect(Seq<char>),
    Restart,
    Quit,
}

/// A `MenuEntry` as plain values.
pub ghost enum EntryModel {
    Label(Seq<char>),
    Item(Seq<char>, ActionModel),
}

/// A `Followup` as plain values.
pub ghost struct FollowupModel {
    pub notification: Option<Seq<char>>,
    pub next: Next,
}

impl View for MenuAction {
    type V = ActionModel;

    open spec fn view(&self) -> ActionModel {
        match self {
            MenuAction::ToggleBluetooth => ActionModel::ToggleBluetooth,
            MenuAction::Connect(mac) => ActionModel::Connect(mac@),
            MenuAction::Disconnect(mac) => ActionModel::Disconnect(mac@),
            MenuAction::Restart => ActionModel::Restart,
            MenuAction::Quit => ActionModel::Quit,
        }
    }
}

impl View for MenuEntry {
    type V = EntryModel;

    open spec fn view(&self) -> EntryModel {
        match self {
            MenuEntry::Label(text) => EntryModel::Label(text@),
            MenuEntry::Item(text, action) => EntryModel::Item(text@, action@),
        }
    }
}

impl View for Followup {
    type V = FollowupModel;

    open spec fn view(&self) -> FollowupModel {
        FollowupModel {
            notification: match self.notification {
                Some(text) => Some(text@),
                None => None,
            },
            next: self.next,
        }
    }
}

/// The models of a list of menu entries, in order.
pub open spec fn entries_of(menu: Seq<MenuEntry>) -> Seq<EntryModel> {
    menu.map_values(|e: MenuEntry| e@)
}

/// The name of the tray icon for an adapter state.
pub open spec fn icon_name_of(enabled: bool) -> Seq<char> {
    if enabled {
        "bluetooth"@
    } else {
        "bluetooth-disabled"@
    }
}

/// The word for an adapter state.
pub open spec fn state_word(enabled: bool) -> Seq<char> {
    if enabled {
        "Encendido"@
    } else {
        "Apagado"@
    }
}

/// The menu's first line for an adapter state.
pub open spec fn status_text_of(enabled: bool) -> Seq<char> {
    "Bluetooth: "@ + state_word(enabled)
}

/// The sign shown for a device that is paired, or is not.
pub open spec fn paired_icon(paired: bool) -> Seq<char> {
    if paired {
        "\u{1F517}"@
    } else {
        "\u{274C}"@
    }
}

/// The sign shown for a device that is connected, or is not.
pub open spec fn connected_icon(connected: bool) -> Seq<char> {
    if connected {
        "\u{1F4F1}"@
    } else {
        "\u{1F4A4}"@
    }
}

/// The text of a device's menu item: the two signs, a space, and the name.
pub open spec fn device_text_of(d: DeviceModel) -> Seq<char> {
    paired_icon(d.paired) + connected_icon(d.connected) + " "@ + d.name
}

/// The menu item of a device: choosing it closes the link of a connected
/// device and opens one to any other.
pub open spec fn device_entry_of(d: DeviceModel) -> EntryModel {
    EntryModel::Item(
        device_text_of(d),
        if d.connected {
            ActionModel::Disconnect(d.mac)
        } else {
            ActionModel::Connect(d.mac)
        },
    )
}

/// The device rows: a heading and one item for each device, in order, or a
/// single line saying that there are none.
pub open spec fn devices_submenu_of(devices: Seq<DeviceModel>) -> Seq<EntryModel> {
    if devices.len() == 0 {
        seq![EntryModel::Label("No hay dispositivos"@)]
    } else {
        seq![EntryModel::Label("=== DISPOSITIVOS ==="@)] + devices.map_values(
            |d: DeviceModel| device_entry_of(d),
        )
    }
}

/// The whole menu: the status line, the toggle, the device rows where the
/// adapter is on and else a line saying that it is off, then restart and
/// quit.
pub open spec fn tray_menu_of(enabled: bool, devices: Seq<DeviceModel>) -> Seq<EntryModel> {
    seq![
        EntryModel::Label(status_text_of(enabled)),
        EntryModel::Item("Alternar Bluetooth"@, ActionModel::ToggleBluetooth),
    ] + (if enabled {
        devices_submenu_of(devices)
    } else {
        seq![EntryModel::Label("(Bluetooth deshabilitado)"@)]
    }) + seq![
        EntryModel::Item("Reiniciar App"@, ActionModel::Restart),
        EntryModel::Item("Salir"@, ActionModel::Quit),
    ]
}

/// The number of device rows: one where there is no device, else a heading
/// and one row for each device.
pub open spec fn submenu_len(devices: Seq<DeviceModel>) -> nat {
    if devices.len() == 0 {
        1
    } else {
        1 + devices.len()
    }
}

/// The menu opens with the status line and the toggle and closes with
/// restart and quit, whatever stands between them; with the adapter on, the
/// device rows stand between them, with it off a single line.
pub proof fn lemma_tray_menu_shape(enabled: bool, devices: Seq<DeviceModel>)
    ensures
        tray_menu_of(enabled, devices).len() == if enabled {
            4 + submenu_len(devices)
        } else {
            5
        },
        tray_menu_of(enabled, devices)[0] == EntryModel::Label(status_text_of(enabled)),
        tray_menu_of(enabled, devices)[1] == EntryModel::Item(
            "Alternar Bluetooth"@,
            ActionModel::ToggleBluetooth,
        ),
        tray_menu_of(enabled, devices)[tray_menu_of(enabled, devices).len() - 2]
            == EntryModel::Item("Reiniciar App"@, ActionModel::Restart),
        tray_menu_of(enabled, devices).last() == EntryModel::Item("Salir"@, ActionModel::Quit),
        enabled ==> tray_menu_of(enabled, devices).subrange(2, 2 + submenu_len(devices) as int)
            == devices_submenu_of(devices),
        !enabled ==> tray_menu_of(enabled, devices)[2] == EntryModel::Label(
            "(Bluetooth deshabilitado)"@,
        ),
{
    let top = seq![
        EntryModel::Label(status_text_of(enabled)),
        EntryModel::Item("Alternar Bluetooth"@, ActionModel::ToggleBluetooth),
    ];
    let middle = if enabled {
        devices_submenu_of(devices)
    } else {
        seq![EntryModel::Label("(Bluetooth deshabilitado)"@)]
    };
    let bottom = seq![
        EntryModel::Item("Reiniciar App"@, ActionModel::Restart),
        EntryModel::Item("Salir"@, ActionModel::Quit),
    ];
    let menu = tray_menu_of(enabled, devices);
    assert(menu == top + middle + bottom);
    assert(top.len() == 2);
    assert(bottom.len() == 2);
    assert(devices_submenu_of(devices).len() == submenu_len(devices));
    assert(menu.len() == 4 + middle.len());
    if enabled {
        assert(menu.subrange(2, 2 + submenu_len(devices) as int) =~= devices_submenu_of(devices));
    }
}

/// The name of the tray icon for an adapter state.
pub fn tray_icon_name(enabled: bool) -> (name: &'static str)
    ensures
        name@ == icon_name_of(enabled),
{
    if enabled {
        "bluetooth"
    } else {
        "bluetooth-disabled"
    }
}

/// The word for an adapter state.
pub fn state_name(enabled: bool) -> (word: &'static str)
    ensures
        word@ == state_word(enabled),
{
    if enabled {
        "Encendido"
    } else {
        "Apagado"
    }
}

/// The menu's first line for an adapter state.
pub fn status_text(enabled: bool) -> (text: String)
    ensures
        text@ == status_text_of(enabled),
{
    "Bluetooth: ".to_owned().concat(state_name(enabled))
}

/// The text of a device's menu item.
pub fn device_text(device: &BluetoothDevice) -> (text: String)
    ensures
        text@ == device_text_of(device@),
{
    let paired = if device.paired {
        "\u{1F517}"
    } else {
        "\u{274C}"
    };
    let connected = if device.connected {
        "\u{1F4F1}"
    } else {
        "\u{1F4A4}"
    };
    paired.to_owned().concat(connected).concat(" ").concat(device.name.as_str())
}

/// The menu item of a device.
pub fn device_entry(device: &BluetoothDevice) -> (entry: MenuEntry)
    ensures
        entry@ == device_entry_of(device@),
{
    let action = if device.connected {
        MenuAction::Disconnect(device.mac.clone())
    } else {
        MenuAction::Connect(device.mac.clone())
    };
    MenuEntry::Item(device_text(device), action)
}

/// Appends the device rows to a menu.
pub fn add_devices_submenu(menu: &mut Vec<MenuEntry>, devices: &Vec<BluetoothDevice>)
    ensures
        entries_of(final(menu)@) == entries_of(old(menu)@) + devices_submenu_of(
            models_of(devices@),
        ),
{
    let ghost before = entries_of(menu@);
    if devices.len() == 0 {
        menu.push(MenuEntry::Label("No hay dispositivos".to_owned()));
        assert(entries_of(menu@) =~= before + devices_submenu_of(models_of(devices@)));
        return ;
    }
    menu.push(MenuEntry::Label("=== DISPOSITIVOS ===".to_owned()));
    let ghost heading = seq![EntryModel::Label("=== DISPOSITIVOS ==="@)];
    let ghost rows = models_of(devices@).map_values(|d: DeviceModel| device_entry_of(d));
    assert(entries_of(menu@) =~= before + heading + rows.take(0));
    let mut i: usize = 0;
    while i < devices.len()
        invariant
            i <= devices.len(),
            rows == models_of(devices@).map_values(|d: DeviceModel| device_entry_of(d)),
            entries_of(menu@) == before + heading + rows.take(i as int),
        decreases devices.len() - i,
    {
        let ghost so_far = entries_of(menu@);
        let entry = device_entry(&devices[i]);
        menu.push(entry);
        proof {
            assert(entry@ == rows[i as int]);
            assert(entries_of(menu@) =~= so_far.push(entry@));
            assert(so_far.push(entry@) =~= before + heading + rows.take(i + 1));
        }
        i += 1;
    }
    proof {
        assert(rows.take(i as int) =~= rows);
        assert(before + heading + rows =~= before + (heading + rows));
    }
}

/// Builds the tray menu for an adapter state and the devices to show. The
/// devices are looked at only where the adapter is on.
pub fn build_tray_menu(bluetooth_enabled: bool, devices: &Vec<BluetoothDevice>) -> (menu: Vec<
    MenuEntry,
>)
    ensures
        entries_of(menu@) == tray_menu_of(bluetooth_enabled, models_of(devices@)),
{
    let mut menu: Vec<MenuEntry> = Vec::new();
    menu.push(MenuEntry::Label(status_text(bluetooth_enabled)));
    menu.push(MenuEntry::Item("Alternar Bluetooth".to_owned(), MenuAction::ToggleBluetooth));
    let ghost top = entries_of(menu@);
    assert(top =~= seq![
        EntryModel::Label(status_text_of(bluetooth_enabled)),
        EntryModel::Item("Alternar Bluetooth"@, ActionModel::ToggleBluetooth),
    ]);
    if bluetooth_enabled {
        add_devices_submenu(&mut menu, devices);
    } else {
        menu.push(MenuEntry::Label("(Bluetooth deshabilitado)".to_owned()));
        assert(entries_of(menu@) =~= top + seq![EntryModel::Label("(Bluetooth deshabilitado)"@)]);
    }
    let ghost middle = entries_of(menu@);
    menu.push(MenuEntry::Item("Reiniciar App".to_owned(), MenuAction::Restart));
    menu.push(MenuEntry::Item("Salir".to_owned(), MenuAction::Quit));
    assert(entries_of(menu@) =~= middle + seq![
        EntryModel::Item("Reiniciar App"@, ActionModel::Restart),
        EntryModel::Item("Salir"@, ActionModel::Quit),
    ]);
    menu
}

/// The arguments that a chosen action runs the control tool with, if it runs
/// it at all. `powered` is the adapter's state at the moment of choosing;
/// only the toggle looks at it, and asks for the other state.
pub open spec fn request_arguments_of(action: ActionModel, powered: bool) -> Option<
    Seq<Seq<char>>,
> {
    match action {
        ActionModel::ToggleBluetooth => Some(seq!["power"@, power_word(!powered)]),
        ActionModel::Connect(mac) => Some(seq!["connect"@, mac]),
        ActionModel::Disconnect(mac) => Some(seq!["disconnect"@, mac]),
        ActionModel::Restart => None,
        ActionModel::Quit => None,
    }
}

/// What follows a chosen action once the tool has answered with `exit`
/// (`None`: it could not be run).
///
/// An action that reports success names what was done and restarts; one that
/// reports failure says so and stays. A toggle reports as a power request
/// does, a connect or disconnect as a link request does. Restart says so and
/// restarts; quit says nothing.
pub open spec fn followup_of(action: ActionModel, powered: bool, exit: Option<bool>)
    -> FollowupModel {
    match action {
        ActionModel::ToggleBluetooth => if power_outcome(exit) {
            FollowupModel {
                notification: Some(
                    "Bluetooth "@ + state_word(!powered) + " - Reinicia la app para ver cambios"@,
                ),
                next: Next::Restart,
            }
        } else {
            FollowupModel {
                notification: Some("Error al cambiar estado del Bluetooth"@),
                next: Next::Stay,
            }
        },
        ActionModel::Connect(mac) => if link_outcome(exit) {
            FollowupModel {
                notification: Some("Dispositivo "@ + mac + " conectado"@),
                next: Next::Restart,
            }
        } else {
            FollowupModel {
                notification: Some("Error al conectar dispositivo"@),
                next: Next::Stay,
            }
        },
        ActionModel::Disconnect(mac) => if link_outcome(exit) {
            FollowupModel {
                notification: Some("Dispositivo "@ + mac + " desconectado"@),
                next: Next::Restart,
            }
        } else {
            FollowupModel {
                notification: Some("Error al desconectar dispositivo"@),
                next: Next::Stay,
            }
        },
        ActionModel::Restart => FollowupModel {
            notification: Some("Reiniciando aplicaci\u{f3}n..."@),
            next: Next::Restart,
        },
        ActionModel::Quit => FollowupModel { notification: None, next: Next::Quit },
    }
}

/// The request that a chosen action sends to the control tool, if it sends
/// one. `powered` is the adapter's state at the moment of choosing.
pub fn request_for(action: &MenuAction, powered: bool) -> (request: Option<Request>)
    ensures
        match request {
            Some(r) => request_arguments_of(action@, powered) == Some(arguments_of(r)),
            None => request_arguments_of(action@, powered) is None,
        },
{
    match action {
        MenuAction::ToggleBluetooth => {
            if powered {
                Some(disable_bluetooth())
            } else {
                Some(enable_bluetooth())
            }
        },
        MenuAction::Connect(mac) => Some(connect_device(mac.as_str())),
        MenuAction::Disconnect(mac) => Some(disconnect_device(mac.as_str())),
        MenuAction::Restart => None,
        MenuAction::Quit => None,
    }
}

/// What follows a chosen action once its request, if it had one, has been
/// run and has ended with `exit`.
///
/// A toggle whose request ran is followed by a restart whatever the exit
/// status, since a power request reports success wherever the tool ran.
pub fn followup(action: &MenuAction, powered: bool, exit: Option<bool>) -> (r: Followup)
    ensures
        r@ == followup_of(action@, powered, exit),
        action is ToggleBluetooth ==> (r.next == Next::Restart <==> exit is Some),
        action is ToggleBluetooth ==> (r.next == Next::Stay <==> exit is None),
{
    match action {
        MenuAction::ToggleBluetooth => {
            if power_reported(exit) {
                let text = "Bluetooth ".to_owned().concat(state_name(!powered)).concat(
                    " - Reinicia la app para ver cambios",
                );
                Followup { notification: Some(text), next: Next::Restart }
            } else {
                Followup {
                    notification: Some("Error al cambiar estado del Bluetooth".to_owned()),
                    next: Next::Stay,
                }
            }
        },
        MenuAction::Connect(mac) => {
            if link_reported(exit) {
                let text = "Dispositivo ".to_owned().concat(mac.as_str()).concat(" conectado");
                Followup { notification: Some(text), next: Next::Restart }
            } else {
                Followup {
                    notification: Some("Error al conectar dispositivo".to_owned()),
                    next: Next::Stay,
                }
            }
        },
        MenuAction::Disconnect(mac) => {
            if link_reported(exit) {
                let text = "Dispositivo ".to_owned().concat(mac.as_str()).concat(" desconectado");
                Followup { notification: Some(text), next: Next::Restart }
            } else {
                Followup {
                    notification: Some("Error al desconectar dispositivo".to_owned()),
                    next: Next::Stay,
                }
            }
        },
        MenuAction::Restart => Followup {
            notification: Some("Reiniciando aplicaci\u{f3}n...".to_owned()),
            next: Next::Restart,
        },
        MenuAction::Quit => Followup { notification: None, next: Next::Quit },
    }
}

} // verus!
