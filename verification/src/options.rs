//! The option sets of the commands, with their defaults and builders.

use vstd::prelude::*;

use crate::enums::{
    AutoMode, ScanMethod, SelectionMethod, WifiConnectionType, WifiScanType, WiredConnectionType,
};
use crate::interfaces::{AutoSelect, Global, Wifi, WifiConnect, Wired, WiredConnect};

verus! {

/// The name of the program.
pub const PROG_NAME: &'static str = "ruwi";

/// Options that every command has.
#[derive(Debug, Clone)]
pub struct GlobalOptions {
    pub debug: bool,
    pub dry_run: bool,
    pub selection_method: SelectionMethod,
    pub pretend_to_be_root: bool,
}

/// The global options of a plain run.
pub open spec fn global_defaults() -> GlobalOptions {
    GlobalOptions {
        debug: false,
        dry_run: false,
        selection_method: SelectionMethod::Fzf,
        pretend_to_be_root: false,
    }
}

impl Default for GlobalOptions {
    fn default() -> (r: Self)
        ensures
            r == global_defaults(),
    {
        GlobalOptions {
            debug: false,
            dry_run: false,
            selection_method: SelectionMethod::default(),
            pretend_to_be_root: false,
        }
    }
}

impl GlobalOptions {
    /// Options with debug output and dry runs on, to be adjusted and built.
    pub fn builder() -> (r: GlobalOptionsBuilder)
        ensures
            r.options.debug,
            r.options.dry_run,
            r.options.selection_method == SelectionMethod::Fzf,
            !r.options.pretend_to_be_root,
    {
        GlobalOptionsBuilder {
            options: GlobalOptions {
                debug: true,
                dry_run: true,
                selection_method: SelectionMethod::default(),
                pretend_to_be_root: false,
            },
        }
    }
}

/// Global options under construction.
pub struct GlobalOptionsBuilder {
    pub options: GlobalOptions,
}

impl GlobalOptionsBuilder {
    pub fn debug(self, debug: bool) -> (r: GlobalOptionsBuilder)
        ensures
            r.options == (GlobalOptions { debug, ..self.options }),
    {
        GlobalOptionsBuilder { options: GlobalOptions { debug, ..self.options } }
    }

    pub fn dry_run(self, dry_run: bool) -> (r: GlobalOptionsBuilder)
        ensures
            r.options == (GlobalOptions { dry_run, ..self.options }),
    {
        GlobalOptionsBuilder { options: GlobalOptions { dry_run, ..self.options } }
    }

    pub fn selection_method(self, selection_method: SelectionMethod) -> (r: GlobalOptionsBuilder)
        ensures
            r.options == (GlobalOptions { selection_method, ..self.options }),
    {
        GlobalOptionsBuilder { options: GlobalOptions { selection_method, ..self.options } }
    }

    pub fn build(self) -> (r: GlobalOptions)
        ensures
            r == self.options,
    {
        self.options
    }
}

impl Global for GlobalOptions {
    open spec fn debug_of(&self) -> bool {
        self.debug
    }

    open spec fn dry_run_of(&self) -> bool {
        self.dry_run
    }

    open spec fn selection_method_of(&self) -> SelectionMethod {
        self.selection_method
    }

    open spec fn pretend_root_of(&self) -> bool {
        self.pretend_to_be_root
    }

    fn d(&self) -> (r: bool) {
        self.debug
    }

    fn get_debug(&self) -> (r: bool) {
        self.debug
    }

    fn get_dry_run(&self) -> (r: bool) {
        self.dry_run
    }

    fn get_selection_method(&self) -> (r: &SelectionMethod) {
        &self.selection_method
    }

    fn is_test_or_dry_run(&self) -> (r: bool) {
        self.dry_run
    }

    fn pretend_to_be_root(&self) -> (r: bool) {
        self.pretend_to_be_root
    }
}

/// Options of the wifi commands.
#[derive(Debug, Clone)]
pub struct WifiOptions {
    pub globals: GlobalOptions,
    pub given_interface_name: Option<String>,
    pub scan_type: WifiScanType,
    pub scan_method: ScanMethod,
    pub ignore_known: bool,
    pub force_synchronous_scan: bool,
}

/// The wifi options of a plain run.
pub open spec fn wifi_defaults() -> WifiOptions {
    WifiOptions {
        globals: global_defaults(),
        given_interface_name: None,
        scan_type: WifiScanType::IW,
        scan_method: ScanMethod::ByRunning,
        ignore_known: false,
        force_synchronous_scan: false,
    }
}

impl Default for WifiOptions {
    fn default() -> (r: Self)
        ensures
            r == wifi_defaults(),
    {
        WifiOptions {
            globals: GlobalOptions::default(),
            given_interface_name: None,
            scan_type: WifiScanType::default(),
            scan_method: ScanMethod::default(),
            ignore_known: false,
            force_synchronous_scan: false,
        }
    }
}

impl WifiOptions {
    /// The default options, reading scans of `scan_type`.
    pub fn from_scan_type(scan_type: WifiScanType) -> (r: WifiOptions)
        ensures
            r == (WifiOptions { scan_type, ..wifi_defaults() }),
    {
        WifiOptions { scan_type, ..WifiOptions::default() }
    }
}

impl Global for WifiOptions {
    open spec fn debug_of(&self) -> bool {
        self.globals.debug
    }

    open spec fn dry_run_of(&self) -> bool {
        self.globals.dry_run
    }

    open spec fn selection_method_of(&self) -> SelectionMethod {
        self.globals.selection_method
    }

    open spec fn pretend_root_of(&self) -> bool {
        self.globals.pretend_to_be_root
    }

    fn d(&self) -> (r: bool) {
        self.globals.d()
    }

    fn get_debug(&self) -> (r: bool) {
        self.globals.get_debug()
    }

    fn get_dry_run(&self) -> (r: bool) {
        self.globals.get_dry_run()
    }

    fn get_selection_method(&self) -> (r: &SelectionMethod) {
        self.globals.get_selection_method()
    }

    fn is_test_or_dry_run(&self) -> (r: bool) {
        self.globals.is_test_or_dry_run()
    }

    fn pretend_to_be_root(&self) -> (r: bool) {
        self.globals.pretend_to_be_root()
    }
}

impl Wifi for WifiOptions {
    open spec fn scan_type_of(&self) -> WifiScanType {
        self.scan_type
    }

    open spec fn scan_method_of(&self) -> ScanMethod {
        self.scan_method
    }

    open spec fn force_synchronous_scan_of(&self) -> bool {
        self.force_synchronous_scan
    }

    fn get_scan_type(&self) -> (r: &WifiScanType) {
        &self.scan_type
    }

    fn get_scan_method(&self) -> (r: &ScanMethod) {
        &self.scan_method
    }

    open spec fn ignore_known_of(&self) -> bool {
        self.ignore_known
    }

    open spec fn given_interface_name_of(&self) -> Option<String> {
        self.given_interface_name
    }

    fn get_ignore_known(&self) -> (r: bool) {
        self.ignore_known
    }

    fn get_force_synchronous_scan(&self) -> (r: bool) {
        self.force_synchronous_scan
    }

    fn get_given_interface_name(&self) -> (r: &Option<String>) {
        &self.given_interface_name
    }
}

/// Options of `wifi connect`.
#[derive(Debug, Clone)]
pub struct WifiConnectOptions {
    pub wifi: WifiOptions,
    pub auto_mode: AutoMode,
    pub connect_via: WifiConnectionType,
    pub given_essid: Option<String>,
    pub force_ask_password: bool,
    pub given_encryption_key: Option<String>,
}

/// The `wifi connect` options of a plain run.
pub open spec fn wifi_connect_defaults() -> WifiConnectOptions {
    WifiConnectOptions {
        wifi: wifi_defaults(),
        auto_mode: AutoMode::Ask,
        connect_via: WifiConnectionType::Netctl,
        given_essid: None,
        force_ask_password: false,
        given_encryption_key: None,
    }
}

impl Default for WifiConnectOptions {
    fn default() -> (r: Self)
        ensures
            r == wifi_connect_defaults(),
    {
        WifiConnectOptions {
            wifi: WifiOptions::default(),
            auto_mode: AutoMode::default(),
            connect_via: WifiConnectionType::default(),
            given_essid: None,
            force_ask_password: false,
            given_encryption_key: None,
        }
    }
}

impl WifiConnectOptions {
    /// The default options, reading scans of `scan_type`.
    pub fn from_scan_type(scan_type: WifiScanType) -> (r: WifiConnectOptions)
        ensures
            r == (WifiConnectOptions {
                wifi: WifiOptions { scan_type, ..wifi_defaults() },
                ..wifi_connect_defaults()
            }),
    {
        WifiConnectOptions {
            wifi: WifiOptions::from_scan_type(scan_type),
            ..WifiConnectOptions::default()
        }
    }

    /// The default options, to be adjusted and built.
    pub fn builder() -> (r: WifiConnectOptionsBuilder)
        ensures
            r.options == wifi_connect_defaults(),
    {
        WifiConnectOptionsBuilder { options: WifiConnectOptions::default() }
    }
}

/// `wifi connect` options under construction.
pub struct WifiConnectOptionsBuilder {
    pub options: WifiConnectOptions,
}

impl WifiConnectOptionsBuilder {
    pub fn wifi(self, wifi: WifiOptions) -> (r: WifiConnectOptionsBuilder)
        ensures
            r.options == (WifiConnectOptions { wifi, ..self.options }),
    {
        WifiConnectOptionsBuilder { options: WifiConnectOptions { wifi, ..self.options } }
    }

    pub fn auto_mode(self, auto_mode: AutoMode) -> (r: WifiConnectOptionsBuilder)
        ensures
            r.options == (WifiConnectOptions { auto_mode, ..self.options }),
    {
        WifiConnectOptionsBuilder { options: WifiConnectOptions { auto_mode, ..self.options } }
    }

    pub fn connect_via(self, connect_via: WifiConnectionType) -> (r: WifiConnectOptionsBuilder)
        ensures
            r.options == (WifiConnectOptions { connect_via, ..self.options }),
    {
        WifiConnectOptionsBuilder { options: WifiConnectOptions { connect_via, ..self.options } }
    }

    pub fn given_essid(self, given_essid: Option<String>) -> (r: WifiConnectOptionsBuilder)
        ensures
            r.options == (WifiConnectOptions { given_essid, ..self.options }),
    {
        WifiConnectOptionsBuilder { options: WifiConnectOptions { given_essid, ..self.options } }
    }

    pub fn force_ask_password(self, force_ask_password: bool) -> (r: WifiConnectOptionsBuilder)
        ensures
            r.options == (WifiConnectOptions { force_ask_password, ..self.options }),
    {
        WifiConnectOptionsBuilder {
            options: WifiConnectOptions { force_ask_password, ..self.options },
        }
    }

    pub fn given_encryption_key(self, given_encryption_key: Option<String>) -> (r:
        WifiConnectOptionsBuilder)
        ensures
            r.options == (WifiConnectOptions { given_encryption_key, ..self.options }),
    {
        WifiConnectOptionsBuilder {
            options: WifiConnectOptions { given_encryption_key, ..self.options },
        }
    }

    pub fn build(self) -> (r: WifiConnectOptions)
        ensures
            r == self.options,
    {
        self.options
    }
}

impl Global for WifiConnectOptions {
    open spec fn debug_of(&self) -> bool {
        self.wifi.globals.debug
    }

    open spec fn dry_run_of(&self) -> bool {
        self.wifi.globals.dry_run
    }

    open spec fn selection_method_of(&self) -> SelectionMethod {
        self.wifi.globals.selection_method
    }

    open spec fn pretend_root_of(&self) -> bool {
        self.wifi.globals.pretend_to_be_root
    }

    fn d(&self) -> (r: bool) {
        self.wifi.d()
    }

    fn get_debug(&self) -> (r: bool) {
        self.wifi.get_debug()
    }

    fn get_dry_run(&self) -> (r: bool) {
        self.wifi.get_dry_run()
    }

    fn get_selection_method(&self) -> (r: &SelectionMethod) {
        self.wifi.get_selection_method()
    }

    fn is_test_or_dry_run(&self) -> (r: bool) {
        self.wifi.is_test_or_dry_run()
    }

    fn pretend_to_be_root(&self) -> (r: bool) {
        self.wifi.pretend_to_be_root()
    }
}

impl Wifi for WifiConnectOptions {
    open spec fn scan_type_of(&self) -> WifiScanType {
        self.wifi.scan_type
    }

    open spec fn scan_method_of(&self) -> ScanMethod {
        self.wifi.scan_method
    }

    open spec fn force_synchronous_scan_of(&self) -> bool {
        self.wifi.force_synchronous_scan
    }

    fn get_scan_type(&self) -> (r: &WifiScanType) {
        self.wifi.get_scan_type()
    }

    fn get_scan_method(&self) -> (r: &ScanMethod) {
        self.wifi.get_scan_method()
    }

    open spec fn ignore_known_of(&self) -> bool {
        self.wifi.ignore_known
    }

    open spec fn given_interface_name_of(&self) -> Option<String> {
        self.wifi.given_interface_name
    }

    fn get_ignore_known(&self) -> (r: bool) {
        self.wifi.get_ignore_known()
    }

    fn get_force_synchronous_scan(&self) -> (r: bool) {
        self.wifi.get_force_synchronous_scan()
    }

    fn get_given_interface_name(&self) -> (r: &Option<String>) {
        self.wifi.get_given_interface_name()
    }
}

impl AutoSelect for WifiConnectOptions {
    open spec fn auto_mode_of(&self) -> AutoMode {
        self.auto_mode
    }

    fn get_auto_mode(&self) -> (r: &AutoMode) {
        &self.auto_mode
    }
}

impl WifiConnect for WifiConnectOptions {
    open spec fn given_essid_of(&self) -> Option<String> {
        self.given_essid
    }

    open spec fn given_encryption_key_of(&self) -> Option<String> {
        self.given_encryption_key
    }

    open spec fn connect_via_of(&self) -> WifiConnectionType {
        self.connect_via
    }

    open spec fn force_ask_password_of(&self) -> bool {
        self.force_ask_password
    }

    fn get_force_ask_password(&self) -> (r: bool) {
        self.force_ask_password
    }

    fn get_given_essid(&self) -> (r: &Option<String>) {
        &self.given_essid
    }

    fn get_given_encryption_key(&self) -> (r: &Option<String>) {
        &self.given_encryption_key
    }

    fn get_connect_via(&self) -> (r: &WifiConnectionType) {
        &self.connect_via
    }
}

/// Options of `wifi select`.
#[derive(Debug, Clone)]
pub struct WifiSelectOptions {
    pub wifi: WifiOptions,
    pub auto_mode: AutoMode,
}

impl Default for WifiSelectOptions {
    fn default() -> (r: Self)
        ensures
            r.wifi == wifi_defaults(),
            r.auto_mode == AutoMode::Ask,
    {
        WifiSelectOptions { wifi: WifiOptions::default(), auto_mode: AutoMode::default() }
    }
}

impl AutoSelect for WifiSelectOptions {
    open spec fn auto_mode_of(&self) -> AutoMode {
        self.auto_mode
    }

    fn get_auto_mode(&self) -> (r: &AutoMode) {
        &self.auto_mode
    }
}

impl Global for WifiSelectOptions {
    open spec fn debug_of(&self) -> bool {
        self.wifi.globals.debug
    }

    open spec fn dry_run_of(&self) -> bool {
        self.wifi.globals.dry_run
    }

    open spec fn selection_method_of(&self) -> SelectionMethod {
        self.wifi.globals.selection_method
    }

    open spec fn pretend_root_of(&self) -> bool {
        self.wifi.globals.pretend_to_be_root
    }

    fn d(&self) -> (r: bool) {
        self.wifi.d()
    }

    fn get_debug(&self) -> (r: bool) {
        self.wifi.get_debug()
    }

    fn get_dry_run(&self) -> (r: bool) {
        self.wifi.get_dry_run()
    }

    fn get_selection_method(&self) -> (r: &SelectionMethod) {
        self.wifi.get_selection_method()
    }

    fn is_test_or_dry_run(&self) -> (r: bool) {
        self.wifi.is_test_or_dry_run()
    }

    fn pretend_to_be_root(&self) -> (r: bool) {
        self.wifi.pretend_to_be_root()
    }
}

impl Wifi for WifiSelectOptions {
    open spec fn scan_type_of(&self) -> WifiScanType {
        self.wifi.scan_type
    }

    open spec fn scan_method_of(&self) -> ScanMethod {
        self.wifi.scan_method
    }

    open spec fn force_synchronous_scan_of(&self) -> bool {
        self.wifi.force_synchronous_scan
    }

    fn get_scan_type(&self) -> (r: &WifiScanType) {
        self.wifi.get_scan_type()
    }

    fn get_scan_method(&self) -> (r: &ScanMethod) {
        self.wifi.get_scan_method()
    }

    open spec fn ignore_known_of(&self) -> bool {
        self.wifi.ignore_known
    }

    open spec fn given_interface_name_of(&self) -> Option<String> {
        self.wifi.given_interface_name
    }

    fn get_ignore_known(&self) -> (r: bool) {
        self.wifi.get_ignore_known()
    }

    fn get_force_synchronous_scan(&self) -> (r: bool) {
        self.wifi.get_force_synchronous_scan()
    }

    fn get_given_interface_name(&self) -> (r: &Option<String>) {
        self.wifi.get_given_interface_name()
    }
}

/// Options of the wired commands.
#[derive(Debug, Clone)]
pub struct WiredOptions {
    pub globals: GlobalOptions,
    pub given_interface_name: Option<String>,
}

impl Default for WiredOptions {
    fn default() -> (r: Self)
        ensures
            r.globals == global_defaults(),
            r.given_interface_name is None,
    {
        WiredOptions { globals: GlobalOptions::default(), given_interface_name: None }
    }
}

impl Global for WiredOptions {
    open spec fn debug_of(&self) -> bool {
        self.globals.debug
    }

    open spec fn dry_run_of(&self) -> bool {
        self.globals.dry_run
    }

    open spec fn selection_method_of(&self) -> SelectionMethod {
        self.globals.selection_method
    }

    open spec fn pretend_root_of(&self) -> bool {
        self.globals.pretend_to_be_root
    }

    fn d(&self) -> (r: bool) {
        self.globals.d()
    }

    fn get_debug(&self) -> (r: bool) {
        self.globals.get_debug()
    }

    fn get_dry_run(&self) -> (r: bool) {
        self.globals.get_dry_run()
    }

    fn get_selection_method(&self) -> (r: &SelectionMethod) {
        self.globals.get_selection_method()
    }

    fn is_test_or_dry_run(&self) -> (r: bool) {
        self.globals.is_test_or_dry_run()
    }

    fn pretend_to_be_root(&self) -> (r: bool) {
        self.globals.pretend_to_be_root()
    }
}

impl Wired for WiredOptions {
    open spec fn wired_interface_name_of(&self) -> Option<String> {
        self.given_interface_name
    }

    fn get_given_interface_name(&self) -> (r: &Option<String>) {
        &self.given_interface_name
    }
}

/// Options of `wired connect`.
#[derive(Debug, Clone)]
pub struct WiredConnectOptions {
    pub wired: WiredOptions,
    pub connect_via: WiredConnectionType,
    pub given_profile_name: Option<String>,
}

impl Default for WiredConnectOptions {
    fn default() -> (r: Self)
        ensures
            r.wired.globals == global_defaults(),
            r.wired.given_interface_name is None,
            r.connect_via == WiredConnectionType::Netctl,
            r.given_profile_name is None,
    {
        WiredConnectOptions {
            wired: WiredOptions::default(),
            connect_via: WiredConnectionType::default(),
            given_profile_name: None,
        }
    }
}

impl Global for WiredConnectOptions {
    open spec fn debug_of(&self) -> bool {
        self.wired.globals.debug
    }

    open spec fn dry_run_of(&self) -> bool {
        self.wired.globals.dry_run
    }

    open spec fn selection_method_of(&self) -> SelectionMethod {
        self.wired.globals.selection_method
    }

    open spec fn pretend_root_of(&self) -> bool {
        self.wired.globals.pretend_to_be_root
    }

    fn d(&self) -> (r: bool) {
        self.wired.d()
    }

    fn get_debug(&self) -> (r: bool) {
        self.wired.get_debug()
    }

    fn get_dry_run(&self) -> (r: bool) {
        self.wired.get_dry_run()
    }

    fn get_selection_method(&self) -> (r: &SelectionMethod) {
        self.wired.get_selection_method()
    }

    fn is_test_or_dry_run(&self) -> (r: bool) {
        self.wired.is_test_or_dry_run()
    }

    fn pretend_to_be_root(&self) -> (r: bool) {
        self.wired.pretend_to_be_root()
    }
}

impl Wired for WiredConnectOptions {
    open spec fn wired_interface_name_of(&self) -> Option<String> {
        self.wired.given_interface_name
    }

    fn get_given_interface_name(&self) -> (r: &Option<String>) {
        self.wired.get_given_interface_name()
    }
}

impl WiredConnect for WiredConnectOptions {
    open spec fn wired_connect_via_of(&self) -> WiredConnectionType {
        self.connect_via
    }

    open spec fn given_profile_name_of(&self) -> Option<String> {
        self.given_profile_name
    }

    fn get_connect_via(&self) -> (r: &WiredConnectionType) {
        &self.connect_via
    }

    fn get_given_profile_name(&self) -> (r: &Option<String>) {
        &self.given_profile_name
    }
}

/// The program that drives the bluetooth controller.
#[derive(Debug, Clone, Copy, PartialEq, Eq)]
pub enum BluetoothController {
    BluetoothCtl,
}

/// Options of the bluetooth commands.
#[derive(Debug, Clone)]
pub struct BluetoothOptions {
    pub globals: GlobalOptions,
}

impl Default for BluetoothOptions {
    fn default() -> (r: Self)
        ensures
            r.globals == global_defaults(),
    {
        BluetoothOptions { globals: GlobalOptions::default() }
    }
}

impl Global for BluetoothOptions {
    open spec fn debug_of(&self) -> bool {
        self.globals.debug
    }

    open spec fn dry_run_of(&self) -> bool {
        self.globals.dry_run
    }

    open spec fn selection_method_of(&self) -> SelectionMethod {
        self.globals.selection_method
    }

    open spec fn pretend_root_of(&self) -> bool {
        self.globals.pretend_to_be_root
    }

    fn d(&self) -> (r: bool) {
        self.globals.d()
    }

    fn get_debug(&self) -> (r: bool) {
        self.globals.get_debug()
    }

    fn get_dry_run(&self) -> (r: bool) {
        self.globals.get_dry_run()
    }

    fn get_selection_method(&self) -> (r: &SelectionMethod) {
        self.globals.get_selection_method()
    }

    fn is_test_or_dry_run(&self) -> (r: bool) {
        self.globals.is_test_or_dry_run()
    }

    fn pretend_to_be_root(&self) -> (r: bool) {
        self.globals.pretend_to_be_root()
    }
}

/// Options of `bluetooth connect`.
#[derive(Debug, Clone)]
pub struct BluetoothConnectOptions {
    pub bluetooth: BluetoothOptions,
    pub auto_mode: AutoMode,
    pub controller: BluetoothController,
    pub given_device_name_prefix: Option<String>,
    pub given_device_addr: Option<String>,
}

impl Default for BluetoothConnectOptions {
    fn default() -> (r: Self)
        ensures
            r.bluetooth.globals == global_defaults(),
            r.auto_mode == AutoMode::Ask,
            r.controller == BluetoothController::BluetoothCtl,
            r.given_device_name_prefix is None,
            r.given_device_addr is None,
    {
        BluetoothConnectOptions {
            bluetooth: BluetoothOptions::default(),
            auto_mode: AutoMode::default(),
            controller: BluetoothController::BluetoothCtl,
            given_device_name_prefix: None,
            given_device_addr: None,
        }
    }
}

impl BluetoothConnectOptions {
    /// The controller program to use.
    pub fn get_controller(&self) -> (r: &BluetoothController)
        ensures
            *r == self.controller,
    {
        &self.controller
    }

    /// The device name prefix given on the command line, if any.
    pub fn get_given_device_name_prefix(&self) -> (r: &Option<String>)
        ensures
            *r == self.given_device_name_prefix,
    {
        &self.given_device_name_prefix
    }

    /// The device address given on the command line, if any.
    pub fn get_given_device_addr(&self) -> (r: &Option<String>)
        ensures
            *r == self.given_device_addr,
    {
        &self.given_device_addr
    }
}

impl AutoSelect for BluetoothConnectOptions {
    open spec fn auto_mode_of(&self) -> AutoMode {
        self.auto_mode
    }

    fn get_auto_mode(&self) -> (r: &AutoMode) {
        &self.auto_mode
    }
}

impl Global for BluetoothConnectOptions {
    open spec fn debug_of(&self) -> bool {
        self.bluetooth.globals.debug
    }

    open spec fn dry_run_of(&self) -> bool {
        self.bluetooth.globals.dry_run
    }

    open spec fn selection_method_of(&self) -> SelectionMethod {
        self.bluetooth.globals.selection_method
    }

    open spec fn pretend_root_of(&self) -> bool {
        self.bluetooth.globals.pretend_to_be_root
    }

    fn d(&self) -> (r: bool) {
        self.bluetooth.d()
    }

    fn get_debug(&self) -> (r: bool) {
        self.bluetooth.get_debug()
    }

    fn get_dry_run(&self) -> (r: bool) {
        self.bluetooth.get_dry_run()
    }

    fn get_selection_method(&self) -> (r: &SelectionMethod) {
        self.bluetooth.get_selection_method()
    }

    fn is_test_or_dry_run(&self) -> (r: bool) {
        self.bluetooth.is_test_or_dry_run()
    }

    fn pretend_to_be_root(&self) -> (r: bool) {
        self.bluetooth.pretend_to_be_root()
    }
}

/// Options of `clear`.
#[derive(Debug, Clone)]
pub struct ClearOptions {
    pub globals: GlobalOptions,
}

impl Default for ClearOptions {
    fn default() -> (r: Self)
        ensures
            r.globals == global_defaults(),
    {
        ClearOptions { globals: GlobalOptions::default() }
    }
}

impl Global for ClearOptions {
    open spec fn debug_of(&self) -> bool {
        self.globals.debug
    }

    open spec fn dry_run_of(&self) -> bool {
        self.globals.dry_run
    }

    open spec fn selection_method_of(&self) -> SelectionMethod {
        self.globals.selection_method
    }

    open spec fn pretend_root_of(&self) -> bool {
        self.globals.pretend_to_be_root
    }

    fn d(&self) -> (r: bool) {
        self.globals.d()
    }

    fn get_debug(&self) -> (r: bool) {
        self.globals.get_debug()
    }

    fn get_dry_run(&self) -> (r: bool) {
        self.globals.get_dry_run()
    }

    fn get_selection_method(&self) -> (r: &SelectionMethod) {
        self.globals.get_selection_method()
    }

    fn is_test_or_dry_run(&self) -> (r: bool) {
        self.globals.is_test_or_dry_run()
    }

    fn pretend_to_be_root(&self) -> (r: bool) {
        self.globals.pretend_to_be_root()
    }
}

/// Options of the bluetooth command group.
#[derive(Debug, Clone)]
pub struct BluetoothCommandOptions {}

/// The wifi commands.
#[derive(Debug, Clone)]
pub enum RuwiWifiCommand {
    Connect(WifiConnectOptions),
    Select(WifiSelectOptions),
}

/// The wired commands.
#[derive(Debug, Clone)]
pub enum RuwiWiredCommand {
    Connect(WiredConnectOptions),
}

/// The bluetooth commands.
#[derive(Debug, Clone, Copy, PartialEq, Eq)]
pub enum RuwiBluetoothCommand {
    Pair,
}

/// A command, with its options.
#[derive(Debug, Clone)]
pub enum RuwiCommand {
    Wifi(RuwiWifiCommand),
    Wired(RuwiWiredCommand),
    Bluetooth(RuwiBluetoothCommand),
    Clear(ClearOptions),
}

impl Default for RuwiWifiCommand {
    fn default() -> (r: Self)
        ensures
            r matches RuwiWifiCommand::Connect(o) && o == wifi_connect_defaults(),
    {
        RuwiWifiCommand::Connect(WifiConnectOptions::default())
    }
}

impl Default for RuwiWiredCommand {
    fn default() -> (r: Self)
        ensures
            r matches RuwiWiredCommand::Connect(o) && o.wired.globals == global_defaults()
                && o.wired.given_interface_name is None && o.connect_via
                == WiredConnectionType::Netctl && o.given_profile_name is None,
    {
        RuwiWiredCommand::Connect(WiredConnectOptions::default())
    }
}

impl Default for RuwiBluetoothCommand {
    fn default() -> (r: Self)
        ensures
            r == RuwiBluetoothCommand::Pair,
    {
        RuwiBluetoothCommand::Pair
    }
}

impl Default for RuwiCommand {
    fn default() -> (r: Self)
        ensures
            r matches RuwiCommand::Wifi(RuwiWifiCommand::Connect(o)) && o
                == wifi_connect_defaults(),
    {
        RuwiCommand::Wifi(RuwiWifiCommand::default())
    }
}

impl RuwiCommand {
    /// The options of a `wifi connect` command.
    pub fn get_options(&self) -> (r: &WifiConnectOptions)
        requires
            self matches RuwiCommand::Wifi(RuwiWifiCommand::Connect(_)),
        ensures
            self matches RuwiCommand::Wifi(RuwiWifiCommand::Connect(o)) && *r == o,
    {
        match self {
            RuwiCommand::Wifi(RuwiWifiCommand::Connect(opts)) => opts,
            _ => vstd::pervasive::unreached(),
        }
    }
}

} // verus!
