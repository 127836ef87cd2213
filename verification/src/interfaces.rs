//! The views that the logic takes of the option sets: each command's options
//! implement the parts that the command needs.

use vstd::prelude::*;

use crate::enums::{
    AutoMode, ScanMethod, SelectionMethod, WifiConnectionType, WifiScanType, WiredConnectionType,
};

verus! {

/// Options that every command has.
pub trait Global {
    /// Whether debug output is on.
    spec fn debug_of(&self) -> bool;

    /// Whether commands that change the system are only printed.
    spec fn dry_run_of(&self) -> bool;

    /// The program that shows choices to the user.
    spec fn selection_method_of(&self) -> SelectionMethod;

    /// Whether commands are checked as if the program ran as root.
    spec fn pretend_root_of(&self) -> bool;

    fn d(&self) -> (r: bool)
        ensures
            r == self.debug_of(),
    ;

    fn get_debug(&self) -> (r: bool)
        ensures
            r == self.debug_of(),
    ;

    fn get_dry_run(&self) -> (r: bool)
        ensures
            r == self.dry_run_of(),
    ;

    fn get_selection_method(&self) -> (r: &SelectionMethod)
        ensures
            *r == self.selection_method_of(),
    ;

    fn is_test_or_dry_run(&self) -> (r: bool)
        ensures
            r == self.dry_run_of(),
    ;

    fn pretend_to_be_root(&self) -> (r: bool)
        ensures
            r == self.pretend_root_of(),
    ;
}

/// Options of the wifi commands.
pub trait Wifi {
    /// The scanner to use.
    spec fn scan_type_of(&self) -> WifiScanType;

    /// Whether a scan must be made anew rather than read from the scanner's cache.
    spec fn force_synchronous_scan_of(&self) -> bool;

    fn get_scan_type(&self) -> (r: &WifiScanType)
        ensures
            *r == self.scan_type_of(),
    ;

    /// Where scan results come from.
    spec fn scan_method_of(&self) -> ScanMethod;

    fn get_scan_method(&self) -> (r: &ScanMethod)
        ensures
            *r == self.scan_method_of(),
    ;

    /// Whether known networks are treated as unknown.
    spec fn ignore_known_of(&self) -> bool;

    /// The interface named on the command line, if any.
    spec fn given_interface_name_of(&self) -> Option<String>;

    fn get_ignore_known(&self) -> (r: bool)
        ensures
            r == self.ignore_known_of(),
    ;

    fn get_force_synchronous_scan(&self) -> (r: bool)
        ensures
            r == self.force_synchronous_scan_of(),
    ;

    fn get_given_interface_name(&self) -> (r: &Option<String>)
        ensures
            *r == self.given_interface_name_of(),
    ;
}

/// Options of the wired commands.
pub trait Wired {
    /// The interface named on the command line, if any.
    spec fn wired_interface_name_of(&self) -> Option<String>;

    fn get_given_interface_name(&self) -> (r: &Option<String>)
        ensures
            *r == self.wired_interface_name_of(),
    ;
}

/// Options of commands that choose among networks.
pub trait AutoSelect {
    /// How a network is chosen.
    spec fn auto_mode_of(&self) -> AutoMode;

    fn get_auto_mode(&self) -> (r: &AutoMode)
        ensures
            *r == self.auto_mode_of(),
    ;
}

/// Options of the wifi connect command.
pub trait WifiConnect {
    /// The network named on the command line, if any.
    spec fn given_essid_of(&self) -> Option<String>;

    /// The key given on the command line, if any.
    spec fn given_encryption_key_of(&self) -> Option<String>;

    fn get_force_ask_password(&self) -> (r: bool)
        ensures
            r == self.force_ask_password_of(),
    ;

    fn get_given_essid(&self) -> (r: &Option<String>)
        ensures
            *r == self.given_essid_of(),
    ;

    fn get_given_encryption_key(&self) -> (r: &Option<String>)
        ensures
            *r == self.given_encryption_key_of(),
    ;

    /// How the wifi connection is made.
    spec fn connect_via_of(&self) -> WifiConnectionType;

    /// Whether the key is asked for even when it need not be.
    spec fn force_ask_password_of(&self) -> bool;

    fn get_connect_via(&self) -> (r: &WifiConnectionType)
        ensures
            *r == self.connect_via_of(),
    ;
}

/// Options of the wired connect command.
pub trait WiredConnect {
    /// How the wired connection is made.
    spec fn wired_connect_via_of(&self) -> WiredConnectionType;

    /// The netctl profile named on the command line, if any.
    spec fn given_profile_name_of(&self) -> Option<String>;

    fn get_connect_via(&self) -> (r: &WiredConnectionType)
        ensures
            *r == self.wired_connect_via_of(),
    ;

    fn get_given_profile_name(&self) -> (r: &Option<String>)
        ensures
            *r == self.given_profile_name_of(),
    ;
}

/// A network that can be named to the user (for wifi, its ESSID).
pub trait Identifiable {
    /// The name.
    spec fn public_name_of(&self) -> Seq<char>;

    fn get_public_name(&self) -> (r: &str)
        ensures
            r@ == self.public_name_of(),
    ;
}

/// A network that a configuration on the system may know.
pub trait Known {
    /// Whether a configuration knows it.
    spec fn known_of(&self) -> bool;

    fn is_known(&self) -> (r: bool)
        ensures
            r == self.known_of(),
    ;
}

/// A network that can be listed for the user to choose.
pub trait Selectable {
    /// How it is listed.
    spec fn display_of(&self) -> Seq<char>;

    fn get_display_string(&self) -> (r: String)
        ensures
            r@ == self.display_of(),
    ;
}

} // verus!
