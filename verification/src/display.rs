//! How a network is shown to the user when choosing one.

use vstd::prelude::*;

use crate::number::{decimal_text, i32_text};
use crate::interfaces::Selectable;
use crate::structs::AnnotatedWirelessNetwork;
use crate::text::{chars_of, push_all, push_str, string_of};

verus! {

/// The tag that marks a network known to the system.
pub const KNOWN_TOKEN: &'static str = "K";

/// The tag that marks an unencrypted network.
pub const OPEN_TOKEN: &'static str = "O";

/// The tags of a network: ` [O]`, ` [K]` or ` [OK]` for open and known networks, or nothing.
pub open spec fn tags_text(n: AnnotatedWirelessNetwork) -> Seq<char> {
    let open = !n.is_encrypted;
    let known = n.service_identifier is Some;
    if open || known {
        " ["@ + (if open {
            OPEN_TOKEN@
        } else {
            Seq::empty()
        }) + (if known {
            KNOWN_TOKEN@
        } else {
            Seq::empty()
        }) + "]"@
    } else {
        Seq::empty()
    }
}

/// The signal strength of a network as `[strength] `, or nothing when it is unknown.
pub open spec fn strength_text(n: AnnotatedWirelessNetwork) -> Seq<char> {
    match n.signal_strength {
        Some(st) => "["@ + decimal_text(st as int) + "] "@,
        None => Seq::empty(),
    }
}

/// How a network is shown: strength, name, tags.
pub open spec fn display_text(n: AnnotatedWirelessNetwork) -> Seq<char> {
    strength_text(n) + n.essid@ + tags_text(n)
}

impl AnnotatedWirelessNetwork {
    /// The tags of this network.
    pub fn get_tags_string(&self) -> (r: String)
        ensures
            r@ == tags_text(*self),
    {
        let open = !self.is_encrypted();
        let known = self.is_known();
        let mut v: Vec<char> = Vec::new();
        if open || known {
            push_str(&mut v, " [");
            if open {
                push_str(&mut v, OPEN_TOKEN);
            }
            if known {
                push_str(&mut v, KNOWN_TOKEN);
            }
            push_str(&mut v, "]");
        }
        proof {
            if open || known {
                assert(v@ =~= tags_text(*self));
            } else {
                assert(v@ =~= tags_text(*self));
            }
        }
        string_of(v.as_slice())
    }

    /// The signal strength of this network, as shown.
    pub fn get_strenth_string(&self) -> (r: String)
        ensures
            r@ == strength_text(*self),
    {
        let mut v: Vec<char> = Vec::new();
        match self.get_signal_strength() {
            Some(st) => {
                push_str(&mut v, "[");
                let digits = i32_text(st);
                push_all(&mut v, digits.as_slice());
                push_str(&mut v, "] ");
            },
            None => {},
        }
        assert(v@ =~= strength_text(*self));
        string_of(v.as_slice())
    }

    /// How this network is shown when choosing one.
    pub fn get_display_string(&self) -> (r: String)
        ensures
            r@ == display_text(*self),
    {
        let tags = self.get_tags_string();
        let strength = self.get_strenth_string();
        let mut v = chars_of(strength.as_str());
        push_str(&mut v, self.get_public_name());
        push_str(&mut v, tags.as_str());
        string_of(v.as_slice())
    }
}

impl Selectable for AnnotatedWirelessNetwork {
    open spec fn display_of(&self) -> Seq<char> {
        display_text(*self)
    }

    fn get_display_string(&self) -> (r: String) {
        AnnotatedWirelessNetwork::get_display_string(self)
    }
}

} // verus!
