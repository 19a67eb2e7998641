//! The per-chip capability catalog: an ordered collection of pin
//! descriptors, each carrying a name, a physical position, an electrical
//! type tag and the signal capabilities it can be muxed to.
//!
//! The catalog is an external, read-only input: it arrives already
//! deserialized from the chip database and the resolver only reads it.

use vstd::prelude::*;

verus! {

/// One named signal capability of a catalog pin.
#[derive(Clone, Debug, PartialEq)]
pub struct Signal {
    pub name: String,
    pub io_modes: Option<String>,
}

/// Mathematical model of a [`Signal`].
pub struct SignalView {
    pub name: Seq<char>,
    pub io_modes: Option<Seq<char>>,
}

impl View for Signal {
    type V = SignalView;

    open spec fn view(&self) -> SignalView {
        SignalView {
            name: self.name@,
            io_modes: match self.io_modes {
                Some(m) => Some(m@),
                None => None,
            },
        }
    }
}

/// One pin descriptor of the catalog.
#[derive(Clone, Debug, PartialEq)]
pub struct Pin {
    pub name: String,
    pub position: String,
    pub pin_type: String,
    pub variant: Option<String>,
    pub signals: Vec<Signal>,
}

/// Mathematical model of a [`Pin`].
pub struct PinView {
    pub name: Seq<char>,
    pub position: Seq<char>,
    pub pin_type: Seq<char>,
    pub variant: Option<Seq<char>>,
    pub signals: Seq<SignalView>,
}

impl View for Pin {
    type V = PinView;

    open spec fn view(&self) -> PinView {
        PinView {
            name: self.name@,
            position: self.position@,
            pin_type: self.pin_type@,
            variant: match self.variant {
                Some(v) => Some(v@),
                None => None,
            },
            signals: self.signals@.map_values(|s: Signal| s@),
        }
    }
}

/// One IP block instance listed by the catalog.
#[derive(Clone, Debug, PartialEq)]
pub struct Ip {
    pub instance_name: String,
    pub name: String,
    pub version: String,
    pub config_file: Option<String>,
    pub clock_enable_mode: Option<String>,
}

/// Mathematical model of an [`Ip`].
pub struct IpView {
    pub instance_name: Seq<char>,
    pub name: Seq<char>,
    pub version: Seq<char>,
    pub config_file: Option<Seq<char>>,
    pub clock_enable_mode: Option<Seq<char>>,
}

impl View for Ip {
    type V = IpView;

    open spec fn view(&self) -> IpView {
        IpView {
            instance_name: self.instance_name@,
            name: self.name@,
            version: self.version@,
            config_file: match self.config_file {
                Some(v) => Some(v@),
                None => None,
            },
            clock_enable_mode: match self.clock_enable_mode {
                Some(v) => Some(v@),
                None => None,
            },
        }
    }
}

/// An operating temperature range of the chip, in whole degrees.
#[derive(Clone, Copy, Debug, PartialEq, Eq, Structural)]
pub struct Temperature {
    pub max: i32,
    pub min: i32,
}

/// The chip descriptor: identity attributes plus the ordered pin list.
#[derive(Clone, Debug, PartialEq)]
pub struct Mcu {
    pub clock_tree: String,
    pub db_version: String,
    pub family: String,
    pub has_power_pad: bool,
    pub io_type: String,
    pub line: String,
    pub package: String,
    pub ref_name: String,
    pub ips: Vec<Ip>,
    pub pins: Vec<Pin>,
}

/// Mathematical model of an [`Mcu`].
pub struct McuView {
    pub clock_tree: Seq<char>,
    pub db_version: Seq<char>,
    pub family: Seq<char>,
    pub has_power_pad: bool,
    pub io_type: Seq<char>,
    pub line: Seq<char>,
    pub package: Seq<char>,
    pub ref_name: Seq<char>,
    pub ips: Seq<IpView>,
    pub pins: Seq<PinView>,
}

impl View for Mcu {
    type V = McuView;

    open spec fn view(&self) -> McuView {
        McuView {
            clock_tree: self.clock_tree@,
            db_version: self.db_version@,
            family: self.family@,
            has_power_pad: self.has_power_pad,
            io_type: self.io_type@,
            line: self.line@,
            package: self.package@,
            ref_name: self.ref_name@,
            ips: self.ips@.map_values(|i: Ip| i@),
            pins: self.pins@.map_values(|p: Pin| p@),
        }
    }
}

} // verus!
