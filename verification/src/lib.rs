//! Resolves a microcontroller project description — a flat textual property
//! store plus a per-chip pin catalog — into a typed hardware configuration
//! model: each eligible pin's electrical role, pull resistor state, logical
//! grouping and user-facing name.
//!
//! [`parse_ioc`] turns the line-oriented `key=value` property text into a
//! [`props::PropertyStore`]; [`parse_project`] joins that store against the
//! catalog ([`ioc::Mcu`]) and produces the resolved [`McuProject`]. Both are
//! specified against mathematical models of their inputs, and the resolution
//! rules themselves are spec functions in [`resolve`].

pub mod chars;
pub mod ioc;
pub mod props;
pub mod resolve;

use crate::chars::find_char;
use crate::chars::lemma_find_in_bounds;
use crate::chars::str_chars;
use crate::ioc::Mcu;
use crate::ioc::McuView;
use crate::props::prepend_ok;
use crate::props::spec_lookup;
use crate::props::spec_parse_from;
use crate::props::spec_parse_props;
use crate::props::EntryView;
use crate::props::PropertyStore;
use crate::resolve::resolve_pin;
use crate::resolve::spec_resolve_pins_from;
use crate::resolve::spec_resolve_project;
use vstd::prelude::*;

verus! {

/// Pull resistor configuration of a GPIO pin.
#[derive(Clone, Copy, Debug, PartialEq, Eq, Structural)]
pub enum GpioPullMode {
    Floating,
    Up,
    Down,
}

/// Drive mode of a GPIO output pin.
#[derive(Clone, Copy, Debug, PartialEq, Eq, Structural)]
pub enum GpioDriveMode {
    PushPull,
    OpenDrain,
}

/// Electrical role a resolved pin is muxed to.
///
/// `Analog` is part of the closed variant set but no resolution rule
/// currently produces it; it is reserved for signal kinds outside the
/// digital GPIO rules.
#[derive(Clone, Copy, Debug, PartialEq, Eq, Structural)]
pub enum GpioMux {
    Analog,
    Input,
    Output(GpioDriveMode),
}

/// The resolved `{mux, pull}` configuration of a GPIO pin.
#[derive(Clone, Copy, Debug, PartialEq, Eq, Structural)]
pub struct Gpio {
    pub mux_mode: GpioMux,
    pub pull_mode: GpioPullMode,
}

/// One fully resolved I/O pin of the project.
#[derive(Clone, Debug, PartialEq)]
pub struct IoPin {
    /// Physical package location, copied from the catalog pin.
    pub position: String,
    /// Full catalog pin name, possibly with a `-`-delimited suffix.
    pub name: String,
    /// The name with any `-`-delimited suffix stripped.
    pub gpio_name: String,
    /// Human label from the `<gpio_name>.GPIOLabel` property, if present.
    pub user_defined_name: Option<String>,
    /// GPIO port/bank letter: the second character of `gpio_name`.
    pub gpio_cluster: char,
    /// The signal name that drives this pin.
    pub signal: String,
    /// The resolved mux and pull configuration.
    pub gpio: Gpio,
}

/// Mathematical model of an [`IoPin`].
pub struct IoPinView {
    pub position: Seq<char>,
    pub name: Seq<char>,
    pub gpio_name: Seq<char>,
    pub user_defined_name: Option<Seq<char>>,
    pub gpio_cluster: char,
    pub signal: Seq<char>,
    pub gpio: Gpio,
}

impl View for IoPin {
    type V = IoPinView;

    open spec fn view(&self) -> IoPinView {
        IoPinView {
            position: self.position@,
            name: self.name@,
            gpio_name: self.gpio_name@,
            user_defined_name: match self.user_defined_name {
                Some(v) => Some(v@),
                None => None,
            },
            gpio_cluster: self.gpio_cluster,
            signal: self.signal@,
            gpio: self.gpio,
        }
    }
}

/// The resolved project model: chip identity fields plus the ordered list
/// of resolved I/O pins.
#[derive(Clone, Debug, PartialEq)]
pub struct McuProject {
    pub mcu: Mcu,
    pub map: PropertyStore,
    pub cpn: String,
    pub family: String,
    pub name: String,
    pub io_pins: Vec<IoPin>,
}

/// Mathematical model of a [`McuProject`].
pub struct ProjectView {
    pub mcu: McuView,
    pub map: Seq<EntryView>,
    pub cpn: Seq<char>,
    pub family: Seq<char>,
    pub name: Seq<char>,
    pub io_pins: Seq<IoPinView>,
}

impl View for McuProject {
    type V = ProjectView;

    open spec fn view(&self) -> ProjectView {
        ProjectView {
            mcu: self.mcu@,
            map: self.map@,
            cpn: self.cpn@,
            family: self.family@,
            name: self.name@,
            io_pins: self.io_pins@.map_values(|p: IoPin| p@),
        }
    }
}

/// Why a resolution call failed. Every failure is fatal to the call and
/// carries the offending line or key so the caller can locate it.
#[derive(Clone, Debug, PartialEq)]
pub enum IocError {
    /// A non-comment, non-blank property line lacks a `=` separator.
    MalformedLine(String),
    /// A required identity or mode-dependent property is absent.
    MissingField(String),
    /// A catalog pin name is too short to derive a cluster character.
    InvalidPinName(String),
}

/// Mathematical model of an [`IocError`].
pub enum IocErrorView {
    MalformedLine(Seq<char>),
    MissingField(Seq<char>),
    InvalidPinName(Seq<char>),
}

impl View for IocError {
    type V = IocErrorView;

    open spec fn view(&self) -> IocErrorView {
        match self {
            IocError::MalformedLine(l) => IocErrorView::MalformedLine(l@),
            IocError::MissingField(k) => IocErrorView::MissingField(k@),
            IocError::InvalidPinName(n) => IocErrorView::InvalidPinName(n@),
        }
    }
}

/// The human-readable description of an [`IocError`], as a model.
pub open spec fn spec_message(e: IocErrorView) -> Seq<char> {
    match e {
        IocErrorView::MalformedLine(l) => "malformed property line: "@ + l,
        IocErrorView::MissingField(k) => "missing property: "@ + k,
        IocErrorView::InvalidPinName(n) => "pin name too short: "@ + n,
    }
}

impl IocError {
    /// A human-readable description of the failure.
    pub fn message(&self) -> (r: String)
        ensures
            r@ == spec_message(self@),
    {
        match self {
            IocError::MalformedLine(l) => "malformed property line: ".to_owned().concat(
                l.as_str(),
            ),
            IocError::MissingField(k) => "missing property: ".to_owned().concat(k.as_str()),
            IocError::InvalidPinName(n) => "pin name too short: ".to_owned().concat(n.as_str()),
        }
    }
}

/// Parses the line-oriented property text into a [`PropertyStore`].
///
/// Empty lines and lines starting with `#` are skipped; every other line
/// is split at its first `=` into key and value, and a later binding of a
/// key shadows an earlier one. A line with no `=` fails with
/// [`IocError::MalformedLine`] carrying that line.
pub fn parse_ioc(s: &str) -> (r: Result<PropertyStore, IocError>)
    ensures
        match r {
            Ok(ps) => spec_parse_props(s@) matches Ok(entries) && ps@ == entries,
            Err(e) => spec_parse_props(s@) matches Err(line) && e@
                == IocErrorView::MalformedLine(line),
        },
{
    let v = str_chars(s);
    let n = v.len();
    let mut store = PropertyStore::new();
    let mut i: usize = 0;
    proof {
        assert(store@ + spec_parse_from(s@, 0)->Ok_0 =~= spec_parse_from(s@, 0)->Ok_0);
    }
    while i < n
        invariant
            v@ == s@,
            n == v.len(),
            i <= n,
            prepend_ok(store@, spec_parse_from(s@, i as int)) == spec_parse_props(s@),
        decreases n - i,
    {
        let j = find_char(&v, i, n, '\n');
        proof {
            lemma_find_in_bounds(s@, '\n', i as int, n as int);
        }
        let end = if j < n && i < j && v[j - 1] == '\r' {
            j - 1
        } else {
            j
        };
        let next = if j < n {
            j + 1
        } else {
            j
        };
        if end == i || v[i] == '#' {
            // comment or blank line: declares nothing
        } else {
            let e = find_char(&v, i, end, '=');
            if e == end {
                let line = s.substring_char(i, end).to_owned();
                return Err(IocError::MalformedLine(line));
            } else {
                let key = s.substring_char(i, e).to_owned();
                let value = s.substring_char(e + 1, end).to_owned();
                let ghost pre = store@;
                store.insert(key, value);
                proof {
                    let rest = spec_parse_from(s@, next as int);
                    if rest is Ok {
                        assert(store@ + rest->Ok_0 =~= pre + (seq![
                            (s@.subrange(i as int, e as int), s@.subrange(e + 1, end as int)),
                        ] + rest->Ok_0));
                    }
                }
            }
        }
        i = next;
    }
    proof {
        assert(store@ + Seq::<EntryView>::empty() =~= store@);
    }
    Ok(store)
}

/// Resolves the project: extracts the three identity properties, then
/// joins the property store against the catalog pins, in catalog order,
/// producing the resolved project model.
///
/// The result is exactly what [`spec_resolve_project`] describes of the
/// two inputs' models: `Ok` precisely when the identity properties are
/// present and every eligible pin resolves, `Err` naming the missing
/// property or offending pin otherwise.
pub fn parse_project(map: PropertyStore, mcu: Mcu) -> (r: Result<McuProject, IocError>)
    ensures
        match r {
            Ok(p) => spec_resolve_project(map@, mcu@) matches Ok(pv) && p@ == pv,
            Err(e) => spec_resolve_project(map@, mcu@) matches Err(ev) && e@ == ev,
        },
{
    let cpn = match map.get("Mcu.CPN") {
        Some(v) => v.clone(),
        None => {
            return Err(IocError::MissingField("Mcu.CPN".to_owned()));
        },
    };
    let family = match map.get("Mcu.Family") {
        Some(v) => v.clone(),
        None => {
            return Err(IocError::MissingField("Mcu.Family".to_owned()));
        },
    };
    let name = match map.get("Mcu.UserName") {
        Some(v) => v.clone(),
        None => {
            return Err(IocError::MissingField("Mcu.UserName".to_owned()));
        },
    };
    let mut io_pins: Vec<IoPin> = Vec::new();
    let mut i: usize = 0;
    proof {
        assert(io_pins@.map_values(|p: IoPin| p@) =~= Seq::<IoPinView>::empty());
        assert(io_pins@.map_values(|p: IoPin| p@) + spec_resolve_pins_from(map@, mcu@.pins, 0)->Ok_0
            =~= spec_resolve_pins_from(map@, mcu@.pins, 0)->Ok_0);
    }
    while i < mcu.pins.len()
        invariant
            i <= mcu.pins.len(),
            mcu@.pins.len() == mcu.pins.len(),
            spec_lookup(map@, "Mcu.CPN"@) == Some(cpn@),
            spec_lookup(map@, "Mcu.Family"@) == Some(family@),
            spec_lookup(map@, "Mcu.UserName"@) == Some(name@),
            prepend_ok(
                io_pins@.map_values(|p: IoPin| p@),
                spec_resolve_pins_from(map@, mcu@.pins, i as int),
            ) == spec_resolve_pins_from(map@, mcu@.pins, 0),
        decreases mcu.pins.len() - i,
    {
        let ghost pre = io_pins@.map_values(|p: IoPin| p@);
        match resolve_pin(&map, &mcu.pins[i]) {
            Err(e) => {
                return Err(e);
            },
            Ok(None) => {},
            Ok(Some(p)) => {
                io_pins.push(p);
                proof {
                    let rest = spec_resolve_pins_from(map@, mcu@.pins, i + 1);
                    assert(io_pins@.map_values(|p: IoPin| p@) =~= pre.push(p@));
                    if rest is Ok {
                        assert(io_pins@.map_values(|p: IoPin| p@) + rest->Ok_0 =~= pre + (seq![p@]
                            + rest->Ok_0));
                    }
                }
            },
        }
        i = i + 1;
    }
    proof {
        assert(io_pins@.map_values(|p: IoPin| p@) + Seq::<IoPinView>::empty() =~= io_pins@
            .map_values(|p: IoPin| p@));
    }
    Ok(McuProject { mcu, map, cpn, family, name, io_pins })
}

} // verus!
