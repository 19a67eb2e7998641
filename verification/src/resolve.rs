//! The resolution rules: how one catalog pin and the property store decide
//! a pin's mux mode, pull mode, naming decomposition and label, and how the
//! whole catalog is folded into the ordered list of resolved I/O pins.
//!
//! The rules are stated once as spec functions; the executable resolver in
//! the crate root is proved to return exactly what they describe.

use crate::chars::find_char;
use crate::chars::spec_find_in;
use crate::chars::str_chars;
use crate::chars::str_eq;
use crate::ioc::PinView;
use crate::props::spec_lookup;
use crate::props::prepend_ok;
use crate::props::EntryView;
use crate::props::PropertyStore;
use crate::Gpio;
use crate::GpioDriveMode;
use crate::GpioMux;
use crate::GpioPullMode;
use crate::IoPin;
use crate::IoPinView;
use crate::IocError;
use crate::IocErrorView;
use crate::ioc::McuView;
use crate::ioc::Pin;
use crate::ProjectView;
use vstd::prelude::*;

verus! {

/// The electrical GPIO identifier of a pin: its catalog name with any
/// `-`-delimited alternate-function suffix stripped.
pub open spec fn spec_gpio_name(name: Seq<char>) -> Seq<char> {
    name.subrange(0, spec_find_in(name, '-', 0, name.len() as int))
}

/// The mux mode selected by a signal value, given the property store:
/// `Ok(Some(mux))` resolves, `Ok(None)` skips the pin (a signal kind out of
/// scope for GPIO resolution), `Err` reports a missing required property.
pub open spec fn spec_resolve_mux(
    m: Seq<EntryView>,
    pin_name: Seq<char>,
    signal: Seq<char>,
) -> Result<Option<GpioMux>, IocErrorView> {
    if signal == "GPIO_Input"@ {
        Ok(Some(GpioMux::Input))
    } else if signal == "GPIO_Output"@ {
        match spec_lookup(m, pin_name + ".GPIO_ModeDefaultOutputPP"@) {
            None => Err(IocErrorView::MissingField(pin_name + ".GPIO_ModeDefaultOutputPP"@)),
            Some(v) => if v == "GPIO_MODE_OUTPUT_PP"@ {
                Ok(Some(GpioMux::Output(GpioDriveMode::PushPull)))
            } else if v == "GPIO_MODE_OUTPUT_OD"@ {
                Ok(Some(GpioMux::Output(GpioDriveMode::OpenDrain)))
            } else {
                Ok(None)
            },
        }
    } else {
        Ok(None)
    }
}

/// The pull mode selected by the value of the `.GPIO_PuPd` property;
/// anything unrecognized defaults to floating.
pub open spec fn spec_pull_of(v: Seq<char>) -> GpioPullMode {
    if v == "GPIO_PULLUP"@ {
        GpioPullMode::Up
    } else if v == "GPIO_PULLDOWN"@ {
        GpioPullMode::Down
    } else {
        GpioPullMode::Floating
    }
}

/// Resolution of one catalog pin against the property store.
///
/// `Ok(None)` means the pin is skipped: it is not I/O-capable, the project
/// declares no signal for it, or the signal kind is outside the GPIO rules.
/// `Ok(Some(_))` is the fully resolved pin; `Err` a fatal failure.
pub open spec fn spec_resolve_pin(m: Seq<EntryView>, pin: PinView) -> Result<
    Option<IoPinView>,
    IocErrorView,
> {
    if pin.pin_type != "I/O"@ {
        Ok(None)
    } else {
        match spec_lookup(m, pin.name + ".Signal"@) {
            None => Ok(None),
            Some(signal) => match spec_resolve_mux(m, pin.name, signal) {
                Err(e) => Err(e),
                Ok(None) => Ok(None),
                Ok(Some(mux)) => match spec_lookup(m, pin.name + ".GPIO_PuPd"@) {
                    None => Err(IocErrorView::MissingField(pin.name + ".GPIO_PuPd"@)),
                    Some(pv) => {
                        let gpio_name = spec_gpio_name(pin.name);
                        if gpio_name.len() < 2 {
                            Err(IocErrorView::InvalidPinName(pin.name))
                        } else {
                            Ok(
                                Some(
                                    IoPinView {
                                        position: pin.position,
                                        name: pin.name,
                                        gpio_name: gpio_name,
                                        user_defined_name: spec_lookup(
                                            m,
                                            gpio_name + ".GPIOLabel"@,
                                        ),
                                        gpio_cluster: gpio_name[1],
                                        signal: signal,
                                        gpio: Gpio {
                                            mux_mode: mux,
                                            pull_mode: spec_pull_of(pv),
                                        },
                                    },
                                ),
                            )
                        }
                    },
                },
            },
        }
    }
}

/// Resolution of the catalog pins from index `i` on, in catalog order.
pub open spec fn spec_resolve_pins_from(
    m: Seq<EntryView>,
    pins: Seq<PinView>,
    i: int,
) -> Result<Seq<IoPinView>, IocErrorView>
    decreases pins.len() - i,
{
    if i < 0 || i >= pins.len() {
        Ok(Seq::empty())
    } else {
        match spec_resolve_pin(m, pins[i]) {
            Err(e) => Err(e),
            Ok(None) => spec_resolve_pins_from(m, pins, i + 1),
            Ok(Some(p)) => prepend_ok(seq![p], spec_resolve_pins_from(m, pins, i + 1)),
        }
    }
}

/// Resolution of the whole project: the three identity properties, each
/// required, then the catalog pins in order.
pub open spec fn spec_resolve_project(m: Seq<EntryView>, mcu: McuView) -> Result<
    ProjectView,
    IocErrorView,
> {
    match spec_lookup(m, "Mcu.CPN"@) {
        None => Err(IocErrorView::MissingField("Mcu.CPN"@)),
        Some(cpn) => match spec_lookup(m, "Mcu.Family"@) {
            None => Err(IocErrorView::MissingField("Mcu.Family"@)),
            Some(family) => match spec_lookup(m, "Mcu.UserName"@) {
                None => Err(IocErrorView::MissingField("Mcu.UserName"@)),
                Some(name) => match spec_resolve_pins_from(m, mcu.pins, 0) {
                    Err(e) => Err(e),
                    Ok(io_pins) => Ok(
                        ProjectView {
                            mcu: mcu,
                            map: m,
                            cpn: cpn,
                            family: family,
                            name: name,
                            io_pins: io_pins,
                        },
                    ),
                },
            },
        },
    }
}

/// True when resolution keeps `pin`: it is I/O-capable, the project
/// declares a signal for it that the GPIO rules recognize, and every
/// required property is present.
pub open spec fn spec_pin_kept(m: Seq<EntryView>, pin: PinView) -> bool {
    spec_resolve_pin(m, pin) matches Ok(Some(_))
}

/// The resolved form of a kept pin.
pub open spec fn spec_kept_pin(m: Seq<EntryView>, pin: PinView) -> IoPinView
    recommends
        spec_pin_kept(m, pin),
{
    match spec_resolve_pin(m, pin) {
        Ok(Some(io)) => io,
        _ => arbitrary(),
    }
}

/// Every element of a filtered sequence is an element of the source.
proof fn lemma_filter_elem_of<A>(s: Seq<A>, pred: spec_fn(A) -> bool, x: A)
    requires
        s.filter(pred).contains(x),
    ensures
        s.contains(x),
    decreases s.len(),
{
    reveal(Seq::filter);
    if s.len() > 0 {
        let sub = s.drop_last().filter(pred);
        if !pred(s.last()) || x != s.last() {
            assert(sub.contains(x)) by {
                if pred(s.last()) {
                    let k = choose|k: int|
                        0 <= k < sub.push(s.last()).len() && sub.push(s.last())[k] == x;
                    assert(sub[k] == x);
                }
            }
            lemma_filter_elem_of(s.drop_last(), pred, x);
            let j = choose|j: int| 0 <= j < s.drop_last().len() && s.drop_last()[j] == x;
            assert(s[j] == x);
        } else {
            assert(s[s.len() - 1] == x);
        }
    }
}

/// The resolved pins from index `i` on are exactly the kept pins of
/// `pins.subrange(i, ..)`, each resolved, in catalog order.
proof fn lemma_resolved_suffix(m: Seq<EntryView>, pins: Seq<PinView>, i: int)
    requires
        0 <= i <= pins.len(),
        spec_resolve_pins_from(m, pins, i) is Ok,
    ensures
        spec_resolve_pins_from(m, pins, i)->Ok_0 == pins.subrange(i, pins.len() as int).filter(
            |p: PinView| spec_pin_kept(m, p),
        ).map_values(|p: PinView| spec_kept_pin(m, p)),
    decreases pins.len() - i,
{
    reveal(Seq::filter);
    let pred = |p: PinView| spec_pin_kept(m, p);
    let f = |p: PinView| spec_kept_pin(m, p);
    let tail = pins.subrange(i, pins.len() as int);
    if i == pins.len() {
        assert(tail =~= Seq::<PinView>::empty());
        assert(tail.filter(pred).map_values(f) =~= Seq::<IoPinView>::empty());
    } else {
        let tail1 = pins.subrange(i + 1, pins.len() as int);
        let sing = seq![pins[i]];
        assert(tail =~= sing + tail1);
        Seq::<PinView>::filter_distributes_over_add(sing, tail1, pred);
        assert(sing.drop_last() =~= Seq::<PinView>::empty());
        assert(Seq::<PinView>::empty().filter(pred) =~= Seq::<PinView>::empty());
        lemma_resolved_suffix(m, pins, i + 1);
        assert((sing.filter(pred) + tail1.filter(pred)).map_values(f) =~= sing.filter(
            pred,
        ).map_values(f) + tail1.filter(pred).map_values(f));
        match spec_resolve_pin(m, pins[i]) {
            Err(_) => {},
            Ok(None) => {
                assert(!pred(pins[i]));
                assert(sing.filter(pred) =~= Seq::<PinView>::empty());
                assert(tail.filter(pred).map_values(f) =~= tail1.filter(pred).map_values(f));
            },
            Ok(Some(p)) => {
                assert(pred(pins[i]));
                assert(f(pins[i]) == p);
                assert(sing.filter(pred) =~= Seq::<PinView>::empty().push(pins[i]));
                assert(sing.filter(pred).map_values(f) =~= seq![p]);
                assert(spec_resolve_pins_from(m, pins, i)->Ok_0 =~= tail.filter(pred).map_values(
                    f,
                ));
            },
        }
    }
}

/// Order preservation and filter correctness in one statement: a successful
/// resolution of the catalog returns exactly the kept pins, each resolved,
/// in the catalog's own order.
pub proof fn lemma_io_pins_follow_catalog(m: Seq<EntryView>, pins: Seq<PinView>, ios: Seq<
    IoPinView,
>)
    requires
        spec_resolve_pins_from(m, pins, 0) == Ok::<Seq<IoPinView>, IocErrorView>(ios),
    ensures
        ios == pins.filter(|p: PinView| spec_pin_kept(m, p)).map_values(
            |p: PinView| spec_kept_pin(m, p),
        ),
{
    lemma_resolved_suffix(m, pins, 0);
    assert(pins.subrange(0, pins.len() as int) =~= pins);
}

/// A kept pin keeps its catalog identity: the resolved entry carries the
/// catalog pin's name, and only an I/O-typed, signal-configured pin is kept.
pub proof fn lemma_kept_pin_identity(m: Seq<EntryView>, pin: PinView)
    requires
        spec_pin_kept(m, pin),
    ensures
        spec_kept_pin(m, pin).name == pin.name,
        pin.pin_type == "I/O"@,
        spec_lookup(m, pin.name + ".Signal"@) is Some,
{
}

/// Filter correctness: a pin whose electrical type is not the I/O tag never
/// contributes a resolved pin, whatever the property store holds. Pins are
/// identified by name, which the catalog guarantees unique.
pub proof fn lemma_non_io_pin_excluded(
    m: Seq<EntryView>,
    pins: Seq<PinView>,
    ios: Seq<IoPinView>,
    i: int,
)
    requires
        spec_resolve_pins_from(m, pins, 0) == Ok::<Seq<IoPinView>, IocErrorView>(ios),
        0 <= i < pins.len(),
        pins[i].pin_type != "I/O"@,
        forall|a: int, b: int| 0 <= a < b < pins.len() ==> pins[a].name != pins[b].name,
    ensures
        forall|k: int| 0 <= k < ios.len() ==> (#[trigger] ios[k]).name != pins[i].name,
{
    lemma_io_pins_follow_catalog(m, pins, ios);
    let pred = |p: PinView| spec_pin_kept(m, p);
    let kept = pins.filter(pred);
    assert forall|k: int| 0 <= k < ios.len() implies (#[trigger] ios[k]).name != pins[i].name by {
        pins.lemma_filter_pred(pred, k);
        assert(kept.contains(kept[k]));
        lemma_filter_elem_of(pins, pred, kept[k]);
        let j = choose|j: int| 0 <= j < pins.len() && pins[j] == kept[k];
        lemma_kept_pin_identity(m, pins[j]);
        assert(j != i);
        assert(ios[k] == spec_kept_pin(m, pins[j]));
    }
}

/// Exclusion on missing signal: a pin for which the property store declares
/// no `<name>.Signal` property never contributes a resolved pin.
pub proof fn lemma_unconfigured_pin_excluded(
    m: Seq<EntryView>,
    pins: Seq<PinView>,
    ios: Seq<IoPinView>,
    i: int,
)
    requires
        spec_resolve_pins_from(m, pins, 0) == Ok::<Seq<IoPinView>, IocErrorView>(ios),
        0 <= i < pins.len(),
        spec_lookup(m, pins[i].name + ".Signal"@) is None,
    ensures
        forall|k: int| 0 <= k < ios.len() ==> (#[trigger] ios[k]).name != pins[i].name,
{
    lemma_io_pins_follow_catalog(m, pins, ios);
    let pred = |p: PinView| spec_pin_kept(m, p);
    let kept = pins.filter(pred);
    assert forall|k: int| 0 <= k < ios.len() implies (#[trigger] ios[k]).name != pins[i].name by {
        pins.lemma_filter_pred(pred, k);
        assert(kept.contains(kept[k]));
        lemma_filter_elem_of(pins, pred, kept[k]);
        let j = choose|j: int| 0 <= j < pins.len() && pins[j] == kept[k];
        lemma_kept_pin_identity(m, pins[j]);
        assert(ios[k] == spec_kept_pin(m, pins[j]));
        if pins[j].name == pins[i].name {
            assert(spec_lookup(m, pins[j].name + ".Signal"@) is Some);
        }
    }
}

/// Default pull mode: a resolved pin whose `.GPIO_PuPd` property carries a
/// value other than the two recognized ones ends up floating.
///
/// (A pin with the property absent altogether does not resolve at all: that
/// is the `MissingField` failure, so the default applies to present but
/// unrecognized values.)
pub proof fn lemma_default_pull_mode(m: Seq<EntryView>, pin: PinView, io: IoPinView)
    requires
        spec_resolve_pin(m, pin) == Ok::<Option<IoPinView>, IocErrorView>(Some(io)),
        spec_lookup(m, pin.name + ".GPIO_PuPd"@) matches Some(v) && v != "GPIO_PULLUP"@ && v
            != "GPIO_PULLDOWN"@,
    ensures
        io.gpio.pull_mode == GpioPullMode::Floating,
{
}

/// Idempotence: resolution is a pure function of the two inputs' models, so
/// any two results of resolving the same pair are equal.
pub proof fn lemma_resolution_deterministic(
    m: Seq<EntryView>,
    mcu: McuView,
    r1: Result<ProjectView, IocErrorView>,
    r2: Result<ProjectView, IocErrorView>,
)
    requires
        r1 == spec_resolve_project(m, mcu),
        r2 == spec_resolve_project(m, mcu),
    ensures
        r1 == r2,
{
}

/// The view of one exec pin-resolution result.
pub open spec fn view_pin_result(r: Result<Option<IoPin>, IocError>) -> Result<
    Option<IoPinView>,
    IocErrorView,
> {
    match r {
        Ok(None) => Ok(None),
        Ok(Some(p)) => Ok(Some(p@)),
        Err(e) => Err(e@),
    }
}

/// Resolves one catalog pin, returning exactly what [`spec_resolve_pin`]
/// describes.
pub fn resolve_pin(map: &PropertyStore, pin: &Pin) -> (r: Result<Option<IoPin>, IocError>)
    ensures
        view_pin_result(r) == spec_resolve_pin(map@, pin@),
{
    if !str_eq(pin.pin_type.as_str(), "I/O") {
        return Ok(None);
    }
    let signal_key = pin.name.clone().concat(".Signal");
    let signal = match map.get(signal_key.as_str()) {
        None => {
            return Ok(None);
        },
        Some(v) => v.clone(),
    };
    let mux: GpioMux;
    if str_eq(signal.as_str(), "GPIO_Input") {
        mux = GpioMux::Input;
    } else if str_eq(signal.as_str(), "GPIO_Output") {
        let mode_key = pin.name.clone().concat(".GPIO_ModeDefaultOutputPP");
        match map.get(mode_key.as_str()) {
            None => {
                return Err(IocError::MissingField(mode_key));
            },
            Some(v) => {
                if str_eq(v.as_str(), "GPIO_MODE_OUTPUT_PP") {
                    mux = GpioMux::Output(GpioDriveMode::PushPull);
                } else if str_eq(v.as_str(), "GPIO_MODE_OUTPUT_OD") {
                    mux = GpioMux::Output(GpioDriveMode::OpenDrain);
                } else {
                    return Ok(None);
                }
            },
        }
    } else {
        return Ok(None);
    }
    let pull_key = pin.name.clone().concat(".GPIO_PuPd");
    let pull = match map.get(pull_key.as_str()) {
        None => {
            return Err(IocError::MissingField(pull_key));
        },
        Some(v) => {
            if str_eq(v.as_str(), "GPIO_PULLUP") {
                GpioPullMode::Up
            } else if str_eq(v.as_str(), "GPIO_PULLDOWN") {
                GpioPullMode::Down
            } else {
                GpioPullMode::Floating
            }
        },
    };
    let name_chars = str_chars(pin.name.as_str());
    let d = find_char(&name_chars, 0, name_chars.len(), '-');
    if d < 2 {
        return Err(IocError::InvalidPinName(pin.name.clone()));
    }
    let gpio_name = pin.name.as_str().substring_char(0, d).to_owned();
    let gpio_cluster = name_chars[1];
    proof {
        assert(gpio_name@[1] == pin.name@[1]);
    }
    let label_key = gpio_name.clone().concat(".GPIOLabel");
    let user_defined_name = match map.get(label_key.as_str()) {
        Some(v) => Some(v.clone()),
        None => None,
    };
    Ok(
        Some(
            IoPin {
                position: pin.position.clone(),
                name: pin.name.clone(),
                gpio_name,
                user_defined_name,
                gpio_cluster,
                signal,
                gpio: Gpio { mux_mode: mux, pull_mode: pull },
            },
        ),
    )
}

} // verus!
