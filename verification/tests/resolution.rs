use mcu_ioc::ioc::{Mcu, Pin, Signal};
use mcu_ioc::{parse_ioc, parse_project, GpioDriveMode, GpioMux, GpioPullMode, IocError};

fn catalog(pins: Vec<Pin>) -> Mcu {
    Mcu {
        clock_tree: "STM32F4".to_string(),
        db_version: "1.0".to_string(),
        family: "STM32F4".to_string(),
        has_power_pad: false,
        io_type: "".to_string(),
        line: "STM32F405/415".to_string(),
        package: "LQFP64".to_string(),
        ref_name: "STM32F407V(E-G)Tx".to_string(),
        ips: vec![],
        pins,
    }
}

fn pin(name: &str, position: &str, pin_type: &str) -> Pin {
    Pin {
        name: name.to_string(),
        position: position.to_string(),
        pin_type: pin_type.to_string(),
        variant: None,
        signals: vec![],
    }
}

const IDENTITY: &str = "Mcu.CPN=STM32F407\nMcu.Family=F4\nMcu.UserName=MyMcu\n";

#[test]
fn output_pushpull_scenario() {
    let text = "Mcu.CPN=STM32F407\nMcu.Family=F4\nMcu.UserName=MyMcu\nPA5.Signal=GPIO_Output\nPA5.GPIO_ModeDefaultOutputPP=GPIO_MODE_OUTPUT_PP\nPA5.GPIO_PuPd=GPIO_NOPULL\n";
    let map = parse_ioc(text).unwrap();
    let project = parse_project(map, catalog(vec![pin("PA5", "5", "I/O")])).unwrap();
    assert_eq!(project.cpn, "STM32F407");
    assert_eq!(project.family, "F4");
    assert_eq!(project.name, "MyMcu");
    assert_eq!(project.io_pins.len(), 1);
    let io = &project.io_pins[0];
    assert_eq!(io.position, "5");
    assert_eq!(io.name, "PA5");
    assert_eq!(io.gpio_name, "PA5");
    assert_eq!(io.gpio_cluster, 'A');
    assert_eq!(io.signal, "GPIO_Output");
    assert_eq!(io.user_defined_name, None);
    assert_eq!(io.gpio.mux_mode, GpioMux::Output(GpioDriveMode::PushPull));
    assert_eq!(io.gpio.pull_mode, GpioPullMode::Floating);
}

#[test]
fn missing_output_mode_scenario() {
    let text = format!("{}PA5.Signal=GPIO_Output\nPA5.GPIO_PuPd=GPIO_NOPULL\n", IDENTITY);
    let map = parse_ioc(&text).unwrap();
    match parse_project(map, catalog(vec![pin("PA5", "5", "I/O")])) {
        Err(IocError::MissingField(key)) => assert_eq!(key, "PA5.GPIO_ModeDefaultOutputPP"),
        other => panic!("expected MissingField, got {:?}", other.map(|p| p.io_pins.len())),
    }
}

#[test]
fn suffixed_pin_name_scenario() {
    // The signal and pull keys use the full pin name; the label key uses the
    // split gpio_name, so "PA5-1.GPIOLabel" is ignored in favour of
    // "PA5.GPIOLabel".
    let text = format!(
        "{}PA5-1.Signal=GPIO_Input\nPA5-1.GPIO_PuPd=GPIO_PULLUP\nPA5.GPIOLabel=LED\nPA5-1.GPIOLabel=WRONG\n",
        IDENTITY
    );
    let map = parse_ioc(&text).unwrap();
    let project = parse_project(map, catalog(vec![pin("PA5-1", "7", "I/O")])).unwrap();
    assert_eq!(project.io_pins.len(), 1);
    let io = &project.io_pins[0];
    assert_eq!(io.name, "PA5-1");
    assert_eq!(io.gpio_name, "PA5");
    assert_eq!(io.gpio_cluster, 'A');
    assert_eq!(io.user_defined_name, Some("LED".to_string()));
    assert_eq!(io.gpio.pull_mode, GpioPullMode::Up);
}

#[test]
fn resolving_twice_gives_equal_projects() {
    let text = format!("{}PA5.Signal=GPIO_Input\nPA5.GPIO_PuPd=GPIO_PULLDOWN\n", IDENTITY);
    let map = parse_ioc(&text).unwrap();
    let mcu = catalog(vec![pin("PA5", "5", "I/O"), pin("VDD", "6", "Power")]);
    let first = parse_project(map.clone(), mcu.clone()).unwrap();
    let second = parse_project(map, mcu).unwrap();
    assert_eq!(first, second);
}

#[test]
fn catalog_order_is_preserved() {
    let text = format!(
        "{}PB2.Signal=GPIO_Input\nPB2.GPIO_PuPd=GPIO_PULLUP\nPA1.Signal=GPIO_Input\nPA1.GPIO_PuPd=GPIO_PULLUP\nPC3.Signal=GPIO_Input\nPC3.GPIO_PuPd=GPIO_PULLUP\n",
        IDENTITY
    );
    let map = parse_ioc(&text).unwrap();
    let mcu = catalog(vec![
        pin("PA1", "1", "I/O"),
        pin("VSS", "2", "Power"),
        pin("PB2", "3", "I/O"),
        pin("PC3", "4", "I/O"),
    ]);
    let project = parse_project(map, mcu).unwrap();
    let names: Vec<&str> = project.io_pins.iter().map(|p| p.name.as_str()).collect();
    assert_eq!(names, vec!["PA1", "PB2", "PC3"]);
}

#[test]
fn non_io_pin_is_never_resolved() {
    // Even with a full set of GPIO properties, a power pin stays out.
    let text = format!("{}VDD.Signal=GPIO_Input\nVDD.GPIO_PuPd=GPIO_PULLUP\n", IDENTITY);
    let map = parse_ioc(&text).unwrap();
    let project = parse_project(map, catalog(vec![pin("VDD", "6", "Power")])).unwrap();
    assert_eq!(project.io_pins.len(), 0);
}

#[test]
fn pin_without_signal_is_skipped() {
    let map = parse_ioc(IDENTITY).unwrap();
    let project = parse_project(map, catalog(vec![pin("PA5", "5", "I/O")])).unwrap();
    assert_eq!(project.io_pins.len(), 0);
}

#[test]
fn unrecognized_pull_value_defaults_to_floating() {
    let text = format!("{}PA5.Signal=GPIO_Input\nPA5.GPIO_PuPd=banana\n", IDENTITY);
    let map = parse_ioc(&text).unwrap();
    let project = parse_project(map, catalog(vec![pin("PA5", "5", "I/O")])).unwrap();
    assert_eq!(project.io_pins[0].gpio.pull_mode, GpioPullMode::Floating);
}

#[test]
fn input_signal_with_pullup_and_pulldown() {
    let text = format!(
        "{}PA5.Signal=GPIO_Input\nPA5.GPIO_PuPd=GPIO_PULLUP\nPB6.Signal=GPIO_Input\nPB6.GPIO_PuPd=GPIO_PULLDOWN\n",
        IDENTITY
    );
    let map = parse_ioc(&text).unwrap();
    let project = parse_project(
        map,
        catalog(vec![pin("PA5", "5", "I/O"), pin("PB6", "6", "I/O")]),
    )
    .unwrap();
    assert_eq!(project.io_pins[0].gpio.mux_mode, GpioMux::Input);
    assert_eq!(project.io_pins[0].gpio.pull_mode, GpioPullMode::Up);
    assert_eq!(project.io_pins[1].gpio.pull_mode, GpioPullMode::Down);
}

#[test]
fn output_open_drain_mode() {
    let text = format!(
        "{}PA5.Signal=GPIO_Output\nPA5.GPIO_ModeDefaultOutputPP=GPIO_MODE_OUTPUT_OD\nPA5.GPIO_PuPd=GPIO_NOPULL\n",
        IDENTITY
    );
    let map = parse_ioc(&text).unwrap();
    let project = parse_project(map, catalog(vec![pin("PA5", "5", "I/O")])).unwrap();
    assert_eq!(
        project.io_pins[0].gpio.mux_mode,
        GpioMux::Output(GpioDriveMode::OpenDrain)
    );
}

#[test]
fn unrecognized_signal_is_skipped() {
    // Peripheral signals are out of scope: skipped, not an error, and the
    // pull property is not even required then.
    let text = format!("{}PA5.Signal=ADC1_IN0\n", IDENTITY);
    let map = parse_ioc(&text).unwrap();
    let project = parse_project(map, catalog(vec![pin("PA5", "5", "I/O")])).unwrap();
    assert_eq!(project.io_pins.len(), 0);
}

#[test]
fn unrecognized_output_mode_is_skipped() {
    let text = format!(
        "{}PA5.Signal=GPIO_Output\nPA5.GPIO_ModeDefaultOutputPP=GPIO_MODE_AF_PP\n",
        IDENTITY
    );
    let map = parse_ioc(&text).unwrap();
    let project = parse_project(map, catalog(vec![pin("PA5", "5", "I/O")])).unwrap();
    assert_eq!(project.io_pins.len(), 0);
}

#[test]
fn missing_cpn_is_reported() {
    let map = parse_ioc("Mcu.Family=F4\nMcu.UserName=MyMcu\n").unwrap();
    match parse_project(map, catalog(vec![])) {
        Err(IocError::MissingField(key)) => assert_eq!(key, "Mcu.CPN"),
        other => panic!("expected MissingField, got {:?}", other.map(|p| p.cpn)),
    }
}

#[test]
fn missing_family_is_reported() {
    let map = parse_ioc("Mcu.CPN=STM32F407\nMcu.UserName=MyMcu\n").unwrap();
    match parse_project(map, catalog(vec![])) {
        Err(IocError::MissingField(key)) => assert_eq!(key, "Mcu.Family"),
        other => panic!("expected MissingField, got {:?}", other.map(|p| p.cpn)),
    }
}

#[test]
fn missing_user_name_is_reported() {
    let map = parse_ioc("Mcu.CPN=STM32F407\nMcu.Family=F4\n").unwrap();
    match parse_project(map, catalog(vec![])) {
        Err(IocError::MissingField(key)) => assert_eq!(key, "Mcu.UserName"),
        other => panic!("expected MissingField, got {:?}", other.map(|p| p.cpn)),
    }
}

#[test]
fn missing_pull_property_is_reported() {
    let text = format!("{}PA5.Signal=GPIO_Input\n", IDENTITY);
    let map = parse_ioc(&text).unwrap();
    match parse_project(map, catalog(vec![pin("PA5", "5", "I/O")])) {
        Err(IocError::MissingField(key)) => assert_eq!(key, "PA5.GPIO_PuPd"),
        other => panic!("expected MissingField, got {:?}", other.map(|p| p.cpn)),
    }
}

#[test]
fn short_pin_name_is_invalid() {
    let text = format!("{}X.Signal=GPIO_Input\nX.GPIO_PuPd=GPIO_PULLUP\n", IDENTITY);
    let map = parse_ioc(&text).unwrap();
    match parse_project(map, catalog(vec![pin("X", "9", "I/O")])) {
        Err(IocError::InvalidPinName(name)) => assert_eq!(name, "X"),
        other => panic!("expected InvalidPinName, got {:?}", other.map(|p| p.cpn)),
    }
}

#[test]
fn missing_field_message_names_key() {
    let map = parse_ioc("").unwrap();
    let e = parse_project(map, catalog(vec![])).unwrap_err();
    assert_eq!(e.message(), "missing property: Mcu.CPN");
}

#[test]
fn inputs_are_carried_into_the_project() {
    let text = format!("{}PA5.Signal=GPIO_Input\nPA5.GPIO_PuPd=GPIO_NOPULL\n", IDENTITY);
    let map = parse_ioc(&text).unwrap();
    let mut p = pin("PA5", "5", "I/O");
    p.signals = vec![Signal { name: "GPIO_Input".to_string(), io_modes: None }];
    let mcu = catalog(vec![p]);
    let project = parse_project(map.clone(), mcu.clone()).unwrap();
    assert_eq!(project.mcu, mcu);
    assert_eq!(project.map, map);
    assert_eq!(project.mcu.pins[0].signals[0].name, "GPIO_Input");
}

#[test]
fn last_signal_binding_decides() {
    let text = format!(
        "{}PA5.Signal=ADC1_IN0\nPA5.Signal=GPIO_Input\nPA5.GPIO_PuPd=GPIO_PULLUP\n",
        IDENTITY
    );
    let map = parse_ioc(&text).unwrap();
    let project = parse_project(map, catalog(vec![pin("PA5", "5", "I/O")])).unwrap();
    assert_eq!(project.io_pins.len(), 1);
    assert_eq!(project.io_pins[0].gpio.mux_mode, GpioMux::Input);
}
