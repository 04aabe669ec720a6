use smart_house::decorator::{
    base_look, Base, DynDebugDecorator, DynPrint, GenDebugDecorator, Inspect, Print,
};
use smart_house::device::{
    outlet_look, thermometer_look, Device, DeviceConfig, DeviceError, DeviceStatus, SmartDevices,
    SmartOutlet, SmartThermometer,
};
use smart_house::ident::{id_char, ID_TEXT_LEN};
use smart_house::text::{decimal_text, digit_text, listing_text, signed_decimal_text, truth_text};

#[test]
fn thermometer_new() {
    assert_eq!(
        SmartThermometer::new("test".to_string(), None),
        SmartThermometer {
            description: "test".to_string(),
            temperature: 0,
        }
    );
}

#[test]
fn thermometer_display() {
    assert_eq!(
        SmartThermometer::new("test".to_string(), None).to_string(),
        "Description: test,\nTemperature: 0"
    );
}

#[test]
fn outlet_new() {
    assert_eq!(
        SmartOutlet::new("test".to_string(), None),
        SmartOutlet {
            description: "test".to_string(),
            power: 0,
        }
    );
}

#[test]
fn outlet_display() {
    assert_eq!(
        SmartOutlet::new("test".to_string(), None).to_string(),
        "Description: test,\nPower: 0"
    );
}

#[test]
fn test_get_name() {
    let test_outlet = DeviceConfig::Outlet(SmartOutlet::new("test".to_string(), None));
    let test_dev = Device::new("test_device".to_string(), test_outlet, None);
    assert_eq!(test_dev.name(), "test_device".to_string());
    assert_eq!(Device::get_name(&test_dev), "test_device".to_string());
}

#[test]
fn device_get_name() {
    let test_outlet = DeviceConfig::Outlet(SmartOutlet::new("test_outlet".to_string(), None));
    let test_dev = Device::new("test_device".to_string(), test_outlet, None);
    assert_eq!(test_dev.name(), "test_device".to_string());
}

#[test]
fn device_get_config_outlet() {
    let test_outlet = DeviceConfig::Outlet(SmartOutlet::new("test_outlet".to_string(), None));
    let test_dev = Device::new("test_device".to_string(), test_outlet, None);
    let config = match test_dev.config() {
        DeviceConfig::Outlet(config) => config,
        _ => unreachable!(),
    };
    assert_eq!(
        format!("{config:?}"),
        "SmartOutlet { description: \"test_outlet\", power: 0 }"
    );
    assert_eq!(
        test_dev.config().debug(),
        "SmartOutlet { description: \"test_outlet\", power: 0 }"
    );
}

#[test]
fn device_get_config_thermometer() {
    let test_thermometer =
        DeviceConfig::Thermometer(SmartThermometer::new("test_thermometer".to_string(), None));
    let test_dev = Device::new("test_device".to_string(), test_thermometer, None);
    let config = match test_dev.config() {
        DeviceConfig::Thermometer(config) => config,
        _ => unreachable!(),
    };
    assert_eq!(
        format!("{config:?}"),
        "SmartThermometer { description: \"test_thermometer\", temperature: 0 }"
    );
    assert_eq!(
        test_dev.config().debug(),
        "SmartThermometer { description: \"test_thermometer\", temperature: 0 }"
    );
}

#[test]
fn given_values_are_kept() {
    let outlet = SmartOutlet::new("kettle".to_string(), Some(220));
    assert_eq!((outlet.description(), *outlet.power()), ("kettle", 220));
    assert_eq!(outlet.to_string(), "Description: kettle,\nPower: 220");
    assert_eq!(outlet.duplicate(), outlet);
    let thermometer = SmartThermometer::new("porch".to_string(), Some(-17));
    assert_eq!((thermometer.description(), *thermometer.temperature()), ("porch", -17));
    assert_eq!(thermometer.to_string(), "Description: porch,\nTemperature: -17");
    assert_eq!(thermometer.duplicate(), thermometer);
}

#[test]
fn device_text_and_switch() {
    let mut device = Device::new(
        "Lamp".to_string(),
        DeviceConfig::Outlet(SmartOutlet::new("desc".to_string(), Some(7))),
        None,
    );
    assert!(!*device.on());
    assert_eq!(device.to_string(), "Name: Lamp,\nOn: false,\nDescription: desc,\nPower: 7");
    device.switch_mutable();
    let back = device.switch_immutable();
    assert!(!*back.on() && *device.on());
    assert_eq!((back.id(), back.name(), back.config()), (device.id(), device.name(), device.config()));
    assert!(*device.on());
    assert_eq!(device.to_string(), "Name: Lamp,\nOn: true,\nDescription: desc,\nPower: 7");
    let on = Device::new(
        "T".to_string(),
        DeviceConfig::Thermometer(SmartThermometer::new("t".to_string(), Some(25))),
        Some(true),
    );
    assert_eq!(on.to_string(), "Name: T,\nOn: true,\nDescription: t,\nTemperature: 25");
}

#[test]
fn fresh_identifiers_are_random_version_four() {
    let config = || DeviceConfig::Outlet(SmartOutlet::new("d".to_string(), None));
    let a = Device::new("a".to_string(), config(), None);
    let b = Device::new("a".to_string(), config(), None);
    for id in [*a.id(), *b.id()] {
        assert_eq!(id & 0xF000_C000_0000_0000_0000, 0x4000_8000_0000_0000_0000);
    }
    assert_ne!(a.id(), b.id());
}

#[test]
fn thermometer_shows_the_last_reading() {
    let mut thermometer = SmartThermometer::new("t".to_string(), Some(5));
    assert_eq!(thermometer.listening(vec![]), Ok(()));
    assert_eq!(thermometer.temperature, 5);
    assert_eq!(thermometer.listening(vec![20, 21, 0xff]), Ok(()));
    assert_eq!(thermometer.temperature, -1);
    assert_eq!(thermometer.listening(vec![0x80]), Ok(()));
    assert_eq!(thermometer.temperature, -128);
    assert_eq!(thermometer.listening(vec![0x7f]), Ok(()));
    assert_eq!(thermometer.temperature, 127);
    assert_eq!(thermometer.description, "t");

    let mut config = DeviceConfig::Thermometer(thermometer);
    assert_eq!(config.listening(vec![30]), Ok(()));
    assert_eq!(config.to_string(), "Description: t,\nTemperature: 30");
}

#[test]
fn outlet_has_no_ear() {
    let mut outlet = SmartOutlet::new("o".to_string(), Some(3));
    assert_eq!(outlet.listening(vec![1, 2]), Err(DeviceError::Unrealized));
    assert_eq!(outlet, SmartOutlet::new("o".to_string(), Some(3)));
    let mut config = DeviceConfig::Outlet(outlet);
    assert_eq!(config.listening(vec![9]), Err(DeviceError::Unrealized));
    assert_eq!(config.to_string(), "Description: o,\nPower: 3");
}

#[test]
fn numerals() {
    let shown: Vec<String> = [0u8, 7, 9, 10, 42, 99, 100, 101, 110, 200, 255]
        .iter()
        .map(|n| decimal_text(*n))
        .collect();
    assert_eq!(shown, ["0", "7", "9", "10", "42", "99", "100", "101", "110", "200", "255"]);
    for n in i8::MIN..=i8::MAX {
        assert_eq!(signed_decimal_text(n), n.to_string());
    }
    for n in 0..=u8::MAX {
        assert_eq!(decimal_text(n), n.to_string());
    }
    assert_eq!(digit_text(4), "4");
    assert_eq!((truth_text(true), truth_text(false)), ("true", "false"));
}

#[test]
fn listing_puts_entries_between_braces() {
    assert_eq!(listing_text("n", ":\n[\n", &vec![]), "Name: n:\n[\n]");
    assert_eq!(
        listing_text("n", ",\nX:\n[\n", &vec!["a".to_string(), "b c".to_string()]),
        "Name: n,\nX:\n[\n{\na\n},\n{\nb c\n},\n]"
    );
}

#[test]
fn decorators_say_how_the_wrapped_printer_looks() {
    let t = Base { text: "Hello, World!".to_string() };
    assert_eq!(t.print(), "Hello, World!\n");
    assert_eq!(t.dynprint(), "Hello, World!");
    assert_eq!(t.inspect(), "Base { text: \"Hello, World!\" }");
    assert_eq!(t.look(), "Base { text: \"Hello, World!\" }");

    let gt = GenDebugDecorator::new(t.duplicate());
    assert_eq!(gt.print(), "Base { text: \"Hello, World!\" }\nHello, World!\n");
    assert_eq!(gt.0.text, "Hello, World!");

    let dt = DynDebugDecorator::new(Box::new(t.duplicate()));
    assert_eq!(dt.dynprint(), "Base { text: \"Hello, World!\" }\nHello, World!");
}

#[test]
fn debug_text_escapes_quotes_and_breaks() {
    let t = Base { text: "say \"hi\"\n\\ tab\t".to_string() };
    assert_eq!(t.inspect(), "Base { text: \"say \\\"hi\\\"\\n\\\\ tab\\t\" }");
    assert_eq!(t.inspect(), format!("Base {{ text: {:?} }}", t.text));
}

#[test]
fn new() {
    assert_eq!(
        SmartThermometer::new("test".to_string(), None),
        SmartThermometer {
            description: "test".to_string(),
            temperature: 0,
        }
    );
}

#[test]
fn display() {
    assert_eq!(
        SmartThermometer::new("test".to_string(), None).to_string(),
        "Description: test,\nTemperature: 0"
    );
}

#[test]
fn status_tells_the_device_field_by_field() {
    let mut device = Device::new(
        "Lamp".to_string(),
        DeviceConfig::Outlet(SmartOutlet::new("by the \"door\"".to_string(), Some(60))),
        None,
    );
    device.switch_mutable();
    let status = device.get_status();
    let id = *device.id();
    let expected = format!(
        "{:08x}-{:04x}-{:04x}-{:04x}-{:012x}",
        id >> 96,
        (id >> 80) & 0xffff,
        (id >> 64) & 0xffff,
        (id >> 48) & 0xffff,
        id & 0xffff_ffff_ffff
    );
    assert_eq!(
        status,
        DeviceStatus {
            id: expected,
            name: "Lamp".to_string(),
            on: true,
            config: "SmartOutlet { description: \"by the \\\"door\\\"\", power: 60 }".to_string(),
        }
    );
    assert_eq!(status.id.len(), ID_TEXT_LEN);
    let spelled: String = (0..ID_TEXT_LEN).map(|i| id_char(id, i)).collect();
    assert_eq!(spelled, status.id);
    assert_eq!(status.id.as_bytes()[14], b'4');
}

#[test]
fn identifier_text_is_hyphenated_lower_case_hexadecimal() {
    let id: u128 = 0x0123_4567_89ab_cdef_fedc_ba98_7654_3210;
    let spelled: String = (0..ID_TEXT_LEN).map(|i| id_char(id, i)).collect();
    assert_eq!(spelled, "01234567-89ab-cdef-fedc-ba9876543210");
    let zero: String = (0..ID_TEXT_LEN).map(|i| id_char(0, i)).collect();
    assert_eq!(zero, "00000000-0000-0000-0000-000000000000");
    let full: String = (0..ID_TEXT_LEN).map(|i| id_char(u128::MAX, i)).collect();
    assert_eq!(full, "ffffffff-ffff-ffff-ffff-ffffffffffff");
}

#[test]
fn looks_are_built_around_the_quoted_text() {
    assert_eq!(base_look("\"a\""), "Base { text: \"a\" }");
    assert_eq!(base_look(""), "Base { text:  }");
    assert_eq!(outlet_look("\"o\"", 255), "SmartOutlet { description: \"o\", power: 255 }");
    assert_eq!(
        thermometer_look("\"t\"", -128),
        "SmartThermometer { description: \"t\", temperature: -128 }"
    );
}
