//! The devices of a smart house.

use crate::ident::{fresh_id, id_text, id_to_string, is_random_id};
use crate::text::{
    debug_quoted, decimal, decimal_text, quoted, signed_decimal, signed_decimal_text, truth,
    truth_text,
};
use vstd::prelude::*;
use vstd::string::*;

verus! {

/// What every kind of device offers: a text of its configuration, and an ear
/// for telemetry where it has one.
pub trait SmartDevices {
    /// The text of the configuration.
    spec fn spec_text(&self) -> Seq<char>;

    /// How the configuration looks, field by field.
    spec fn spec_debug(&self) -> Seq<char>;

    /// The device takes telemetry.
    spec fn listens(&self) -> bool;

    /// How the configuration looks, field by field.
    fn debug(&self) -> (look: String)
        ensures
            look@ == self.spec_debug(),
    ;

    /// The text of the configuration.
    fn to_string(&self) -> (text: String)
        ensures
            text@ == self.spec_text(),
    ;

    /// Takes telemetry in. A device that does not listen stays as it is and
    /// says `Unrealized`.
    fn listening(&mut self, data: Vec<u8>) -> (outcome: Result<(), DeviceError>)
        ensures
            outcome is Ok <==> old(self).listens(),
            outcome matches Err(e) ==> e == DeviceError::Unrealized,
            final(self).listens() == old(self).listens(),
    ;
}

/// Why telemetry was not taken in.
#[derive(Debug, Clone, Copy, PartialEq, Eq, Structural)]
pub enum DeviceError {
    /// The device has no ear for telemetry.
    Unrealized,
}

/// How an outlet looks whose description, quoted, is `description`.
pub open spec fn spec_outlet_look(description: Seq<char>, power: u8) -> Seq<char> {
    "SmartOutlet { description: "@ + description + ", power: "@ + decimal(power as nat) + " }"@
}

/// How a thermometer looks whose description, quoted, is `description`.
pub open spec fn spec_thermometer_look(description: Seq<char>, temperature: i8) -> Seq<char> {
    "SmartThermometer { description: "@ + description + ", temperature: "@ + signed_decimal(
        temperature as int,
    ) + " }"@
}

/// How an outlet looks whose description, quoted, is `description`.
pub fn outlet_look(description: &str, power: u8) -> (look: String)
    ensures
        look@ == spec_outlet_look(description@, power),
{
    let mut look = "SmartOutlet { description: ".to_owned();
    look.append(description);
    look.append(", power: ");
    let power = decimal_text(power);
    look.append(power.as_str());
    look.append(" }");
    look
}

/// How a thermometer looks whose description, quoted, is `description`.
pub fn thermometer_look(description: &str, temperature: i8) -> (look: String)
    ensures
        look@ == spec_thermometer_look(description@, temperature),
{
    let mut look = "SmartThermometer { description: ".to_owned();
    look.append(description);
    look.append(", temperature: ");
    let temperature = signed_decimal_text(temperature);
    look.append(temperature.as_str());
    look.append(" }");
    look
}

/// A socket outlet.
#[derive(Debug, PartialEq)]
pub struct SmartOutlet {
    /// What it is.
    pub description: String,
    /// The power drawn through it.
    pub power: u8,
}

impl SmartOutlet {
    /// An outlet; one that is not told its power draws none.
    pub fn new(description: String, power: Option<u8>) -> (outlet: SmartOutlet)
        ensures
            outlet.description == description,
            outlet.power == (match power {
                Some(p) => p,
                None => 0,
            }),
    {
        let power = match power {
            Some(p) => p,
            None => 0,
        };
        SmartOutlet { description, power }
    }

    /// What it is.
    pub fn description(&self) -> (description: &str)
        ensures
            description@ == self.description@,
    {
        self.description.as_str()
    }

    /// The power drawn through it.
    pub fn power(&self) -> (power: &u8)
        ensures
            *power == self.power,
    {
        &self.power
    }

    /// A copy.
    pub fn duplicate(&self) -> (copy: SmartOutlet)
        ensures
            copy == *self,
    {
        SmartOutlet { description: self.description.clone(), power: self.power }
    }
}

impl SmartDevices for SmartOutlet {
    open spec fn spec_text(&self) -> Seq<char> {
        "Description: "@ + self.description@ + ",\nPower: "@ + decimal(self.power as nat)
    }

    open spec fn spec_debug(&self) -> Seq<char> {
        spec_outlet_look(debug_quoted(self.description@), self.power)
    }

    open spec fn listens(&self) -> bool {
        false
    }

    fn debug(&self) -> (look: String) {
        let description = quoted(self.description.as_str());
        outlet_look(description.as_str(), self.power)
    }

    fn to_string(&self) -> (text: String) {
        let mut text = "Description: ".to_owned();
        text.append(self.description.as_str());
        text.append(",\nPower: ");
        let power = decimal_text(self.power);
        text.append(power.as_str());
        text
    }

    fn listening(&mut self, data: Vec<u8>) -> (outcome: Result<(), DeviceError>)
        ensures
            *final(self) == *old(self),
    {
        Err(DeviceError::Unrealized)
    }
}

/// A thermometer.
#[derive(Debug, PartialEq)]
pub struct SmartThermometer {
    /// What it is.
    pub description: String,
    /// What it last measured.
    pub temperature: i8,
}

/// The signed reading that one byte of telemetry carries.
pub open spec fn reading(byte: u8) -> i8 {
    if byte < 128 {
        byte as i8
    } else {
        (byte - 256) as i8
    }
}

/// The temperature after the readings of `data`, taken in order: the last
/// one, or `before` where there is none.
pub open spec fn last_reading(before: i8, data: Seq<u8>) -> i8 {
    if data.len() == 0 {
        before
    } else {
        reading(data.last())
    }
}

impl SmartThermometer {
    /// A thermometer; one that is not told its temperature shows zero.
    pub fn new(description: String, temperature: Option<i8>) -> (thermometer: SmartThermometer)
        ensures
            thermometer.description == description,
            thermometer.temperature == (match temperature {
                Some(t) => t,
                None => 0,
            }),
    {
        let temperature = match temperature {
            Some(t) => t,
            None => 0,
        };
        SmartThermometer { description, temperature }
    }

    /// What it is.
    pub fn description(&self) -> (description: &str)
        ensures
            description@ == self.description@,
    {
        self.description.as_str()
    }

    /// What it last measured.
    pub fn temperature(&self) -> (temperature: &i8)
        ensures
            *temperature == self.temperature,
    {
        &self.temperature
    }

    /// A copy.
    pub fn duplicate(&self) -> (copy: SmartThermometer)
        ensures
            copy == *self,
    {
        SmartThermometer { description: self.description.clone(), temperature: self.temperature }
    }
}

impl SmartDevices for SmartThermometer {
    open spec fn spec_text(&self) -> Seq<char> {
        "Description: "@ + self.description@ + ",\nTemperature: "@ + signed_decimal(
            self.temperature as int,
        )
    }

    open spec fn spec_debug(&self) -> Seq<char> {
        spec_thermometer_look(debug_quoted(self.description@), self.temperature)
    }

    open spec fn listens(&self) -> bool {
        true
    }

    fn debug(&self) -> (look: String) {
        let description = quoted(self.description.as_str());
        thermometer_look(description.as_str(), self.temperature)
    }

    fn to_string(&self) -> (text: String) {
        let mut text = "Description: ".to_owned();
        text.append(self.description.as_str());
        text.append(",\nTemperature: ");
        let temperature = signed_decimal_text(self.temperature);
        text.append(temperature.as_str());
        text
    }

    /// Every byte is one reading; the thermometer shows the last.
    fn listening(&mut self, data: Vec<u8>) -> (outcome: Result<(), DeviceError>)
        ensures
            final(self).description == old(self).description,
            final(self).temperature == last_reading(old(self).temperature, data@),
    {
        let mut i: usize = 0;
        while i < data.len()
            invariant
                i <= data.len(),
                self.description == old(self).description,
                self.temperature == last_reading(old(self).temperature, data@.subrange(0, i as int)),
            decreases data.len() - i,
        {
            let byte = data[i];
            let value: i8 = if byte < 128 {
                byte as i8
            } else {
                (byte as i16 - 256) as i8
            };
            self.temperature = value;
            proof {
                assert(data@.subrange(0, i as int + 1).last() == data@[i as int]);
            }
            i += 1;
        }
        proof {
            assert(data@.subrange(0, data@.len() as int) =~= data@);
        }
        Ok(())
    }
}

/// What a device is, with what it knows of itself.
#[derive(Debug, PartialEq)]
pub enum DeviceConfig {
    /// A socket outlet.
    Outlet(SmartOutlet),
    /// A thermometer.
    Thermometer(SmartThermometer),
}

impl DeviceConfig {
    /// A copy.
    pub fn duplicate(&self) -> (copy: DeviceConfig)
        ensures
            copy == *self,
    {
        match self {
            DeviceConfig::Outlet(outlet) => DeviceConfig::Outlet(outlet.duplicate()),
            DeviceConfig::Thermometer(thermometer) => DeviceConfig::Thermometer(
                thermometer.duplicate(),
            ),
        }
    }
}

impl SmartDevices for DeviceConfig {
    open spec fn spec_text(&self) -> Seq<char> {
        match self {
            DeviceConfig::Outlet(outlet) => outlet.spec_text(),
            DeviceConfig::Thermometer(thermometer) => thermometer.spec_text(),
        }
    }

    open spec fn spec_debug(&self) -> Seq<char> {
        match self {
            DeviceConfig::Outlet(outlet) => outlet.spec_debug(),
            DeviceConfig::Thermometer(thermometer) => thermometer.spec_debug(),
        }
    }

    open spec fn listens(&self) -> bool {
        self is Thermometer
    }

    fn debug(&self) -> (look: String) {
        match self {
            DeviceConfig::Outlet(outlet) => outlet.debug(),
            DeviceConfig::Thermometer(thermometer) => thermometer.debug(),
        }
    }

    fn to_string(&self) -> (text: String) {
        match self {
            DeviceConfig::Outlet(outlet) => outlet.to_string(),
            DeviceConfig::Thermometer(thermometer) => thermometer.to_string(),
        }
    }

    /// A thermometer takes the readings; an outlet stays as it is.
    fn listening(&mut self, data: Vec<u8>) -> (outcome: Result<(), DeviceError>)
        ensures
            *old(self) is Outlet ==> *final(self) == *old(self),
            *old(self) matches DeviceConfig::Thermometer(before) ==> (*final(self)
                matches DeviceConfig::Thermometer(after) && after.description
                == before.description && after.temperature == last_reading(
                before.temperature,
                data@,
            )),
    {
        match self {
            DeviceConfig::Outlet(outlet) => outlet.listening(data),
            DeviceConfig::Thermometer(thermometer) => thermometer.listening(data),
        }
    }
}

/// What a device says of itself when asked for its status.
#[derive(Debug, PartialEq, Eq)]
pub struct DeviceStatus {
    /// The text of the identifier.
    pub id: String,
    /// The name.
    pub name: String,
    /// Whether the device is switched on.
    pub on: bool,
    /// How the configuration looks.
    pub config: String,
}

/// A device of a smart house.
#[derive(Debug, PartialEq)]
pub struct Device {
    /// The number of its identifier.
    pub id: u128,
    /// Its name.
    pub name: String,
    /// Whether it is switched on.
    pub on: bool,
    /// What it is, with what it knows of itself.
    pub config: DeviceConfig,
}

impl Device {
    /// The text of the device: its name, whether it is on, and its
    /// configuration.
    pub open spec fn spec_text(&self) -> Seq<char> {
        "Name: "@ + self.name@ + ",\nOn: "@ + truth(self.on) + ",\n"@ + self.config.spec_text()
    }

    /// A device with a fresh identifier; one that is not told so is off.
    pub fn new(name: String, config: DeviceConfig, on: Option<bool>) -> (device: Device)
        ensures
            device.name == name,
            device.config == config,
            device.on == (match on {
                Some(b) => b,
                None => false,
            }),
            is_random_id(device.id),
    {
        let on = match on {
            Some(b) => b,
            None => false,
        };
        Device { id: fresh_id(), name, on, config }
    }

    /// The number of its identifier.
    pub fn id(&self) -> (id: &u128)
        ensures
            *id == self.id,
    {
        &self.id
    }

    /// Its name.
    pub fn name(&self) -> (name: &str)
        ensures
            name@ == self.name@,
    {
        self.name.as_str()
    }

    /// A copy of the name of `device`.
    pub fn get_name(device: &Self) -> (name: String)
        ensures
            name@ == device.name@,
    {
        device.name.clone()
    }

    /// Whether it is switched on.
    pub fn on(&self) -> (on: &bool)
        ensures
            *on == self.on,
    {
        &self.on
    }

    /// What it is, with what it knows of itself.
    pub fn config(&self) -> (config: &DeviceConfig)
        ensures
            *config == self.config,
    {
        &self.config
    }

    /// Switches the device: on where it was off, off where it was on.
    pub fn switch_mutable(&mut self)
        ensures
            final(self).on == !old(self).on,
            final(self).id == old(self).id,
            final(self).name == old(self).name,
            final(self).config == old(self).config,
    {
        self.on = !self.on;
    }

    /// The status of the device.
    pub fn get_status(&self) -> (status: DeviceStatus)
        ensures
            status.id@ == id_text(self.id),
            status.name@ == self.name@,
            status.on == self.on,
            status.config@ == self.config.spec_debug(),
    {
        DeviceStatus {
            id: id_to_string(self.id),
            name: self.name.clone(),
            on: self.on,
            config: self.config.debug(),
        }
    }

    /// The device as it would be after a switch; this one stays as it is.
    pub fn switch_immutable(&self) -> (switched: Device)
        ensures
            switched.on == !self.on,
            switched.id == self.id,
            switched.name == self.name,
            switched.config == self.config,
    {
        Device {
            id: self.id,
            name: self.name.clone(),
            on: !self.on,
            config: self.config.duplicate(),
        }
    }

    /// The text of the device.
    pub fn to_string(&self) -> (text: String)
        ensures
            text@ == self.spec_text(),
    {
        let mut text = "Name: ".to_owned();
        text.append(self.name.as_str());
        text.append(",\nOn: ");
        text.append(truth_text(self.on));
        text.append(",\n");
        let config = self.config.to_string();
        text.append(config.as_str());
        text
    }
}

} // verus!
