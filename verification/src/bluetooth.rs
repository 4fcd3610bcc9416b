//! The attribute table that the notification layer publishes.
//!
//! Nothing here talks to a radio. The table is plain data: which services
//! exist, which characteristics each has, who may read or write them and how
//! long their values are. The layer that owns the radio builds its server from
//! it.

use vstd::prelude::*;
use crate::calibration::Parameter;
use crate::data_sending::RAW_DATA_BYTES;

verus! {

/// The length of a value that holds one number.
pub const NUMBER_BYTES: u16 = 4;

/// The length of the filtered optical data: a baseline and a pulsatile part
/// for each of three channels, and a threshold for each.
pub const FILTERED_DATA_BYTES: u16 = 36;

/// The number of characteristics of the calibration service: eight parameters
/// for the green channel, eight for the red and infrared channels.
pub const CALIBRATION_CHARACTERISTICS: usize = 16;

/// The number of characteristics of the optical front-end configuration
/// service.
pub const FRONTEND_CHARACTERISTICS: usize = 40;

/// One characteristic of a service.
#[derive(Clone, Copy, Debug)]
pub struct Characteristic {
    pub uuid: &'static str,
    pub name: &'static str,
    pub readable: bool,
    pub writable: bool,
    pub notifies: bool,
    pub max_value_length: u16,
}

/// One service.
#[derive(Clone, Copy, Debug)]
pub struct Service {
    pub uuid: &'static str,
    pub name: &'static str,
    pub primary: bool,
}

impl Characteristic {
    /// Whether the characteristic can only be read and notifies of changes.
    pub open spec fn is_published(self) -> bool {
        self.readable && !self.writable && self.notifies
    }

    /// Whether the characteristic holds one number that can be read and
    /// written.
    pub open spec fn is_parameter(self) -> bool {
        self.readable && self.writable && !self.notifies && self.max_value_length == NUMBER_BYTES
    }

    /// A characteristic that can only be read and notifies of changes.
    pub fn published(uuid: &'static str, name: &'static str, max_value_length: u16) -> (r:
        Characteristic)
        ensures
            r.is_published(),
            r.max_value_length == max_value_length,
            r.uuid == uuid,
            r.name == name,
    {
        Characteristic {
            uuid,
            name,
            readable: true,
            writable: false,
            notifies: true,
            max_value_length,
        }
    }

    /// A characteristic that holds one number and can be read and written.
    pub fn parameter(uuid: &'static str, name: &'static str) -> (r: Characteristic)
        ensures
            r.is_parameter(),
            r.uuid == uuid,
            r.name == name,
    {
        Characteristic {
            uuid,
            name,
            readable: true,
            writable: true,
            notifies: false,
            max_value_length: NUMBER_BYTES,
        }
    }
}

/// GAP events callback definitions.
pub struct GAPEventsCallbacks {}

/// The service that identifies the device and the version of its interface.
pub struct PulseLoopServiceContainer {
    pub service: Service,
    pub api_version_characteristic: Characteristic,
    /// The version of the interface, the value of the characteristic.
    pub api_version: u8,
}

impl PulseLoopServiceContainer {
    /// Describes the service: one characteristic, which holds the version of
    /// the interface and can only be read.
    pub fn initialise() -> (r: Self)
        ensures
            r.service.primary,
            r.api_version == 1,
            r.api_version_characteristic.readable,
            !r.api_version_characteristic.writable,
            !r.api_version_characteristic.notifies,
            r.api_version_characteristic.max_value_length == 1,
    {
        PulseLoopServiceContainer {
            service: Service {
                uuid: "68D68245-CFD8-4A1C-9858-B27ABC4C382E",
                name: "pulse.loop",
                primary: true,
            },
            api_version_characteristic: Characteristic {
                uuid: "1852299D-AE64-4E4F-B915-CB37E7FD57C9",
                name: "API Version",
                readable: true,
                writable: false,
                notifies: false,
                max_value_length: 1,
            },
            api_version: 1,
        }
    }
}

/// The service that publishes the raw and the filtered optical data.
pub struct SensorDataServiceContainer {
    pub service: Service,
    pub raw_optical_data_characteristic: Characteristic,
    pub filtered_optical_data_characteristic: Characteristic,
}

impl SensorDataServiceContainer {
    /// Describes the service. Each characteristic is as long as the wire
    /// format of the data that it publishes.
    pub fn initialise() -> (r: Self)
        ensures
            r.service.primary,
            r.raw_optical_data_characteristic.is_published(),
            r.raw_optical_data_characteristic.max_value_length == RAW_DATA_BYTES,
            r.filtered_optical_data_characteristic.is_published(),
            r.filtered_optical_data_characteristic.max_value_length == FILTERED_DATA_BYTES,
    {
        SensorDataServiceContainer {
            service: Service {
                uuid: "272DF1F7-9D28-4B8C-86F6-30DB30ACE42C",
                name: "Sensor data",
                primary: true,
            },
            raw_optical_data_characteristic: Characteristic::published(
                "26CB3CCA-F22E-4179-8125-55874E9153AD",
                "Raw optical data",
                16,
            ),
            filtered_optical_data_characteristic: Characteristic::published(
                "BDC0FC52-797B-4065-AABA-DC394F1DD0FD",
                "Filtered optical data",
                FILTERED_DATA_BYTES,
            ),
        }
    }
}

/// The service that publishes all raw readings in one value.
pub struct RawSensorDataServiceContainer {
    pub service: Service,
    pub aggregated_data_characteristic: Characteristic,
}

impl RawSensorDataServiceContainer {
    /// Describes the service: one characteristic of 49 bytes that can only be
    /// read and notifies of changes.
    pub fn initialise() -> (r: Self)
        ensures
            r.service.primary,
            r.aggregated_data_characteristic.is_published(),
            r.aggregated_data_characteristic.max_value_length == 49,
    {
        RawSensorDataServiceContainer {
            service: Service {
                uuid: "272DF1F7-9D28-4B8C-86F6-30DB30ACE42C",
                name: "Raw sensor data",
                primary: true,
            },
            aggregated_data_characteristic: Characteristic::published(
                "26CB3CCA-F22E-4179-8125-55874E9153AD",
                "Aggregated data",
                49,
            ),
        }
    }
}

/// The service that publishes the vital signs.
pub struct ResultsServiceContainer {
    pub service: Service,
    pub blood_oxygen_saturation_characteristic: Characteristic,
    pub heart_rate_characteristic: Characteristic,
    pub led1_perfusion_index_characteristic: Characteristic,
    pub led2_perfusion_index_characteristic: Characteristic,
    pub led3_perfusion_index_characteristic: Characteristic,
    pub wrist_presence_characteristic: Characteristic,
}

impl ResultsServiceContainer {
    /// Describes the service: one number for each vital sign, and one byte
    /// for the wrist presence.
    pub fn initialise() -> (r: Self)
        ensures
            r.service.primary,
            r.blood_oxygen_saturation_characteristic.is_published(),
            r.blood_oxygen_saturation_characteristic.max_value_length == NUMBER_BYTES,
            r.heart_rate_characteristic.is_published(),
            r.heart_rate_characteristic.max_value_length == NUMBER_BYTES,
            r.led1_perfusion_index_characteristic.is_published(),
            r.led1_perfusion_index_characteristic.max_value_length == NUMBER_BYTES,
            r.led2_perfusion_index_characteristic.is_published(),
            r.led2_perfusion_index_characteristic.max_value_length == NUMBER_BYTES,
            r.led3_perfusion_index_characteristic.is_published(),
            r.led3_perfusion_index_characteristic.max_value_length == NUMBER_BYTES,
            r.wrist_presence_characteristic.is_published(),
            r.wrist_presence_characteristic.max_value_length == 1,
    {
        ResultsServiceContainer {
            service: Service {
                uuid: "5BE2E901-D0EC-4A5F-9488-3C80CE223852",
                name: "Results",
                primary: true,
            },
            blood_oxygen_saturation_characteristic: Characteristic::published(
                "0776731C-A5F8-4B40-9500-E4F97F5958D9",
                "Blood oxygen saturation",
                NUMBER_BYTES,
            ),
            heart_rate_characteristic: Characteristic::published(
                "D8CE0238-F60C-4C1D-908F-5554760AA1D6",
                "Heart rate",
                NUMBER_BYTES,
            ),
            led1_perfusion_index_characteristic: Characteristic::published(
                "459CAB03-5240-4837-9742-B71A5D8112A3",
                "LED1 perfusion index",
                NUMBER_BYTES,
            ),
            led2_perfusion_index_characteristic: Characteristic::published(
                "32D616C9-5721-4BF0-B5F3-B709C45225EE",
                "LED2 perfusion index",
                NUMBER_BYTES,
            ),
            led3_perfusion_index_characteristic: Characteristic::published(
                "C11839D6-50E7-4210-AD45-E44C5AB085AC",
                "LED3 perfusion index",
                NUMBER_BYTES,
            ),
            wrist_presence_characteristic: Characteristic::published(
                "9439189D-C1C2-4970-BD64-B9F1932F159F",
                "Wrist presence",
                1,
            ),
        }
    }
}

/// Describes one parameter characteristic for each entry of `list`, in order.
fn parameters(list: &[(&'static str, &'static str)]) -> (r: Vec<Characteristic>)
    ensures
        r@.len() == list@.len(),
        forall|i: int|
            0 <= i < r@.len() ==> {
                &&& (#[trigger] r@[i]).is_parameter()
                &&& r@[i].uuid == list@[i].0
                &&& r@[i].name == list@[i].1
            },
{
    let mut characteristics: Vec<Characteristic> = Vec::new();
    let mut i: usize = 0;
    while i < list.len()
        invariant
            i <= list@.len(),
            characteristics@.len() == i,
            forall|j: int|
                0 <= j < i ==> {
                    &&& (#[trigger] characteristics@[j]).is_parameter()
                    &&& characteristics@[j].uuid == list@[j].0
                    &&& characteristics@[j].name == list@[j].1
                },
        decreases list@.len() - i,
    {
        let item = list[i];
        characteristics.push(Characteristic::parameter(item.0, item.1));
        i += 1;
    }
    characteristics
}

/// The service through which the parameters of the calibrators are read and
/// written.
pub struct CalibrationServiceContainer {
    pub service: Service,
    /// The parameters of the green channel, then those of the red and
    /// infrared channels, each group in the order: LED current minimum and
    /// maximum, offset current minimum, maximum and set point, set point and
    /// working threshold of the converter, reflectance.
    pub characteristics: Vec<Characteristic>,
}

impl CalibrationServiceContainer {
    /// Describes the service: sixteen parameters, each one number that can be
    /// read and written.
    pub fn initialise() -> (r: Self)
        ensures
            r.service.primary,
            r.characteristics@.len() == CALIBRATION_CHARACTERISTICS,
            forall|i: int|
                0 <= i < CALIBRATION_CHARACTERISTICS ==> (
                #[trigger] r.characteristics@[i]).is_parameter(),
    {
        let list: [(&'static str, &'static str); 16] = [
            ("2043264C-C1A8-4A62-8FDE-525BE380AA13", "LED1 current min"),
            ("71F1573E-DB0D-4B52-9E9F-AA505719D41D", "LED1 current max"),
            ("914E65A0-F10D-4E35-9705-424FBE514594", "LED1 offset current min"),
            ("0428B369-BD92-4625-BEF3-55B9C054411E", "LED1 offset current max"),
            ("BA6BFE73-1621-42CC-B792-AEE5BAAE57CD", "LED1 offset current set point"),
            ("9B98BA9A-9EEA-40F6-87F4-53BF2BB19699", "LED1 adc set point"),
            ("41A91B62-9FB2-41E3-906A-E24697D938D5", "LED1 adc working threshold"),
            ("A01B4911-9CA4-4E51-A484-C0E5E962FDA6", "LED1 alpha"),
            ("9621CF82-87A9-4794-AB81-7BAC475574BD", "LED2 LED3 current min"),
            ("2EB0E60C-B688-479A-AC80-D196F3146FD0", "LED2 LED3 current max"),
            ("913C4C37-63E9-49C4-9944-782DD702D503", "LED2 LED3 offset current min"),
            ("6F2BB2FE-6DB8-4D3B-8AA6-5D4845CFBFA2", "LED2 LED3 offset current max"),
            ("FDBB0D89-33B6-40E0-B7B5-1C5E74D3FB05", "LED2 LED3 offset current set point"),
            ("BA113050-05DC-4A44-B4EF-7DBF10E74171", "LED2 LED3 adc set point"),
            ("43C5ECAD-63F4-42A8-A3AE-7F799FF6B01B", "LED2 LED3 adc working threshold"),
            ("1E33ED6E-1EB1-4738-9BAA-6A617BECB801", "LED2 LED3 alpha"),
        ];
        CalibrationServiceContainer {
            service: Service {
                uuid: "0E87EDC7-757C-49BA-87A8-F1EA1053F4C1",
                name: "Calibration",
                primary: true,
            },
            characteristics: parameters(list.as_slice()),
        }
    }
}

/// The calibrator that a characteristic of the calibration service belongs to.
#[derive(Clone, Copy, Debug, PartialEq, Eq, Structural)]
pub enum CalibratedLeds {
    /// The calibrator of the green LED.
    Led1,
    /// The calibrator that the red and the infrared LED share.
    Led2Led3,
}

/// The parameter at `place` of a group of the calibration service.
pub open spec fn parameter_at(place: int) -> Parameter {
    if place == 0 {
        Parameter::LedCurrentMin
    } else if place == 1 {
        Parameter::LedCurrentMax
    } else if place == 2 {
        Parameter::OffsetCurrentMin
    } else if place == 3 {
        Parameter::OffsetCurrentMax
    } else if place == 4 {
        Parameter::OffsetCurrentSetPoint
    } else if place == 5 {
        Parameter::AdcSetPoint
    } else if place == 6 {
        Parameter::AdcWorkingThreshold
    } else {
        Parameter::Alpha
    }
}

/// The calibrator and the parameter that the characteristic at `index` of the
/// calibration service stands for.
pub open spec fn spec_calibration_target(index: int) -> Option<(CalibratedLeds, Parameter)> {
    if 0 <= index < 8 {
        Some((CalibratedLeds::Led1, parameter_at(index)))
    } else if 8 <= index < 16 {
        Some((CalibratedLeds::Led2Led3, parameter_at(index - 8)))
    } else {
        None
    }
}

impl CalibrationServiceContainer {
    /// Tells which parameter of which calibrator the characteristic at `index`
    /// reads and writes; none from sixteen on.
    pub fn target(index: usize) -> (r: Option<(CalibratedLeds, Parameter)>)
        ensures
            r == spec_calibration_target(index as int),
            r.is_some() <==> index < CALIBRATION_CHARACTERISTICS,
    {
        if index >= 16 {
            return None;
        }
        let leds = if index < 8 {
            CalibratedLeds::Led1
        } else {
            CalibratedLeds::Led2Led3
        };
        let place: usize = index % 8;
        let parameter = if place == 0 {
            Parameter::LedCurrentMin
        } else if place == 1 {
            Parameter::LedCurrentMax
        } else if place == 2 {
            Parameter::OffsetCurrentMin
        } else if place == 3 {
            Parameter::OffsetCurrentMax
        } else if place == 4 {
            Parameter::OffsetCurrentSetPoint
        } else if place == 5 {
            Parameter::AdcSetPoint
        } else if place == 6 {
            Parameter::AdcWorkingThreshold
        } else {
            Parameter::Alpha
        };
        Some((leds, parameter))
    }
}

/// The service through which the settings of the optical front-end are read
/// and written.
pub struct OpticalFrontendConfigurationServiceContainer {
    pub service: Service,
    pub characteristics: Vec<Characteristic>,
}

impl OpticalFrontendConfigurationServiceContainer {
    /// Describes the service: forty settings, each one number that can be
    /// read and written.
    pub fn initialise() -> (r: Self)
        ensures
            r.service.primary,
            r.characteristics@.len() == FRONTEND_CHARACTERISTICS,
            forall|i: int|
                0 <= i < FRONTEND_CHARACTERISTICS ==> (
                #[trigger] r.characteristics@[i]).is_parameter(),
    {
        let list: [(&'static str, &'static str); 40] = [
            ("9B6AF28C-9558-49ED-844B-06E7B8B0E6C3", "Ambient ADC conversion end"),
            ("66DC5EDA-B89E-43D5-B940-13E29A468C77", "Ambient ADC conversion start"),
            ("E9AB33D4-DA9C-4424-851A-16CF66AA08C0", "Ambient ADC reset end"),
            ("FD7FAFE2-4464-4F8C-A55C-79E45FB916B3", "Ambient ADC reset start"),
            ("83C29A09-B658-4316-A1FD-D8AD97C02F80", "Ambient sample end"),
            ("C35EBCC5-BCA4-4716-90E3-37B94D9AD6FF", "Ambient sample start"),
            ("BC276997-792F-4391-9371-78F1C1038DB7", "Dynamic power-down end"),
            ("0B68331C-B628-4D81-BBDB-47B79EA2430E", "Dynamic power-down start"),
            ("C455472B-4231-4EF7-A3BD-A1AE2676F9D2", "LED1 ADC conversion end"),
            ("ED9B9EE3-AAFE-4034-8C07-1D7F495288B1", "LED1 ADC conversion start"),
            ("7049E8C6-A0CE-4380-8186-1B7CD34179ED", "LED1 ADC reset end"),
            ("C8B42A6D-ECFC-40E8-8E3C-F5876EE749A3", "LED1 ADC reset start"),
            ("9C678B37-F3AA-4B8C-AFD5-10B4694E49C7", "LED1 lighting end"),
            ("F02C15DF-14F1-4872-BE99-33EE64F0E0B3", "LED1 lighting start"),
            ("A20B7943-5E1D-4053-8C4E-CD44463F460D", "LED1 current"),
            ("F60A8B03-FAB1-433D-9D9E-8722DF003329", "LED1 sample end"),
            ("FB219512-DC81-461A-B558-FE6E310E9333", "LED1 sample start"),
            ("40314C89-306E-47F0-AE1F-C5DDD8C0CDDD", "LED2 ADC conversion end"),
            ("160CC306-3CA6-4BF5-AC0B-85443F3CFC6B", "LED2 ADC conversion start"),
            ("34D6F164-543F-49F4-B0F1-6E68DC4CEE6B", "LED2 ADC reset end"),
            ("E34424D5-68DA-467F-93FE-BE49F19FAB0E", "LED2 ADC reset start"),
            ("B85968BA-FB52-46E8-81A5-0F837BF3D6EB", "LED2 lighting end"),
            ("F710D5DC-2655-42D6-97AA-7A5FDF0285C8", "LED2 lighting start"),
            ("29CA51A3-B33B-44FD-853C-00FE8827ADC4", "LED2 current"),
            ("F752142C-5BFC-4274-9044-E81D3F2F274A", "LED2 sample end"),
            ("38644B85-3D2E-4D31-9679-06C9EB6BAC2D", "LED2 sample start"),
            ("7C2A9A6F-95EB-45ED-B7E1-BB290F7853ED", "LED3 ADC conversion end"),
            ("C03D3143-E6B6-49AB-85FC-EEED3A43B530", "LED3 ADC conversion start"),
            ("A7D441AA-C456-4CBF-A0B9-84DBF33934EF", "LED3 ADC reset end"),
            ("536D72C8-DFF0-4E38-93F7-7F376316EA8D", "LED3 ADC reset start"),
            ("5B7F9859-092B-43D4-AC6B-AC9DD4742AB2", "LED3 lighting end"),
            ("0B098015-110E-487E-AAE9-BEA1ED1F54A0", "LED3 lighting start"),
            ("F7535ED9-CB9F-469A-817E-1635DC3B68B0", "LED3 current"),
            ("249782EC-004B-4A3D-9608-5143E69AB294", "LED3 sample end"),
            ("733C5AED-D3B3-4F65-8898-6EA37DA30F71", "LED3 sample start"),
            ("08B3B8E9-D3AD-48EB-B93B-AF4D3695F05C", "TIA capacitor 1"),
            ("740669DF-57D3-4147-87B4-DC302512F20A", "TIA capacitor 2"),
            ("81831E3A-917E-4252-9C16-42BA8FF3F47A", "TIA resistor 1"),
            ("A3F694D1-C378-4124-BF56-468DFAFF14E6", "TIA resistor 2"),
            ("B904BD23-6082-4507-8BD2-7333EF6A2726", "Total window length"),
        ];
        OpticalFrontendConfigurationServiceContainer {
            service: Service {
                uuid: "C8F276D4-E0DD-4660-8070-619FF734134B",
                name: "Optical frontend configuration",
                primary: true,
            },
            characteristics: parameters(list.as_slice()),
        }
    }
}

/// What kind of device the server announces.
#[derive(Clone, Copy, Debug, PartialEq, Eq, Structural)]
pub enum Appearance {
    WristWornPulseOximeter,
}

/// What the server is started with.
pub struct Advertisement {
    pub device_name: &'static str,
    pub appearance: Appearance,
    pub profile_identifier: u16,
    pub profile_name: &'static str,
    /// The service that the device advertises.
    pub advertised: Service,
    /// The services of the profile, in the order in which they are
    /// registered.
    pub services: Vec<Service>,
}

/// Every service of the device.
pub struct BluetoothAPI {
    pub pulse_loop: PulseLoopServiceContainer,
    pub sensor_data: SensorDataServiceContainer,
    pub results: ResultsServiceContainer,
    pub optical_frontend_configuration: OpticalFrontendConfigurationServiceContainer,
    pub calibration: CalibrationServiceContainer,
}

impl BluetoothAPI {
    /// Describes what the server is started with: the device name, its
    /// appearance, the identifying service as the one advertised, and one
    /// profile that holds the identifying service, the sensor data and the
    /// configuration of the optical front-end, in this order.
    pub fn start(&self) -> (r: Advertisement)
        ensures
            r.device_name@ == "pulse.loop"@,
            r.appearance == Appearance::WristWornPulseOximeter,
            r.profile_identifier == 1,
            r.profile_name@ == "Main profile"@,
            r.advertised == self.pulse_loop.service,
            r.services@ == seq![
                self.pulse_loop.service,
                self.sensor_data.service,
                self.optical_frontend_configuration.service,
            ],
    {
        let mut services: Vec<Service> = Vec::new();
        services.push(self.pulse_loop.service);
        services.push(self.sensor_data.service);
        services.push(self.optical_frontend_configuration.service);
        proof {
            assert(services@ =~= seq![
                self.pulse_loop.service,
                self.sensor_data.service,
                self.optical_frontend_configuration.service,
            ]);
        }
        Advertisement {
            device_name: "pulse.loop",
            appearance: Appearance::WristWornPulseOximeter,
            profile_identifier: 0x0001,
            profile_name: "Main profile",
            advertised: self.pulse_loop.service,
            services,
        }
    }

    /// Describes every service of the device.
    pub fn initialise() -> (r: Self)
        ensures
            r.sensor_data.raw_optical_data_characteristic.max_value_length == RAW_DATA_BYTES,
            r.sensor_data.filtered_optical_data_characteristic.max_value_length
                == FILTERED_DATA_BYTES,
            r.results.wrist_presence_characteristic.max_value_length == 1,
            r.calibration.characteristics@.len() == CALIBRATION_CHARACTERISTICS,
            r.optical_frontend_configuration.characteristics@.len() == FRONTEND_CHARACTERISTICS,
            r.pulse_loop.api_version == 1,
    {
        BluetoothAPI {
            pulse_loop: PulseLoopServiceContainer::initialise(),
            sensor_data: SensorDataServiceContainer::initialise(),
            results: ResultsServiceContainer::initialise(),
            optical_frontend_configuration:
                OpticalFrontendConfigurationServiceContainer::initialise(),
            calibration: CalibrationServiceContainer::initialise(),
        }
    }
}

} // verus!
