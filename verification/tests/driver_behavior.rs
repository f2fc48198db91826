use bno055::reg_map::CHIP_ID;
use bno055::reg_map::OPR_MODE;
use bno055::reg_map::PAGE_ID;
use bno055::reg_map::PWR_MODE;
use bno055::reg_map::SYS_TRIGGER;
use bno055::reg_map::TEMP;
use bno055::reg_map::TEMP_SOURCE;
use bno055::reg_map::UNIT_SEL;
use bno055::sim::BusFault;
use bno055::sim::RecordingDelay;
use bno055::sim::ScriptedBus;
use bno055::sim::Transaction;
use bno055::AccUnit;
use bno055::Bno055;
use bno055::Error;
use bno055::EulerUnit;
use bno055::GyroUnit;
use bno055::OperationMode;
use bno055::Orientation;
use bno055::RegisterPage;
use bno055::TempSource;
use bno055::TempUnit;
use bno055::Unit;

fn write(addr: u8, reg: u8, value: u8) -> Transaction {
    Transaction::Write {
        addr,
        data: vec![reg, value],
    }
}

fn read(addr: u8, reg: u8, value: u8) -> Transaction {
    Transaction::WriteRead {
        addr,
        reg: vec![reg],
        data: vec![value],
    }
}

#[test]
fn init_from_power_on_issues_the_full_bring_up_sequence() {
    let bus = ScriptedBus::new(vec![0x29]);
    let mut delay = RecordingDelay::new();
    let mut drv = Bno055::new(bus);

    drv.init(&mut delay).unwrap();

    let log = drv.bus().log();
    assert_eq!(log.len(), 5);
    assert_eq!(log[0], write(0x29, PAGE_ID, 0));
    assert_eq!(log[1], read(0x29, CHIP_ID, 0x29));
    assert_eq!(log[2], write(0x29, SYS_TRIGGER, 0x20));
    assert_eq!(log[3], write(0x29, PWR_MODE, 0));
    assert_eq!(log[4], write(0x29, SYS_TRIGGER, 0));
    assert_eq!(delay.log(), &vec![650]);
}

#[test]
fn init_from_an_operating_mode_also_switches_back_to_config() {
    let bus = ScriptedBus::new(vec![0x29]);
    let mut delay = RecordingDelay::new();
    let mut drv = Bno055::new(bus);
    drv.set_mode(OperationMode::Acc, &mut delay).unwrap();

    drv.init(&mut delay).unwrap();

    let log = drv.bus().log();
    assert_eq!(log.len(), 7);
    assert_eq!(log[0], write(0x29, OPR_MODE, 0x01));
    assert_eq!(log[1], write(0x29, PAGE_ID, 0));
    assert_eq!(log[2], read(0x29, CHIP_ID, 0x29));
    assert_eq!(log[3], write(0x29, SYS_TRIGGER, 0x20));
    assert_eq!(log[4], write(0x29, OPR_MODE, 0x00));
    assert_eq!(log[5], write(0x29, PWR_MODE, 0));
    assert_eq!(log[6], write(0x29, SYS_TRIGGER, 0));
    // 7 ms leaving Config for Acc, the mandatory 650 ms reset settle,
    // then 19 ms leaving Acc for Config.
    assert_eq!(delay.log(), &vec![7, 650, 19]);
}

#[test]
fn init_rejects_a_wrong_identity_byte_after_exactly_two_transactions() {
    let bus = ScriptedBus::new(vec![0x55]);
    let mut delay = RecordingDelay::new();
    let mut drv = Bno055::new(bus);

    let r = drv.init(&mut delay);

    assert!(matches!(r, Err(Error::InvalidChipId(0x55))));
    let log = drv.bus().log();
    assert_eq!(log.len(), 2);
    assert_eq!(log[0], write(0x29, PAGE_ID, 0));
    assert_eq!(log[1], read(0x29, CHIP_ID, 0x55));
    assert!(delay.log().is_empty());
}

#[test]
fn init_checks_the_identity_byte_against_the_configured_address() {
    // On the alternate address the identity check expects 0x28, so the
    // default address byte is rejected.
    let bus = ScriptedBus::new(vec![0x29]);
    let mut delay = RecordingDelay::new();
    let mut drv = Bno055::new(bus).with_alternate_addr();

    let r = drv.init(&mut delay);

    assert!(matches!(r, Err(Error::InvalidChipId(0x29))));
    let log = drv.bus().log();
    assert_eq!(log[0], write(0x28, PAGE_ID, 0));
    assert_eq!(log[1], read(0x28, CHIP_ID, 0x29));
}

#[test]
fn init_with_alternate_addr_talks_to_the_alternate_address() {
    let bus = ScriptedBus::new(vec![0x28]);
    let mut delay = RecordingDelay::new();
    let mut drv = Bno055::new(bus).with_alternate_addr();

    drv.init(&mut delay).unwrap();

    let log = drv.bus().log();
    assert_eq!(log.len(), 5);
    assert_eq!(log[1], read(0x28, CHIP_ID, 0x28));
}

#[test]
fn init_propagates_a_bus_fault_mid_sequence() {
    let bus = ScriptedBus::failing_after(vec![0x29], 2);
    let mut delay = RecordingDelay::new();
    let mut drv = Bno055::new(bus);

    let r = drv.init(&mut delay);

    assert!(matches!(r, Err(Error::I2c(BusFault))));
    // Page select and identity read went through; the reset write failed.
    assert_eq!(drv.bus().log().len(), 2);
    assert!(delay.log().is_empty());
}

#[test]
fn set_mode_issues_one_write_and_one_delay_then_is_a_no_op() {
    let bus = ScriptedBus::new(vec![]);
    let mut delay = RecordingDelay::new();
    let mut drv = Bno055::new(bus);

    drv.set_mode(OperationMode::Ndof, &mut delay).unwrap();
    assert_eq!(drv.bus().log().len(), 1);
    assert_eq!(drv.bus().log()[0], write(0x29, OPR_MODE, 0x0C));
    assert_eq!(delay.log().len(), 1);

    // The second selection of the same mode touches neither the bus nor
    // the delay source.
    drv.set_mode(OperationMode::Ndof, &mut delay).unwrap();
    assert_eq!(drv.bus().log().len(), 1);
    assert_eq!(delay.log().len(), 1);
}

#[test]
fn mode_settle_delay_is_7_ms_out_of_config_and_19_ms_otherwise() {
    let bus = ScriptedBus::new(vec![]);
    let mut delay = RecordingDelay::new();
    let mut drv = Bno055::new(bus);

    drv.set_mode(OperationMode::Acc, &mut delay).unwrap();
    drv.set_mode(OperationMode::Gyro, &mut delay).unwrap();

    assert_eq!(delay.log(), &vec![7, 19]);
}

#[test]
fn set_mode_propagates_a_bus_fault_and_writes_nothing() {
    let bus = ScriptedBus::failing_after(vec![], 0);
    let mut delay = RecordingDelay::new();
    let mut drv = Bno055::new(bus);

    let r = drv.set_mode(OperationMode::Acc, &mut delay);

    assert!(matches!(r, Err(Error::I2c(BusFault))));
    assert!(drv.bus().log().is_empty());
    assert!(delay.log().is_empty());
}

#[test]
fn page_select_writes_only_when_the_requested_page_changes() {
    let bus = ScriptedBus::new(vec![]);
    let mut drv = Bno055::new(bus);

    // Cached page starts at page 0; four selections, three changes.
    drv.set_page(RegisterPage::Page1).unwrap();
    drv.set_page(RegisterPage::Page1).unwrap();
    drv.set_page(RegisterPage::Page0).unwrap();
    drv.set_page(RegisterPage::Page1).unwrap();

    let log = drv.bus().log();
    assert_eq!(log.len(), 3);
    assert_eq!(log[0], write(0x29, PAGE_ID, 1));
    assert_eq!(log[1], write(0x29, PAGE_ID, 0));
    assert_eq!(log[2], write(0x29, PAGE_ID, 1));
}

#[test]
fn temperature_decodes_twos_complement_bytes() {
    let bus = ScriptedBus::new(vec![0xFF, 0x0E, 0x80, 0x7F]);
    let mut drv = Bno055::new(bus);

    assert_eq!(drv.temperature().unwrap(), -1);
    assert_eq!(drv.temperature().unwrap(), 14);
    assert_eq!(drv.temperature().unwrap(), -128);
    assert_eq!(drv.temperature().unwrap(), 127);
    assert_eq!(drv.bus().log()[0], read(0x29, TEMP, 0xFF));
}

#[test]
fn temperature_propagates_a_bus_fault() {
    let bus = ScriptedBus::failing_after(vec![], 0);
    let mut drv = Bno055::new(bus);

    assert!(matches!(drv.temperature(), Err(Error::I2c(BusFault))));
}

#[test]
fn set_units_saves_and_restores_the_operating_mode() {
    let bus = ScriptedBus::new(vec![]);
    let mut delay = RecordingDelay::new();
    let mut drv = Bno055::new(bus);
    drv.set_mode(OperationMode::Ndof, &mut delay).unwrap();

    let unit = Unit {
        orientation: Orientation::Windows,
        temperature: TempUnit::Celcius,
        euler: EulerUnit::Degrees,
        gyro: GyroUnit::DegreesPerSecond,
        acc: AccUnit::MetersPerSecond,
    };
    drv.set_units(unit, &mut delay).unwrap();

    // Two mode writes — into Config, then back to Ndof — with the unit
    // write in between.
    let log = drv.bus().log();
    assert_eq!(log.len(), 4);
    assert_eq!(log[1], write(0x29, OPR_MODE, 0x00));
    assert_eq!(log[2], write(0x29, UNIT_SEL, 0x00));
    assert_eq!(log[3], write(0x29, OPR_MODE, 0x0C));
    assert_eq!(delay.log(), &vec![7, 19, 7]);

    // The driver ended in Ndof again: selecting Ndof is a no-op.
    drv.set_mode(OperationMode::Ndof, &mut delay).unwrap();
    assert_eq!(drv.bus().log().len(), 4);
}

#[test]
fn set_temp_source_skips_the_write_when_the_source_is_cached() {
    let bus = ScriptedBus::new(vec![]);
    let mut delay = RecordingDelay::new();
    let mut drv = Bno055::new(bus);

    // The power-on default source is the accelerometer.
    drv.set_temp_source(TempSource::Accelerometer, &mut delay).unwrap();
    assert!(drv.bus().log().is_empty());

    // In Config mode a change writes the source register and nothing else.
    drv.set_temp_source(TempSource::Gyroscope, &mut delay).unwrap();
    assert_eq!(drv.bus().log().len(), 1);
    assert_eq!(drv.bus().log()[0], write(0x29, TEMP_SOURCE, 1));
    assert!(delay.log().is_empty());

    // The cache now holds the gyroscope, so repeating it is a no-op.
    drv.set_temp_source(TempSource::Gyroscope, &mut delay).unwrap();
    assert_eq!(drv.bus().log().len(), 1);
}

#[test]
fn set_temp_source_from_an_operating_mode_saves_and_restores_it() {
    let bus = ScriptedBus::new(vec![]);
    let mut delay = RecordingDelay::new();
    let mut drv = Bno055::new(bus);
    drv.set_mode(OperationMode::Imu, &mut delay).unwrap();

    drv.set_temp_source(TempSource::Gyroscope, &mut delay).unwrap();

    let log = drv.bus().log();
    assert_eq!(log.len(), 4);
    assert_eq!(log[1], write(0x29, OPR_MODE, 0x00));
    assert_eq!(log[2], write(0x29, TEMP_SOURCE, 1));
    assert_eq!(log[3], write(0x29, OPR_MODE, 0x08));
    assert_eq!(delay.log(), &vec![7, 19, 7]);
}

#[test]
fn set_external_oscillator_writes_bit_7_of_the_system_trigger() {
    let bus = ScriptedBus::new(vec![]);
    let mut delay = RecordingDelay::new();
    let mut drv = Bno055::new(bus);

    drv.set_external_oscillator(true, &mut delay).unwrap();
    drv.set_external_oscillator(false, &mut delay).unwrap();

    let log = drv.bus().log();
    assert_eq!(log.len(), 2);
    assert_eq!(log[0], write(0x29, SYS_TRIGGER, 0x80));
    assert_eq!(log[1], write(0x29, SYS_TRIGGER, 0x00));
}

#[test]
fn set_units_propagates_a_bus_fault_and_may_leave_config_mode() {
    // Budget 2: the switch to Ndof and the switch back into Config
    // succeed, then the unit write fails.
    let bus = ScriptedBus::failing_after(vec![], 2);
    let mut delay = RecordingDelay::new();
    let mut drv = Bno055::new(bus);
    drv.set_mode(OperationMode::Ndof, &mut delay).unwrap();

    let unit = Unit {
        orientation: Orientation::Android,
        temperature: TempUnit::Fahrenheit,
        euler: EulerUnit::Radians,
        gyro: GyroUnit::RadiansPerSecons,
        acc: AccUnit::MilliG,
    };
    let r = drv.set_units(unit, &mut delay);

    assert!(matches!(r, Err(Error::I2c(BusFault))));
    // The switch into Config went through; the unit write did not.
    let log = drv.bus().log();
    assert_eq!(log.len(), 2);
    assert_eq!(log[1], write(0x29, OPR_MODE, 0x00));
}
