use bno055::AccUnit;
use bno055::EulerUnit;
use bno055::GyroUnit;
use bno055::Orientation;
use bno055::TempUnit;
use bno055::Unit;

fn unit(
    orientation: Orientation,
    temperature: TempUnit,
    euler: EulerUnit,
    gyro: GyroUnit,
    acc: AccUnit,
) -> Unit {
    Unit {
        orientation,
        temperature,
        euler,
        gyro,
        acc,
    }
}

#[test]
fn all_default_axes_pack_to_zero() {
    let u = unit(
        Orientation::Windows,
        TempUnit::Celcius,
        EulerUnit::Degrees,
        GyroUnit::DegreesPerSecond,
        AccUnit::MetersPerSecond,
    );
    assert_eq!(u.byte(), 0x00);
}

#[test]
fn all_alternate_axes_pack_to_their_bit_positions() {
    let u = unit(
        Orientation::Android,
        TempUnit::Fahrenheit,
        EulerUnit::Radians,
        GyroUnit::RadiansPerSecons,
        AccUnit::MilliG,
    );
    assert_eq!(u.byte(), 0b1001_0111);
}

#[test]
fn each_axis_packs_at_its_own_bit() {
    let base = unit(
        Orientation::Windows,
        TempUnit::Celcius,
        EulerUnit::Degrees,
        GyroUnit::DegreesPerSecond,
        AccUnit::MetersPerSecond,
    );

    let mut u = base;
    u.acc = AccUnit::MilliG;
    assert_eq!(u.byte(), 0b0000_0001);

    let mut u = base;
    u.gyro = GyroUnit::RadiansPerSecons;
    assert_eq!(u.byte(), 0b0000_0010);

    let mut u = base;
    u.euler = EulerUnit::Radians;
    assert_eq!(u.byte(), 0b0000_0100);

    let mut u = base;
    u.temperature = TempUnit::Fahrenheit;
    assert_eq!(u.byte(), 0b0001_0000);

    let mut u = base;
    u.orientation = Orientation::Android;
    assert_eq!(u.byte(), 0b1000_0000);
}
