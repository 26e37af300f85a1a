use core::cell::RefCell;

use embedded_hal_bus::i2c::RefCellDevice;
use embedded_hal_mock::eh1::i2c::{Mock as I2cMock, Transaction as I2cTrans};
use icm42670::{Address as ImuAddress, Icm42670};
use owb_core::devices::{BusOp, I2CDevices};
use owb_core::pwm::{MotorChannels, WheelDrive};
use owb_core::server::{ServerTimer, WebSocket};
use pwm_pca9685::{Address as PwmAddress, Channel, Pca9685};

/// Default I2C address for the PWM motor controller.
pub const PWM_ADDRESS: u8 = 0x55;
/// Default I2C address for the IMU sensor.
pub const IMU_ADDRESS: u8 = 0x68;

pub fn write(addr: u8, data: Vec<u8>) -> I2cTrans {
    I2cTrans::write(addr, data)
}

pub fn write_read(addr: u8, write: Vec<u8>, read: Vec<u8>) -> I2cTrans {
    I2cTrans::write_read(addr, write, read)
}

/// Carries the motor driver's operations out on a real driver.
fn perform(pca: &mut Pca9685<RefCellDevice<'_, I2cMock>>, ops: Vec<BusOp>) {
    for op in ops {
        match op {
            BusOp::SetChannel(w) => {
                let c = Channel::try_from(w.channel).unwrap();
                pca.set_channel_on_off(c, w.on, w.off).unwrap()
            }
            BusOp::PwmEnable => pca.enable().unwrap(),
            BusOp::PwmDisable => pca.disable().unwrap(),
            BusOp::PwmPrescale(p) => pca.set_prescale(p).unwrap(),
            other => panic!("not a motor driver operation: {:?}", other),
        }
    }
}

fn ready_devices() -> I2CDevices {
    let mut devs = I2CDevices::new(MotorChannels::standard());
    devs.init_devices::<(), (), ()>(Ok(()), Ok(())).unwrap();
    devs
}

#[test]
fn test_init_devices() {
    let expectations = [
        write_read(IMU_ADDRESS, vec![0x75], vec![0x67]),
        write_read(IMU_ADDRESS, vec![0x21], vec![0x00]),
        write(IMU_ADDRESS, vec![0x21, 0x00]),
        write_read(IMU_ADDRESS, vec![0x20], vec![0x00]),
        write(IMU_ADDRESS, vec![0x20, 0x00]),
        write_read(IMU_ADDRESS, vec![0x1F], vec![0x0F]),
        write(IMU_ADDRESS, vec![0x1F, 0x0F]),
    ];

    let mock = I2cMock::new(&expectations);
    let i2c_bus = RefCell::new(mock);
    let mut devs = I2CDevices::new(MotorChannels::standard());
    let imu = Icm42670::new(RefCellDevice::new(&i2c_bus), ImuAddress::Primary).map(|_| ());
    let pwm = Pca9685::new(RefCellDevice::new(&i2c_bus), PwmAddress::from(PWM_ADDRESS)).map(|_| ());
    devs.init_devices::<_, _, ()>(imu, pwm).unwrap();
    assert!(devs.read_imu::<(), (), ()>().is_ok());
    i2c_bus.borrow_mut().done();
}

#[test]
fn test_configure_pwm() {
    let expectations = [
        write(PWM_ADDRESS, vec![0x00, 0x01]),
        write(PWM_ADDRESS, vec![0x00, 0x11]),
        write(PWM_ADDRESS, vec![0xFE, 100]),
        write(PWM_ADDRESS, vec![0x00, 0x01]),
    ];

    let mock = I2cMock::new(&expectations);
    let i2c_bus = RefCell::new(mock);
    let devs = ready_devices();
    let mut pwm = Pca9685::new(RefCellDevice::new(&i2c_bus), PwmAddress::from(PWM_ADDRESS)).unwrap();
    perform(&mut pwm, devs.configure_pwm::<(), (), ()>().unwrap());
    i2c_bus.borrow_mut().done();
}

#[test]
fn test_apply_wheel_speeds_zero() {
    // Zero speeds should issue one auto-increment and six channel writes
    let expectations = [
        write(PWM_ADDRESS, vec![0x00, 0x31]),
        write(PWM_ADDRESS, vec![0x1E, 0x00, 0x00, 0x00, 0x00]),
        write(PWM_ADDRESS, vec![0x22, 0x00, 0x00, 0x00, 0x00]),
        write(PWM_ADDRESS, vec![0x0E, 0x00, 0x00, 0x00, 0x00]),
        write(PWM_ADDRESS, vec![0x12, 0x00, 0x00, 0x00, 0x00]),
        write(PWM_ADDRESS, vec![0x16, 0x00, 0x00, 0x00, 0x00]),
        write(PWM_ADDRESS, vec![0x1A, 0x00, 0x00, 0x00, 0x00]),
    ];

    let mock = I2cMock::new(&expectations);
    let i2c_bus = RefCell::new(mock);
    let devs = ready_devices();
    let mut pwm = Pca9685::new(RefCellDevice::new(&i2c_bus), PwmAddress::from(PWM_ADDRESS)).unwrap();
    let stop = WheelDrive { forward: true, magnitude: 0 };
    perform(&mut pwm, devs.apply_wheel_speeds::<(), (), ()>(&[stop; 3]).unwrap());
    i2c_bus.borrow_mut().done();
}

/// Example: instantiating WebSocket server types.
#[test]
fn example_websocket_types_exist() {
    let _ws: WebSocket = WebSocket;
    let _timer: ServerTimer = ServerTimer;
}
