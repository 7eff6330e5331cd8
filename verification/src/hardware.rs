//! What stands between the controller and the devices: sensor fusion, wheel
//! arithmetic, and the wire protocol of the optical tracking sensor.

pub mod imu;
pub mod motor_group;
pub mod otos;
pub mod packet;
pub mod serial_device;
pub mod tracking_wheel;
