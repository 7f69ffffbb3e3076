//! Logic of the micro:bit Bluetooth mesh hackathon system: the sensor model
//! codec, the provisioning operator, the gateway's routing and provisioning
//! decisions, the firmware's model decisions and the converters.
pub mod external;
pub mod sensor;
pub mod text;
pub mod operator;
pub mod gateway;
pub mod provisioner;
pub mod node_configurator;
pub mod keys;
pub mod pre_provision;
pub mod firmware;
pub mod convert;
