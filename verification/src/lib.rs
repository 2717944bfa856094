//! A CANopen (CiA 301 / CiA 305) slave-node core.
//!
//! The crate multiplexes the CANopen application-layer services of a single
//! node onto one 11-bit CAN interface: an SDO server giving acknowledged
//! access to a local Object Dictionary, a TPDO producer serialising mapped
//! object values into process-data frames, an NMT slave for coarse lifecycle
//! control, and an LSS slave for node-id configuration.

pub mod frame;
pub mod lss;
pub mod nmt;
pub mod node;
pub mod objectdictionary;
pub mod pdo;
pub mod sdo;

pub use node::CanOpenNode;
pub use node::NodeId;
pub use objectdictionary::ObjectDictionary;
