//! Driver core for the ADS1x1x family of analog-to-digital converters.
//!
//! The crate holds the register model, the conversion arithmetic and the
//! decisions of the device protocol. It performs no bus traffic itself: each
//! operation says which register access it needs and is told what came back.

pub mod bus;
pub mod channel;
pub mod device;
pub mod error;
pub mod measurement;
pub mod mode;
pub mod register;
pub mod types;

pub use crate::bus::{Reply, Request};
pub use crate::channel::{Channel, ChannelSelection};
pub use crate::device::{Ads1x1x, Model, Resolution};
pub use crate::measurement::{Phase, Progress};
pub use crate::register::{Config, Conversion12, Conversion16, HiThresh, LoThresh, Reg};
pub use crate::types::{
    ComparatorLatching, ComparatorMode, ComparatorPolarity, ComparatorQueue, DataRate12Bit,
    DataRate16Bit, Error, FullScaleRange, SlaveAddr,
};
