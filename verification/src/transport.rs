//! Transports that carry ASTERIX data blocks between participants.

pub mod can;
pub mod ccsds;
pub mod dbus;
pub mod dds;
pub mod zenoh;

pub use self::can::{CanConfig, CanError, CanFrameType, CanPublisher, CanSample, CanSubscriber};
pub use self::ccsds::{
    category_from_apid, parse_ccsds_header, CcsdsConfig, CcsdsError, CcsdsMode, CcsdsPublisher,
    CcsdsSample,
};
pub use self::dbus::{BusType, DbusConfig, DbusError};
pub use self::dds::{DdsConfig, DdsError, DdsPublisher};
pub use self::zenoh::{ZenohConfig, ZenohError, ZenohPublisher};
