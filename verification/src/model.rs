//! Domain model: bands, modes, validation, contacts, and log sessions.

pub mod band;
pub mod mode;
pub mod validation;
pub mod qso;
pub mod log;

pub use band::Band;
pub use mode::Mode;
pub use validation::{
    ValidationError, normalize_grid_square, normalize_park_ref, validate_callsign,
    validate_grid_square, validate_park_ref, validate_section, validate_tx_count,
};
pub use qso::Qso;
pub use log::{
    FdClass, FdPowerCategory, FieldDayLog, GeneralLog, Log, LogHeader, PotaLog, WfdClass, WfdLog,
    parse_fd_class, parse_wfd_class,
};
