pub mod log_state;
pub mod log_viewer;

pub use log_state::{LogFilter, LogFilterState, LogLevel, LogViewerState, StateLogEntry};
pub use log_viewer::{
    Binding, LogEntry, Logger, LoggerRegistrationError, LogViewerAction, Registry, SinkId, error,
    info, register_custom_logger, register_custom_logger_simple, send, warn,
};
