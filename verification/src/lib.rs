//! Backend logic for supervising a crawler process and keeping its
//! configuration file: the wire protocol and session state machine, the
//! progress throttle, the configuration store and the change watcher.

pub mod sattel;
