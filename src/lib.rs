//! A key-value cache whose entries expire after a time-to-live.
//!
//! The library holds the cache's logic: the entities, the statements that the
//! store runs and what each of them means, the request decisions of the cache
//! service, the expiry sweeper's state machine and the startup configuration.
//! The program around it runs the statements against the database, serves
//! HTTP and drives the sweeper's timer.
pub mod clock;
pub mod config;
pub mod entity;
pub mod lifecycle;
pub mod service;
pub mod store;
pub mod sweeper;
pub mod time;
