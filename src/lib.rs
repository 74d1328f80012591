//! An RFC 3161 time-stamp authority core: request admission, time keeping with
//! accuracy tracking, and signing-material snapshots.

pub mod conf;
pub mod oid;
pub mod ntp_sample;
pub mod ntp_client;
pub mod local_system_time;
pub mod time_keeper;
pub mod signing_info;
pub mod rotation;
pub mod time_stamper;
pub mod request_body;
