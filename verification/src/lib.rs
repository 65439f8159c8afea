//! Verified core of a small course-catalog HTTP service.
//!
//! The service stores course records, keyed by `course_id` with a secondary
//! `course_category` attribute, in an external key-value table. Everything
//! that decides — routing an inbound request, turning a store outcome into an
//! HTTP status and JSON body, converting between courses and stored items —
//! lives here with a contract. The unverified binary around this library only
//! moves bytes: it receives requests, performs the store calls this library
//! asks for, and hands the outcomes back.

pub mod course;
pub mod handlers;
pub mod http;
pub mod json;
pub mod router;
pub mod store;
