//! A local, disk-backed cache of static HTTP resources that revalidates its
//! copies with conditional requests (`If-Modified-Since`, `If-None-Match`).
pub mod key;
pub mod header;
pub mod record;
pub mod token;
pub mod fetch;
pub mod coherence;
