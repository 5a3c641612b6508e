//! Verified core of the job-hunting assistant: text handling, currency
//! detection, resume rendering, research pipeline bookkeeping, listing
//! formatting and token sealing.

pub mod text;
pub mod llm_helper;
pub mod money;
pub mod research;
pub mod directory;
pub mod linkedin;
pub mod resume;
pub mod composer;
pub mod template;
pub mod crypto;
pub mod flows;
pub mod knowledge;
pub mod auth;
pub mod apply;
pub mod preferences;
pub mod multipart;
pub mod settings;
pub mod users;
pub mod validation;
