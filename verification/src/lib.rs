//! Status inspection for the DX serializer caches of a forge workspace,
//! together with the pure parts of recording a commit.

pub mod commit;
pub mod digest;
pub mod dx_config;
pub mod dx_status;
pub mod laws;
pub mod paths;
pub mod report;
pub mod text;
