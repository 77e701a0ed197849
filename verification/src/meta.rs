//! Build-time tooling: what the ABI generator and the code report work with.

pub mod code_report;
pub mod endpoint_type_metadata;

pub use code_report::{CodeReportJson, ReportError, ReportFormat};
pub use endpoint_type_metadata::EndpointTypeMetadata;
