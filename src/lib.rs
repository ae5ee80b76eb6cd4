//! Two protocol adapters over an agent's extension manager and tool router:
//! their tool listings, their dispatch by tool name, and the procedure that
//! enables or disables an extension while keeping the tool index in step.

pub mod core_extension;
pub mod errors;
pub mod extension_manager_extension;
pub mod lifecycle;
pub mod params;
pub mod tools;
pub mod text;
