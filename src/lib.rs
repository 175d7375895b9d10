//! Signs kernel modules: appends a PKCS#7 signature with the loader's trailer,
//! or writes it beside the module as a detached file.
pub mod error;
pub mod trailer;
pub mod paths;
pub mod signing;
pub mod workflow;
