//! Build support and DCAP remote attestation for Intel SGX enclaves written
//! in Rust: the build environment, the steps that make a signed enclave, the
//! host application's build, enclave naming and creation, and attestation.
pub mod text;
pub mod path;
pub mod env;
pub mod cutils;
pub mod enclave;
pub mod builders;
pub mod std_app;
pub mod build_dep;
pub mod dcap;
