//! Boot shim logic: present an Apple operating-system identity to the
//! firmware's vendor service, then chainload the second-stage loader.
//!
//! The crate holds the decisions of the boot sequence as state machines. A
//! driver performs the firmware operations they request and reports back how
//! each one ended:
//!
//! - [`identity`] asks for the vendor service to be located, opened and told
//!   the vendor name and OS version. None of this can fail the boot.
//! - [`chainload`] asks for the second-stage loader to be read into a pool
//!   buffer, made into an image, and started. Any failure ends the boot.
//! - [`boot`] runs the one after the other and decides how the boot ends.
//!
//! What holds of every run of these machines is proved in
//! [`identity_proofs`], [`chainload_proofs`] and [`boot_proofs`].

pub mod boot;
pub mod boot_proofs;
pub mod chainload;
pub mod chainload_proofs;
pub mod diagnostic;
pub mod firmware;
pub mod identity;
pub mod identity_proofs;
pub mod narrow;
pub mod set_os;
