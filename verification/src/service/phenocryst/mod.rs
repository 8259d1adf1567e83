//! Phenocryst: second-factor credentials and the verification flow that
//! turns a one-time code into an OTP token.

pub mod totp;
