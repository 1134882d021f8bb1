//! Admission-score computation and examination-number allocation for a
//! school-admission workflow.
//!
//! Scores that carry decimals are held as integers in thousandths of a point,
//! so every result is exact and every rounding step is stated in the contracts.
pub mod api_response;
pub mod authority;
pub mod error;
pub mod examination;
pub mod form_dto;
pub mod form_entity;
pub mod question;
pub mod rational;
pub mod score;
pub mod subject;
pub mod submission;
pub mod track;
