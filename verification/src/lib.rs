//! Shortcut aggregation and canonicalization engine for an on-screen
//! keyboard-shortcut cheat sheet.
//!
//! The engine takes a snapshot of raw `(binding, action)` pairs as the
//! desktop's settings provider hands them out, resolves each action to a
//! human-readable description, merges bindings that share a description,
//! drops media-key noise, and orders the result deterministically.

pub mod action;
pub mod binding;
pub mod keysym;
pub mod laws;
pub mod modifiers;
pub mod pipeline;
pub mod text;
