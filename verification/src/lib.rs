//! Composition root of a cross-target (browser and desktop-webview) user
//! interface application.
//!
//! This crate models and verifies the bootstrap layer of such an application:
//! which of two platform launch procedures runs, in what order the global
//! state providers and the backend gateway are installed into ambient
//! context, how a reactive effect keeps the document body's class attribute
//! in step with the appearance value, and that the router is mounted only
//! after every installation step has completed.
//!
//! The surrounding runtime (the reactive framework, the webview, the browser
//! document) performs the actual side effects; the contracts here pin down
//! every decision this layer makes: the launch plan, the installation trace,
//! and the exact class string written for each appearance value.

pub mod appearance;
pub mod composition;
pub mod platform;
pub mod theme;
