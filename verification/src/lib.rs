//! A local machine-configuration reconciler: it detects which optional tools
//! are present and brings their configuration to a declared state, reporting
//! every step it takes.
//!
//! The library decides and the host acts. A run starts with
//! [`orchestrator::execute`], which hands back the first request; the host
//! performs each request and passes its reply to
//! [`orchestrator::SetupRun::resume`], until the run hands back its outcome.
//! Everything that is reported goes to a [`common::logging::Log`], which only
//! ever grows. What the host is to print beside the report, it learns from
//! [`orchestrator::SetupRun::printed`] before it passes a reply on.
//!
//! The phases of a run, in order: the environment report, the system
//! settings, the configurators (package, extensions, shell rc file), and
//! the symlinks. The patch of the shell rc file is a function from text to
//! text, specified and proved idempotent in [`configurators::zshrc_laws`].

pub mod common;
pub mod configurators;
pub mod detectors;
pub mod environment;
pub mod orchestrator;
pub mod settings;
pub mod symlinks;
pub mod text;
pub mod text_lemmas;
