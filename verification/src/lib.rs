//! A native bootstrapper for a Java-based application: it resolves the host
//! environment, locates a usable runtime through a prioritized search,
//! reads a sidecar heap-size override, assembles the classpath and the full
//! invocation argument vector the deployment layout requires, and decides
//! the outcome of supervising the spawned runtime.
//!
//! Every decision is a function of plain values with a proved contract;
//! reading the process environment, the sidecar file and the child's output
//! is left to the thin executable shell around the library.

pub mod args;
pub mod environment;
pub mod heap;
pub mod locator;
pub mod supervisor;
pub mod text;

use vstd::prelude::*;

verus! {

/// Entry-point class launched for the graphical interface variant.
pub const GUI_INITIAL_CLASS: &'static str = "com.application.areca.launcher.gui.Launcher";

/// Entry-point class launched for the console interface variant.
pub const TUI_INITIAL_CLASS: &'static str = "com.application.areca.launcher.tui.Launcher";

/// Heap-size flag used when no sidecar override is present.
pub const DEFAULT_MAXIMUM_JAVA_HEAP_MEMORY: &'static str = "-Xmx1024m";

} // verus!
