//! The command line: where the sources are, where the site goes, and the switches.
use vstd::prelude::*;
use std::path::PathBuf;

verus! {

#[verifier::external_type_specification]
#[verifier::external_body]
pub struct ExPathBuf(std::path::PathBuf);

/// The command line's arguments and switches.
pub struct Cli {
    /// Input folder containing markdown files.
    pub input_folder: PathBuf,
    /// Output folder to generate the site.
    pub output_folder: PathBuf,
    /// Serve the site with a built-in HTTP server.
    pub serve: bool,
    /// Detect changes and rebuild the site automatically.
    pub watch: bool,
    /// Address to bind the server.
    pub bind: String,
    /// Path to the configuration file.
    pub config: String,
    /// Print debug messages.
    pub debug: bool,
    /// Initialize templates in the project.
    pub init_templates: bool,
    /// Initialize a theme with templates and static assets.
    pub start_theme: bool,
}

} // verus!
