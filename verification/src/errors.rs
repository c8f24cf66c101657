//! The error taxonomy and its human-readable rendering.
//!
//! Startup-phase failures abort the process with a rendered diagnostic; a
//! configuration failure additionally carries the offending source text and
//! an optional span into it, so the caller can point at the exact place.
//! The binary owns the pretty terminal output; these renderings are the
//! diagnostic content itself, and each is pinned down to the character.

use vstd::prelude::*;
use vstd::string::StringExecFns;

verus! {

/// A malformed configuration document.
///
/// Carries the summary of what went wrong, the whole original source text,
/// and, when the underlying parser located the fault, the byte range it
/// points at together with its own inline message as the summary.
#[derive(Debug)]
pub struct MappingsError {
    /// Human-readable summary of the failure.
    pub message: String,
    /// Byte range into `source` locating the fault, when one is known.
    pub span: Option<(usize, usize)>,
    /// The configuration text that failed to parse, kept in full.
    pub source: String,
}

/// The rendering of a configuration error: a fixed heading, the summary,
/// then the complete offending source text on its own lines.
pub open spec fn mappings_error_rendering(e: MappingsError) -> Seq<char> {
    "Configuration error: "@ + e.message@ + "\n"@ + e.source@
}

impl MappingsError {
    /// Render the diagnostic. The result always embeds the original
    /// source text, so the caller can show a pointer into it.
    pub fn render(&self) -> (r: String)
        ensures
            r@ == mappings_error_rendering(*self),
    {
        let mut out = String::from_str("Configuration error: ");
        out.append(self.message.as_str());
        out.append("\n");
        out.append(self.source.as_str());
        out
    }
}

/// Every failure the pipeline can report.
#[derive(Debug)]
pub enum PipelineError {
    /// Malformed configuration document; fatal at startup.
    Config(MappingsError),
    /// Device discovery found no MIDI input device; fatal at startup.
    NoDevices,
    /// A platform collaborator failed (message source or key injector).
    /// Fatal at startup, recovered per message once running.
    Platform(String),
    /// Reading the configuration file failed; fatal at startup.
    Io(String),
    /// Registering the interrupt handler failed; fatal at startup.
    SignalRegistration(String),
}

/// The rendering of each error variant.
pub open spec fn error_rendering(e: PipelineError) -> Seq<char> {
    match e {
        PipelineError::Config(c) => mappings_error_rendering(c),
        PipelineError::NoDevices => "No MIDI devices found"@,
        PipelineError::Platform(m) => "Platform error: "@ + m@,
        PipelineError::Io(m) => "IO error: "@ + m@,
        PipelineError::SignalRegistration(m) => "Cancellation signal error: "@ + m@,
    }
}

impl PipelineError {
    /// Render the diagnostic for this error.
    pub fn render(&self) -> (r: String)
        ensures
            r@ == error_rendering(*self),
    {
        match self {
            PipelineError::Config(c) => c.render(),
            PipelineError::NoDevices => String::from_str("No MIDI devices found"),
            PipelineError::Platform(m) => {
                let mut out = String::from_str("Platform error: ");
                out.append(m.as_str());
                out
            },
            PipelineError::Io(m) => {
                let mut out = String::from_str("IO error: ");
                out.append(m.as_str());
                out
            },
            PipelineError::SignalRegistration(m) => {
                let mut out = String::from_str("Cancellation signal error: ");
                out.append(m.as_str());
                out
            },
        }
    }
}

/// A rendered configuration diagnostic always contains the source text it
/// was built from, as its suffix.
pub proof fn lemma_config_rendering_embeds_source(e: MappingsError)
    ensures
        mappings_error_rendering(e).len() >= e.source@.len(),
        mappings_error_rendering(e).skip(
            mappings_error_rendering(e).len() - e.source@.len(),
        ) == e.source@,
{
    let r = mappings_error_rendering(e);
    assert(r.skip(r.len() - e.source@.len()) =~= e.source@);
}

} // verus!
