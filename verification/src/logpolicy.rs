//! The logging level policy: the default global filter is Info, an
//! environment directive can override it, and a named noisy module (the TLS
//! stack) is held down to Warn exactly when the user has not asked for a
//! verbosity other than the default.

use vstd::prelude::*;

use crate::text::opt_text;

verus! {

/// Whether `s` spells `info`, ASCII case-insensitively. Only the four ASCII
/// letters have case variants that spell it, so this is exactly the
/// lowercase-comparison the directive convention uses.
pub open spec fn spec_is_info_directive(s: Seq<char>) -> bool {
    &&& s.len() == 4
    &&& (s[0] == 'i' || s[0] == 'I')
    &&& (s[1] == 'n' || s[1] == 'N')
    &&& (s[2] == 'f' || s[2] == 'F')
    &&& (s[3] == 'o' || s[3] == 'O')
}

/// Whether the effective global level is the Info default: the directive is
/// absent, empty, or exactly `info` case-insensitively.
pub open spec fn spec_default_verbosity(directive: Option<Seq<char>>) -> bool {
    match directive {
        None => true,
        Some(s) => s.len() == 0 || spec_is_info_directive(s),
    }
}

/// The decisions a logging configuration is built from once the environment
/// directive is read. The global default filter is Info; the TLS module is
/// suppressed to Warn only under the default verbosity.
pub struct LoggingPolicy {
    /// The effective global level is the Info default.
    pub default_verbosity: bool,
    /// Hold the TLS stack's module down to Warn.
    pub suppress_tls_noise: bool,
}

/// Whether `s` spells `info`, ASCII case-insensitively.
pub fn is_info_directive(s: &str) -> (b: bool)
    ensures
        b == spec_is_info_directive(s@),
{
    if s.unicode_len() != 4 {
        return false;
    }
    let c0 = s.get_char(0);
    let c1 = s.get_char(1);
    let c2 = s.get_char(2);
    let c3 = s.get_char(3);
    (c0 == 'i' || c0 == 'I') && (c1 == 'n' || c1 == 'N') && (c2 == 'f' || c2 == 'F') && (c3 == 'o'
        || c3 == 'O')
}

/// Decides the logging configuration from the environment directive, read
/// once at startup: the TLS-noise suppression applies exactly when the
/// directive leaves the effective global level at the Info default.
pub fn logging_policy(directive: &Option<String>) -> (p: LoggingPolicy)
    ensures
        p.default_verbosity == spec_default_verbosity(opt_text(*directive)),
        p.suppress_tls_noise == p.default_verbosity,
{
    let default_verbosity = match directive {
        None => true,
        Some(s) => s.as_str().unicode_len() == 0 || is_info_directive(s.as_str()),
    };
    LoggingPolicy { default_verbosity, suppress_tls_noise: default_verbosity }
}

} // verus!
