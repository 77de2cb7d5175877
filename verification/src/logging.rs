//! How the log is filtered.

use crate::getopts_spec::text_of;
use vstd::prelude::*;

verus! {

/// The filter directives to start the log with.
#[derive(Debug, PartialEq, Eq)]
pub struct LogPlan {
    /// The directives, in the syntax of the log filter.
    pub filter: String,
    /// Whether the verbosity flag was given in vain, which deserves a
    /// warning once the log is up.
    pub flag_overridden: bool,
}

/// The directives that apply: those of the override if there is one, else
/// those that the verbosity flag selects.
pub open spec fn filter_for(overriding: Option<Seq<char>>, verbose: bool) -> Seq<char> {
    match overriding {
        Some(directives) => directives,
        None => if verbose {
            "mdns=info,librespot=trace"@
        } else {
            "mdns=info,librespot=info"@
        },
    }
}

/// Chooses the log filter. `overriding` is the value of the verbosity
/// override of the environment, if it is set; it takes precedence over the
/// flag.
pub fn log_plan(overriding: Option<String>, verbose: bool) -> (plan: LogPlan)
    ensures
        plan.filter@ == filter_for(text_of(overriding), verbose),
        plan.flag_overridden == (overriding is Some && verbose),
{
    match overriding {
        Some(directives) => LogPlan { filter: directives, flag_overridden: verbose },
        None => {
            let filter = if verbose {
                "mdns=info,librespot=trace".to_owned()
            } else {
                "mdns=info,librespot=info".to_owned()
            };
            LogPlan { filter, flag_overridden: false }
        },
    }
}

} // verus!
