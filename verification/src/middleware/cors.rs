//! Which origins may call the service from a browser.

use crate::text::same_text;
use vstd::prelude::*;
use vstd::string::*;

verus! {

/// Who may call the service from a browser.
#[derive(Debug)]
pub enum CorsPolicy {
    /// Any origin, with any method and any header.
    Permissive,
    /// One origin, with any method and any header.
    Restricted { origin: String },
}

/// The policy that the configured origin stands for: `"*"` opens the
/// service to every origin, anything else is the one origin that is let in.
pub fn create_cors_layer(allowed_origins: &str) -> (policy: CorsPolicy)
    ensures
        match policy {
            CorsPolicy::Permissive => allowed_origins@ == "*"@,
            CorsPolicy::Restricted { origin } => allowed_origins@ != "*"@ && origin@
                == allowed_origins@,
        },
{
    if same_text(allowed_origins, "*") {
        CorsPolicy::Permissive
    } else {
        CorsPolicy::Restricted { origin: String::from_str(allowed_origins) }
    }
}

} // verus!
