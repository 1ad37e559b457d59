//! The browser flags that let embedded video autoplay without a user gesture.
use vstd::prelude::*;

verus! {

/// The environment variable whose flags the embedded rendering engine reads at start.
pub const BROWSER_ARGUMENTS_VAR: &'static str = "WEBVIEW2_ADDITIONAL_BROWSER_ARGUMENTS";

/// Lets media start playing without a user gesture.
pub const AUTOPLAY_POLICY_FLAG: &'static str = "--autoplay-policy=no-user-gesture-required";

/// Keeps Web Audio from being exempt from that autoplay policy.
pub const DISABLE_FEATURES_FLAG: &'static str = "--disable-features=AutoplayIgnoreWebAudio";

/// The platform that the shell runs on, as far as the startup logic cares.
#[derive(Clone, Copy, Debug, PartialEq, Eq, Structural)]
pub enum Platform {
    /// The desktop platform whose rendering engine reads `BROWSER_ARGUMENTS_VAR`.
    Windows,
    /// Any platform whose engine ignores that variable.
    Other,
}

/// The two fixed flags, in order, joined by a single space.
pub open spec fn autoplay_flags() -> Seq<char> {
    AUTOPLAY_POLICY_FLAG@ + seq![' '] + DISABLE_FEATURES_FLAG@
}

/// The view of an optional string.
pub open spec fn opt_view(s: Option<&str>) -> Option<Seq<char>> {
    match s {
        Some(t) => Some(t@),
        None => None,
    }
}

/// The variable's new value: the prior value, a space and the fixed flags, or
/// the fixed flags alone where there was no prior value.
pub open spec fn spec_browser_arguments(prior: Option<Seq<char>>) -> Seq<char> {
    match prior {
        Some(p) => p + seq![' '] + autoplay_flags(),
        None => autoplay_flags(),
    }
}

/// The value that the browser-arguments variable is to hold, given its prior
/// value (`None` where it was not set).
pub fn browser_arguments(prior: Option<&str>) -> (r: String)
    ensures
        r@ == spec_browser_arguments(opt_view(prior)),
{
    let mut r = match prior {
        Some(p) => {
            let mut s = String::from_str(p);
            s.append(" ");
            s
        },
        None => String::new(),
    };
    r.append(AUTOPLAY_POLICY_FLAG);
    r.append(" ");
    r.append(DISABLE_FEATURES_FLAG);
    proof {
        reveal_strlit(" ");
        match prior {
            Some(p) => {
                assert(r@ =~= spec_browser_arguments(opt_view(prior)));
            },
            None => {
                assert(r@ =~= spec_browser_arguments(opt_view(prior)));
            },
        }
    }
    r
}

/// What to write into the browser-arguments variable on `platform`: the new
/// value where the platform's engine reads it, and `None` (leave the variable
/// as it is) everywhere else.
pub fn browser_arguments_update(platform: Platform, prior: Option<&str>) -> (r: Option<String>)
    ensures
        platform == Platform::Windows ==> r is Some && r->0@ == spec_browser_arguments(
            opt_view(prior),
        ),
        platform != Platform::Windows ==> r is None,
{
    match platform {
        Platform::Windows => Some(browser_arguments(prior)),
        Platform::Other => None,
    }
}

} // verus!
