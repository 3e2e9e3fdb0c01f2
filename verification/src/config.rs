//! Applying a configuration to the system.
//!
//! A configuration carries the startup URL of the kiosk browser.  The
//! compute part of applying it is verified here: the three section
//! merges on the preferences document, in order, stopping at the first
//! structural fault.  Loading and saving the document, and restarting
//! the browser around the merge, are the callers' part: the browser must
//! not be restarted against stale preferences, so a caller saves the
//! merged document before it starts the browser again.

use vstd::prelude::*;

pub mod chromium_preferences;
pub mod error;
pub mod json;

use crate::config::chromium_preferences::{
    profile_updates, reports_fault, session_updates, sessions_updates, ChromiumPreferences,
};
use crate::config::error::Error;
use crate::config::json::{spec_merge_fault, spec_update_section, JsonVal};

verus! {

/// The document after the three section merges of one configuration.
pub open spec fn spec_apply_config(doc: JsonVal, url: Seq<char>) -> JsonVal {
    spec_update_section(
        spec_update_section(
            spec_update_section(doc, "session"@, session_updates(url)),
            "profile"@,
            profile_updates(),
        ),
        "sessions"@,
        sessions_updates(),
    )
}

/// A configuration for the device: the URL that the kiosk browser shall
/// present.
#[derive(Debug, PartialEq, Eq)]
pub struct Config {
    url: String,
}

impl View for Config {
    type V = Seq<char>;

    closed spec fn view(&self) -> Seq<char> {
        self.url@
    }
}

impl Config {
    /// A configuration with the given startup URL.
    pub fn new(url: String) -> (r: Self)
        ensures
            r@ == url@,
    {
        Config { url }
    }

    /// The startup URL of the configuration.
    pub fn url(&self) -> (r: &str)
        ensures
            r@ == self@,
    {
        self.url.as_str()
    }

    /// Merges this configuration into the preferences document: the
    /// `session`, `profile` and `sessions` sections in that order,
    /// stopping at the first structural fault.  On success the document
    /// is the one that [`spec_apply_config`] describes; on a fault the
    /// sections merged so far remain merged and the rest are untouched.
    pub fn update_preferences(&self, preferences: &mut ChromiumPreferences) -> (r: Result<
        (),
        Error,
    >)
        ensures
            ({
                let d0 = old(preferences)@;
                let d1 = spec_update_section(d0, "session"@, session_updates(self@));
                let d2 = spec_update_section(d1, "profile"@, profile_updates());
                &&& (r is Ok ==> final(preferences)@ == spec_apply_config(d0, self@))
                &&& (r is Ok <==> spec_merge_fault(d0, "session"@) is None && spec_merge_fault(
                    d1,
                    "profile"@,
                ) is None && spec_merge_fault(d2, "sessions"@) is None)
                &&& (spec_merge_fault(d0, "session"@) is Some ==> reports_fault(r, d0, "session"@)
                    && final(preferences)@ == d0)
                &&& (spec_merge_fault(d0, "session"@) is None && spec_merge_fault(d1, "profile"@)
                    is Some ==> reports_fault(r, d1, "profile"@) && final(preferences)@ == d1)
                &&& (spec_merge_fault(d0, "session"@) is None && spec_merge_fault(d1, "profile"@)
                    is None && spec_merge_fault(d2, "sessions"@) is Some ==> reports_fault(
                    r,
                    d2,
                    "sessions"@,
                ) && final(preferences)@ == d2)
            }),
    {
        preferences.update_or_init_session(self.url.as_str())?;
        preferences.update_or_init_profile()?;
        preferences.update_or_init_sessions()?;
        Ok(())
    }
}

} // verus!
