//! The "Preferences" document of the kiosk web browser.
//!
//! A configuration touches three named top-level sections of the
//! document: `session`, `profile` and `sessions`.  Each is extended by a
//! fixed set of keys through the shallow merge of [`crate::config::json`];
//! every unrelated key of the document and of the sections survives
//! unchanged.

use vstd::prelude::*;

use crate::config::error::Error;
use crate::config::json::{
    lemma_update_section_idempotent, spec_merge_fault, spec_update_section, unique_keys,
    entries_view, items_view, lemma_entries_view_index, lemma_items_view_index, Json, JsonVal,
    MergeFault,
};

verus! {

/// The keys that a configuration writes into the `session` section: the
/// single startup URL, and the directive to restore the last session.
pub open spec fn session_updates(url: Seq<char>) -> Seq<(Seq<char>, JsonVal)> {
    seq![
        ("startup_urls"@, JsonVal::Array(seq![JsonVal::Text(url)])),
        ("restore_on_startup"@, JsonVal::Number("4"@)),
    ]
}

/// The keys that a configuration writes into the `profile` section: a
/// regular last exit.
pub open spec fn profile_updates() -> Seq<(Seq<char>, JsonVal)> {
    seq![("exit_type"@, JsonVal::Text("Normal"@))]
}

/// The keys that a configuration writes into the `sessions` section.
pub open spec fn sessions_updates() -> Seq<(Seq<char>, JsonVal)> {
    seq![("session_data_status"@, JsonVal::Number("3"@))]
}

/// Builds the `session` updates for the given startup URL.
pub fn default_session(url: &str) -> (r: Vec<(String, Json)>)
    ensures
        entries_view(r@) == session_updates(url@),
{
    let urls = vec![Json::Text(url.to_owned())];
    proof {
        lemma_items_view_index(urls@);
        assert(items_view(urls@) =~= seq![JsonVal::Text(url@)]);
    }
    let r = vec![
        ("startup_urls".to_owned(), Json::Array(urls)),
        ("restore_on_startup".to_owned(), Json::Number("4".to_owned())),
    ];
    proof {
        lemma_entries_view_index(r@);
        assert(entries_view(r@) =~~= session_updates(url@));
    }
    r
}

/// Builds the `profile` updates.
pub fn default_profile() -> (r: Vec<(String, Json)>)
    ensures
        entries_view(r@) == profile_updates(),
{
    let r = vec![("exit_type".to_owned(), Json::Text("Normal".to_owned()))];
    proof {
        lemma_entries_view_index(r@);
        assert(entries_view(r@) =~~= profile_updates());
    }
    r
}

/// Builds the `sessions` updates.
pub fn default_sessions() -> (r: Vec<(String, Json)>)
    ensures
        entries_view(r@) == sessions_updates(),
{
    let r = vec![("session_data_status".to_owned(), Json::Number("3".to_owned()))];
    proof {
        lemma_entries_view_index(r@);
        assert(entries_view(r@) =~~= sessions_updates());
    }
    r
}

/// The preferences document of the kiosk web browser.
#[derive(Debug)]
pub struct ChromiumPreferences(Json);

impl View for ChromiumPreferences {
    type V = JsonVal;

    closed spec fn view(&self) -> JsonVal {
        self.0@
    }
}

/// What the fault of a section merge is reported as: the name of the
/// offending part of the document.
pub open spec fn fault_key(fault: MergeFault, section: Seq<char>) -> Seq<char> {
    match fault {
        MergeFault::RootNotAnObject => "preferences"@,
        MergeFault::SectionNotAnObject => section,
    }
}

/// Maps a merge fault to the error of the configuration layer.
fn fault_to_error(fault: MergeFault, section: &str) -> (r: Error)
    ensures
        r matches Error::NotAJsonObject(k) && k@ == fault_key(fault, section@),
{
    match fault {
        MergeFault::RootNotAnObject => Error::NotAJsonObject("preferences".to_owned()),
        MergeFault::SectionNotAnObject => Error::NotAJsonObject(section.to_owned()),
    }
}

/// Holds when the outcome of a section merge is reported correctly: no
/// fault gives `Ok`, a fault gives the error naming the offending part.
pub open spec fn reports_fault(
    r: Result<(), Error>,
    doc: JsonVal,
    section: Seq<char>,
) -> bool {
    match spec_merge_fault(doc, section) {
        None => r is Ok,
        Some(fault) => r matches Err(Error::NotAJsonObject(k)) && k@ == fault_key(fault, section),
    }
}

impl ChromiumPreferences {
    /// Wraps a parsed preferences document.
    pub fn new(document: Json) -> (r: Self)
        ensures
            r@ == document@,
    {
        ChromiumPreferences(document)
    }

    /// The document itself, for persisting it.
    pub fn document(&self) -> (r: &Json)
        ensures
            r@ == self@,
    {
        &self.0
    }

    /// Updates the `session` section with the given startup URL, or
    /// initializes the section if it is absent.
    pub fn update_or_init_session(&mut self, url: &str) -> (r: Result<(), Error>)
        ensures
            final(self)@ == spec_update_section(old(self)@, "session"@, session_updates(url@)),
            reports_fault(r, old(self)@, "session"@),
    {
        let updates = default_session(url);
        match self.0.update_or_init("session", updates) {
            Ok(()) => Ok(()),
            Err(fault) => Err(fault_to_error(fault, "session")),
        }
    }

    /// Updates the `profile` section, or initializes it if it is absent.
    pub fn update_or_init_profile(&mut self) -> (r: Result<(), Error>)
        ensures
            final(self)@ == spec_update_section(old(self)@, "profile"@, profile_updates()),
            reports_fault(r, old(self)@, "profile"@),
    {
        let updates = default_profile();
        match self.0.update_or_init("profile", updates) {
            Ok(()) => Ok(()),
            Err(fault) => Err(fault_to_error(fault, "profile")),
        }
    }

    /// Updates the `sessions` section, or initializes it if it is absent.
    pub fn update_or_init_sessions(&mut self) -> (r: Result<(), Error>)
        ensures
            final(self)@ == spec_update_section(old(self)@, "sessions"@, sessions_updates()),
            reports_fault(r, old(self)@, "sessions"@),
    {
        let updates = default_sessions();
        match self.0.update_or_init("sessions", updates) {
            Ok(()) => Ok(()),
            Err(fault) => Err(fault_to_error(fault, "sessions")),
        }
    }
}

/// The startup URL that a preferences document holds: the first item
/// of its `session.startup_urls` array, when that item is a string.
pub open spec fn spec_startup_url(doc: JsonVal) -> Option<Seq<char>> {
    if doc is Object {
        match crate::config::json::lookup(doc->Object_0, "session"@) {
            Some(session) => if session is Object {
                match crate::config::json::lookup(session->Object_0, "startup_urls"@) {
                    Some(urls) => if urls is Array && urls->Array_0.len() > 0 && urls->Array_0[0]
                        is Text {
                        Some(urls->Array_0[0]->Text_0)
                    } else {
                        None
                    },
                    None => None,
                }
            } else {
                None
            },
            None => None,
        }
    } else {
        None
    }
}

impl ChromiumPreferences {
    /// The startup URL that the document currently holds, or nothing
    /// when it holds none; a caller that compares it with a freshly
    /// fetched URL decides whether a new configuration must be applied.
    pub fn current_startup_url(&self) -> (r: Option<&str>)
        ensures
            match r {
                Some(url) => spec_startup_url(self@) == Some(url@),
                None => spec_startup_url(self@) is None,
            },
    {
        match self.0.get_entry("session") {
            Some(session) => match session.get_entry("startup_urls") {
                Some(urls) => match urls.first_item() {
                    Some(first) => first.as_text(),
                    None => None,
                },
                None => None,
            },
            None => None,
        }
    }
}

/// The session updates never carry two entries for one key.
pub proof fn lemma_session_updates_unique(url: Seq<char>)
    ensures
        unique_keys(session_updates(url)),
{
    reveal_strlit("startup_urls");
    reveal_strlit("restore_on_startup");
    assert("startup_urls"@.len() != "restore_on_startup"@.len());
}

/// The preference merge is idempotent: applying the session update twice
/// in a row yields the same document as applying it once, whenever the
/// first application reports no fault.
pub proof fn lemma_session_update_idempotent(doc: JsonVal, url: Seq<char>)
    requires
        spec_merge_fault(doc, "session"@) is None,
    ensures
        spec_update_section(
            spec_update_section(doc, "session"@, session_updates(url)),
            "session"@,
            session_updates(url),
        ) == spec_update_section(doc, "session"@, session_updates(url)),
{
    lemma_session_updates_unique(url);
    lemma_update_section_idempotent(doc, "session"@, session_updates(url));
}

} // verus!
