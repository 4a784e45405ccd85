use vstd::prelude::*;

use crate::browser::{FileBrowser, StartupDirectoryValidationRequest, StartupLocationPolicy};
use crate::file_drop::{bump_generation, next_generation};
use crate::fs_path::{FsPath, path_text_of};
use crate::session::{SessionSaveAction, session_saving};
use crate::text::{parse_path, trim_range, trimmed};

verus! {

/// The message shown when the startup directory field is left blank.
pub open spec fn empty_directory_error() -> Seq<char> {
    "Enter a directory path."@
}

/// The message shown when the startup directory does not exist.
pub open spec fn missing_directory_error() -> Seq<char> {
    "Choose an existing directory."@
}

/// `request` is the pending validation and the field still holds the text it checked.
pub open spec fn validation_is_current(browser: FileBrowser, request: StartupDirectoryValidationRequest) -> bool {
    &&& browser.pending_startup_directory_validation matches Some(p)
    &&& p.generation == request.generation
    &&& p.input@ == request.input@
    &&& p.directory@ == request.directory@
    &&& browser.startup_custom_directory_input@ == request.input@
}

impl StartupDirectoryValidationRequest {
    /// A copy of this request.
    pub fn copy(&self) -> (r: StartupDirectoryValidationRequest)
        ensures
            r.generation == self.generation,
            r.input@ == self.input@,
            r.directory@ == self.directory@,
    {
        StartupDirectoryValidationRequest {
            generation: self.generation,
            input: self.input.clone(),
            directory: self.directory.copy(),
        }
    }
}

impl FileBrowser {
    /// Makes every outstanding directory check stale: a new generation
    /// starts and nothing is pending.
    pub fn invalidate_startup_directory_validation(&mut self)
        ensures
            *final(self) == (FileBrowser {
                startup_directory_validation_generation: next_generation(
                    old(self).startup_directory_validation_generation,
                ),
                pending_startup_directory_validation: None,
                ..*old(self)
            }),
    {
        self.startup_directory_validation_generation = bump_generation(self.startup_directory_validation_generation);
        self.pending_startup_directory_validation = None;
    }

    /// The startup directory field is edited: checks go stale, the text is
    /// kept and the error clears.
    pub fn update_startup_custom_directory_input(&mut self, value: String)
        ensures
            *final(self) == (FileBrowser {
                startup_directory_validation_generation: next_generation(
                    old(self).startup_directory_validation_generation,
                ),
                pending_startup_directory_validation: None,
                startup_custom_directory_input: value,
                startup_custom_directory_error: None,
                ..*old(self)
            }),
    {
        self.invalidate_startup_directory_validation();
        self.startup_custom_directory_input = value;
        self.startup_custom_directory_error = None;
    }

    /// The startup directory field is committed. Checks go stale; a blank
    /// field shows an error; otherwise a check of the trimmed text's path
    /// starts under the new generation and is returned to be run.
    pub fn commit_startup_custom_directory_input(&mut self) -> (r: Option<StartupDirectoryValidationRequest>)
        ensures
            ({
                let g = next_generation(old(self).startup_directory_validation_generation);
                let text = trimmed(old(self).startup_custom_directory_input@);
                &&& final(self).startup_directory_validation_generation == g
                &&& final(self).startup_custom_directory_input == old(self).startup_custom_directory_input
                &&& text.len() == 0 ==> r is None && final(self).pending_startup_directory_validation is None
                    && (final(self).startup_custom_directory_error matches Some(e) && e@ == empty_directory_error())
                &&& text.len() > 0 ==> final(self).startup_custom_directory_error is None
                    && (r matches Some(q) && q.generation == g && q.input@ == old(self).startup_custom_directory_input@
                    && q.directory@ == parse_path(text))
                    && (final(self).pending_startup_directory_validation matches Some(p) && p.generation == g
                    && p.input@ == q_input(r) && p.directory@ == parse_path(text))
                &&& *final(self) == (FileBrowser {
                    startup_directory_validation_generation: g,
                    pending_startup_directory_validation: final(self).pending_startup_directory_validation,
                    startup_custom_directory_error: final(self).startup_custom_directory_error,
                    ..*old(self)
                })
            }),
    {
        self.invalidate_startup_directory_validation();
        let (start, end) = trim_range(self.startup_custom_directory_input.as_str());
        if start == end {
            let error = String::from_str("Enter a directory path.");
            proof {
                reveal_strlit("Enter a directory path.");
            }
            self.startup_custom_directory_error = Some(error);
            return None;
        }
        let text = self.startup_custom_directory_input.as_str().substring_char(start, end);
        let request = StartupDirectoryValidationRequest {
            generation: self.startup_directory_validation_generation,
            input: self.startup_custom_directory_input.clone(),
            directory: FsPath::from_text(text),
        };
        let copy = request.copy();
        self.pending_startup_directory_validation = Some(request);
        self.startup_custom_directory_error = None;
        Some(copy)
    }

    /// The check of `request` has finished, finding the directory `usable`
    /// or not. A check that is not current ([`validation_is_current`])
    /// changes nothing. Otherwise nothing is pending any more: a usable
    /// directory becomes the startup directory, the field shows its path and
    /// the error clears; a missing one shows an error. Returns whether the
    /// startup directory changed (and so the settings are to be saved).
    pub fn accept_startup_directory_validation(&mut self, request: StartupDirectoryValidationRequest, usable: bool) -> (saved: bool)
        ensures
            !validation_is_current(*old(self), request) ==> !saved && *final(self) == *old(self),
            validation_is_current(*old(self), request) && usable ==> saved && final(self).startup_custom_directory@
                == request.directory@ && final(self).startup_custom_directory_input@ == path_text_of(request.directory@)
                && *final(self) == (FileBrowser {
                pending_startup_directory_validation: None,
                startup_custom_directory: final(self).startup_custom_directory,
                startup_custom_directory_input: final(self).startup_custom_directory_input,
                startup_custom_directory_error: None,
                ..*old(self)
            }),
            validation_is_current(*old(self), request) && !usable ==> !saved
                && (final(self).startup_custom_directory_error matches Some(e) && e@ == missing_directory_error())
                && *final(self) == (FileBrowser {
                pending_startup_directory_validation: None,
                startup_custom_directory_error: final(self).startup_custom_directory_error,
                ..*old(self)
            }),
    {
        let current = match &self.pending_startup_directory_validation {
            Some(pending) => pending.generation == request.generation && string_eq(&pending.input, &request.input)
                && pending.directory.same_path(&request.directory) && string_eq(
                &self.startup_custom_directory_input,
                &request.input,
            ),
            None => false,
        };
        if !current {
            return false;
        }
        self.pending_startup_directory_validation = None;
        if usable {
            let input = request.directory.path_text();
            self.startup_custom_directory = request.directory;
            self.startup_custom_directory_input = input;
            self.startup_custom_directory_error = None;
            true
        } else {
            let error = String::from_str("Choose an existing directory.");
            proof {
                reveal_strlit("Choose an existing directory.");
            }
            self.startup_custom_directory_error = Some(error);
            false
        }
    }

    /// Picks the startup policy. Picking the current one (with view-state
    /// saving already matching it) changes nothing and returns `None`.
    /// Otherwise checks go stale, the policy and view-state saving follow
    /// the pick (a pending session save is dropped when saving turns off),
    /// and a session save is asked for
    /// ([`FileBrowser::request_browser_session_save`]), whose action is returned.
    pub fn select_startup_location_policy(
        &mut self,
        policy: StartupLocationPolicy,
        store_open: bool,
        since_last_save_ms: Option<u64>,
    ) -> (r: Option<SessionSaveAction>)
        requires
            old(self).browser_session_saves_in_flight < u64::MAX,
        ensures
            old(self).startup_location_policy == policy && old(self).save_view_state == policy.keeps_view_state()
                ==> r is None && *final(self) == *old(self),
            !(old(self).startup_location_policy == policy && old(self).save_view_state == policy.keeps_view_state())
                ==> r is Some && final(self).startup_location_policy == policy && final(self).save_view_state
                == policy.keeps_view_state() && final(self).startup_directory_validation_generation == next_generation(
                old(self).startup_directory_validation_generation,
            ) && final(self).pending_startup_directory_validation is None && (session_saving(*final(self))
                == (old(self).launch_allows_session_persistence && policy.keeps_view_state())) && (!policy.keeps_view_state()
                ==> !final(self).pending_browser_session_save) && (policy.keeps_view_state()
                && old(self).launch_allows_session_persistence && !store_open
                ==> final(self).pending_browser_session_save),
    {
        let save_view_state = policy.saves_view_state();
        if self.startup_location_policy == policy && self.save_view_state == save_view_state {
            return None;
        }
        self.invalidate_startup_directory_validation();
        self.startup_location_policy = policy;
        self.save_view_state = save_view_state;
        if !save_view_state {
            self.pending_browser_session_save = false;
        }
        Some(self.request_browser_session_save(store_open, since_last_save_ms))
    }
}

/// The text of the request's field, when there is a request.
pub open spec fn q_input(r: Option<StartupDirectoryValidationRequest>) -> Seq<char> {
    match r {
        Some(q) => q.input@,
        None => Seq::empty(),
    }
}

/// Two texts are equal.
pub fn string_eq(a: &String, b: &String) -> (r: bool)
    ensures
        r == (a@ == b@),
{
    let n = a.as_str().unicode_len();
    let m = b.as_str().unicode_len();
    if n != m {
        return false;
    }
    let mut i: usize = 0;
    while i < n
        invariant
            i <= n,
            n == a@.len(),
            m == b@.len(),
            n == m,
            forall|j: int| 0 <= j < i ==> a@[j] == b@[j],
        decreases n - i,
    {
        if a.as_str().get_char(i) != b.as_str().get_char(i) {
            return false;
        }
        i = i + 1;
    }
    proof {
        assert(a@ =~= b@);
    }
    true
}

} // verus!
