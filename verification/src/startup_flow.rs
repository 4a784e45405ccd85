use vstd::prelude::*;

use crate::browser::{FileBrowser, StartupLocationPolicy};
use crate::fs_path::{FsPath, path_text_of};
use crate::model::BrowserViewMode;
use crate::session::{
    BrowserSessionSnapshot, StartupSessionPlan, flags_fit, flags_of, keeps_settings, no_session_error,
    opened_alone, session_restored, startup_directory_error,
};

verus! {

/// The settings of the user's configuration that startup reads.
#[derive(Debug, Clone, PartialEq, Eq)]
pub struct UserConfig {
    pub startup_location_policy: StartupLocationPolicy,
    pub save_view_state: bool,
    pub startup_custom_directory: FsPath,
    pub browser_view_mode: BrowserViewMode,
}

/// An optional error text as plain characters.
pub open spec fn text_of(error: Option<String>) -> Option<Seq<char>> {
    match error {
        Some(e) => Some(e@),
        None => None,
    }
}

/// The error shown when the store of file operations could not be opened.
pub open spec fn store_error_text(error: Seq<char>) -> Seq<char> {
    "Failed to initialize file operation queue storage: "@ + error
}

/// The error shown when the saved session could not be read from the store.
pub open spec fn restore_failed_error(error: Seq<char>) -> Seq<char> {
    "Failed to restore saved view state: "@ + error + "; opening the home directory."@
}

/// `after` is `before` with `config` taken in: see [`FileBrowser::apply_loaded_user_config`].
pub open spec fn config_applied(before: FileBrowser, after: FileBrowser, config: UserConfig) -> bool {
    &&& after == (FileBrowser {
        startup_location_policy: config.startup_location_policy,
        save_view_state: config.startup_location_policy.keeps_view_state(),
        view_mode: config.browser_view_mode,
        startup_custom_directory: config.startup_custom_directory,
        startup_custom_directory_input: after.startup_custom_directory_input,
        startup_custom_directory_error: None,
        ..before
    })
    &&& after.startup_custom_directory_input@ == path_text_of(config.startup_custom_directory@)
}

impl FileBrowser {
    /// Opens the browser by `plan`: one directory alone with its error, or
    /// the saved session, each saved pane with its usability flags `usable`.
    pub fn apply_startup_session_plan(&mut self, plan: StartupSessionPlan, home: &FsPath, usable: &Vec<Vec<bool>>)
        requires
            plan matches StartupSessionPlan::Session(s) ==> flags_fit(s, usable@),
        ensures
            match plan {
                StartupSessionPlan::Directory { directory, error } => opened_alone(
                    *final(self),
                    old(self).view_mode,
                    directory@,
                    text_of(error),
                ),
                StartupSessionPlan::Session(s) => session_restored(
                    *final(self),
                    old(self).view_mode,
                    s,
                    home@,
                    flags_of(usable@),
                ),
            },
            keeps_settings(*old(self), *final(self)),
    {
        match plan {
            StartupSessionPlan::Directory { directory, error } => {
                self.apply_single_startup_directory(directory, error);
            },
            StartupSessionPlan::Session(session) => {
                self.apply_restored_session(session, home, usable);
            },
        }
    }

    /// Opens the home directory alone after the saved session could not be
    /// read, showing why.
    pub fn fallback_startup_directory_after_session_store_error(&mut self, home: &FsPath, error: String)
        ensures
            opened_alone(*final(self), old(self).view_mode, home@, Some(restore_failed_error(error@))),
            keeps_settings(*old(self), *final(self)),
    {
        let mut text = String::from_str("Failed to restore saved view state: ");
        proof {
            reveal_strlit("Failed to restore saved view state: ");
        }
        text.append(error.as_str());
        text.append("; opening the home directory.");
        proof {
            reveal_strlit("; opening the home directory.");
        }
        self.apply_single_startup_directory(home.copy(), Some(text));
    }

    /// Takes in a loaded configuration. The view state is saved exactly when
    /// the policy restores the previous session, whatever the file said; the
    /// policy, view mode and custom startup directory (with its text in the
    /// settings field, and no error) are taken over.
    pub fn apply_loaded_user_config(&mut self, config: UserConfig)
        ensures
            config_applied(*old(self), *final(self), config),
    {
        let saves = config.startup_location_policy.saves_view_state();
        self.startup_location_policy = config.startup_location_policy;
        self.save_view_state = saves;
        self.view_mode = config.browser_view_mode;
        self.startup_custom_directory_input = config.startup_custom_directory.path_text();
        self.startup_custom_directory = config.startup_custom_directory;
        self.startup_custom_directory_error = None;
    }

    /// The startup environment is known: the configuration is taken in
    /// ([`FileBrowser::apply_loaded_user_config`]) and `home` kept. Unless the
    /// previous session is to be restored, which waits for the store, the
    /// browser opens at once by its policy: home, or the custom directory when
    /// usable (`custom_directory_usable`), else home with an error.
    pub fn accept_startup_environment(&mut self, home: FsPath, config: UserConfig, custom_directory_usable: bool)
        ensures
            ({
                let policy = config.startup_location_policy;
                let custom = config.startup_custom_directory@;
                &&& final(self).startup_location_policy == policy
                &&& final(self).save_view_state == policy.keeps_view_state()
                &&& final(self).startup_custom_directory@ == custom
                &&& final(self).startup_custom_directory_input@ == path_text_of(custom)
                &&& final(self).startup_custom_directory_error is None
                &&& final(self).home_dir@ == home@
                &&& final(self).view_mode == config.browser_view_mode
                &&& match policy {
                    StartupLocationPolicy::PreviousSession => config_applied(
                        FileBrowser { home_dir: final(self).home_dir, ..*old(self) },
                        *final(self),
                        config,
                    ),
                    StartupLocationPolicy::Home => opened_alone(*final(self), config.browser_view_mode, home@, None),
                    StartupLocationPolicy::CustomDirectory => if custom_directory_usable {
                        opened_alone(*final(self), config.browser_view_mode, custom, None)
                    } else {
                        opened_alone(*final(self), config.browser_view_mode, home@, Some(startup_directory_error(custom)))
                    },
                }
            }),
    {
        let ghost home_view = home@;
        self.home_dir = home;
        let ghost with_home = *self;
        self.apply_loaded_user_config(config);
        if self.startup_location_policy == StartupLocationPolicy::PreviousSession {
            return;
        }
        let plan = self.startup_session_plan(&self.home_dir.copy(), custom_directory_usable, None);
        let no_flags: Vec<Vec<bool>> = Vec::new();
        let home_copy = self.home_dir.copy();
        self.apply_startup_session_plan(plan, &home_copy, &no_flags);
    }

    /// The store of file operations has been opened (`Ok`, with the saved
    /// session if any) or could not be (`Err`). When the previous session is
    /// to be restored, it is restored now from what the store gave, each
    /// saved pane with its usability flags `usable`; without a saved session
    /// the home directory opens with an error. When the store failed, the
    /// failure is shown; when the previous session was to be restored, the
    /// home directory opens instead, showing why.
    pub fn accept_operation_store(
        &mut self,
        loaded: Result<Option<BrowserSessionSnapshot>, String>,
        usable: &Vec<Vec<bool>>,
    )
        requires
            loaded matches Ok(Some(s)) ==> flags_fit(s, usable@),
        ensures
            ({
                let home = old(self).home_dir@;
                let restoring = old(self).startup_location_policy == StartupLocationPolicy::PreviousSession;
                &&& keeps_settings(*old(self), *final(self))
                &&& match loaded {
                    Ok(Some(s)) => if restoring {
                        session_restored(*final(self), old(self).view_mode, s, home, flags_of(usable@))
                    } else {
                        *final(self) == *old(self)
                    },
                    Ok(None) => if restoring {
                        opened_alone(*final(self), old(self).view_mode, home, Some(no_session_error()))
                    } else {
                        *final(self) == *old(self)
                    },
                    Err(e) => if restoring {
                        opened_alone(*final(self), old(self).view_mode, home, Some(restore_failed_error(e@)))
                    } else {
                        &&& *final(self) == (FileBrowser { error: final(self).error, ..*old(self) })
                        &&& final(self).error matches Some(t) && t@ == store_error_text(e@)
                    },
                }
            }),
    {
        let restoring = self.startup_location_policy == StartupLocationPolicy::PreviousSession;
        match loaded {
            Ok(session) => {
                if restoring {
                    let home = self.home_dir.copy();
                    let plan = self.startup_session_plan(&home, false, session);
                    self.apply_startup_session_plan(plan, &home, usable);
                }
            },
            Err(error) => {
                let mut text = String::from_str("Failed to initialize file operation queue storage: ");
                proof {
                    reveal_strlit("Failed to initialize file operation queue storage: ");
                }
                text.append(error.as_str());
                self.error = Some(text);
                if restoring {
                    let home = self.home_dir.copy();
                    self.fallback_startup_directory_after_session_store_error(&home, error);
                }
            },
        }
    }
}

} // verus!
