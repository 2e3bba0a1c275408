use vstd::prelude::*;

use crate::pr::PrPickerMode;
use crate::search::GlobalSearchResult;

verus! {

/// Which menus, dialogs and pickers are open, with each picker's query and
/// selected row.
#[derive(Debug)]
pub struct Overlays {
    pub is_settings_open: bool,
    pub is_context_menu_open: bool,
    pub is_about_open: bool,
    pub is_tab_context_menu_open: bool,
    pub tab_context_menu_tab_id: usize,
    pub is_pane_context_menu_open: bool,
    pub pane_context_menu_pane_id: usize,
    pub is_command_palette_open: bool,
    pub command_palette_query: String,
    pub command_palette_selected: usize,
    pub is_ssh_manager_open: bool,
    pub ssh_manager_query: String,
    pub ssh_manager_selected: usize,
    pub is_snippet_picker_open: bool,
    pub snippet_query: String,
    pub snippet_selected: usize,
    pub is_pr_picker_open: bool,
    pub pr_picker_query: String,
    pub pr_picker_selected: usize,
    pub pr_picker_mode: PrPickerMode,
    /// The directory the pull-request picker was opened for.
    pub pr_picker_cwd: Option<String>,
    pub is_search_open: bool,
    pub search_query: String,
    pub search_match_idx: usize,
    pub search_matches: Vec<usize>,
    pub is_worktree_picker_open: bool,
    pub worktree_picker_query: String,
    pub worktree_picker_selected: usize,
    pub is_project_jumper_open: bool,
    pub project_jumper_query: String,
    pub project_jumper_selected: usize,
    pub is_tab_overview_open: bool,
    pub tab_overview_selected: usize,
    pub is_global_search_open: bool,
    pub global_search_query: String,
    pub global_search_selected: usize,
    /// The hits of the last multi-tab search.
    pub global_search_results: Vec<GlobalSearchResult>,
    pub is_git_menu_open: bool,
    pub is_update_modal_open: bool,
}

impl Overlays {
    /// Everything closed, every query empty.
    pub fn new() -> (r: Self)
        ensures
            !r.is_settings_open,
            !r.is_context_menu_open,
            !r.is_about_open,
            !r.is_tab_context_menu_open,
            !r.is_pane_context_menu_open,
            !r.is_command_palette_open,
            !r.is_ssh_manager_open,
            !r.is_snippet_picker_open,
            !r.is_pr_picker_open,
            !r.is_search_open,
            !r.is_worktree_picker_open,
            !r.is_project_jumper_open,
            !r.is_tab_overview_open,
            !r.is_global_search_open,
            !r.is_git_menu_open,
            !r.is_update_modal_open,
            r.command_palette_query@.len() == 0,
            r.command_palette_selected == 0,
    {
        Overlays {
            is_settings_open: false,
            is_context_menu_open: false,
            is_about_open: false,
            is_tab_context_menu_open: false,
            tab_context_menu_tab_id: 0,
            is_pane_context_menu_open: false,
            pane_context_menu_pane_id: 0,
            is_command_palette_open: false,
            command_palette_query: String::new(),
            command_palette_selected: 0,
            is_ssh_manager_open: false,
            ssh_manager_query: String::new(),
            ssh_manager_selected: 0,
            is_snippet_picker_open: false,
            snippet_query: String::new(),
            snippet_selected: 0,
            is_pr_picker_open: false,
            pr_picker_query: String::new(),
            pr_picker_selected: 0,
            pr_picker_mode: PrPickerMode::Browse,
            pr_picker_cwd: None,
            is_search_open: false,
            search_query: String::new(),
            search_match_idx: 0,
            search_matches: Vec::new(),
            is_worktree_picker_open: false,
            worktree_picker_query: String::new(),
            worktree_picker_selected: 0,
            is_project_jumper_open: false,
            project_jumper_query: String::new(),
            project_jumper_selected: 0,
            is_tab_overview_open: false,
            tab_overview_selected: 0,
            is_global_search_open: false,
            global_search_query: String::new(),
            global_search_selected: 0,
            global_search_results: Vec::new(),
            is_git_menu_open: false,
            is_update_modal_open: false,
        }
    }

    /// Toggles the app menu; opening it closes the other menus and dialogs.
    pub fn toggle_context_menu(&mut self)
        ensures
            if old(self).is_context_menu_open {
                *final(self) == (Overlays { is_context_menu_open: false, ..*old(self) })
            } else {
                &&& *final(self) == (Overlays { is_context_menu_open: true, is_settings_open: false, is_about_open: false, is_tab_context_menu_open: false, is_pane_context_menu_open: false, is_command_palette_open: false, is_ssh_manager_open: false, is_search_open: false, ..*old(self) })
            },
    {
        self.is_context_menu_open = !self.is_context_menu_open;
        if self.is_context_menu_open {
            self.is_settings_open = false;
            self.is_about_open = false;
            self.is_tab_context_menu_open = false;
            self.is_pane_context_menu_open = false;
            self.is_command_palette_open = false;
            self.is_ssh_manager_open = false;
            self.is_search_open = false;
        }
    }

    /// Toggles the About dialog; opening it closes the menus and pickers.
    pub fn toggle_about(&mut self)
        ensures
            if old(self).is_about_open {
                *final(self) == (Overlays { is_about_open: false, ..*old(self) })
            } else {
                &&& *final(self) == (Overlays { is_about_open: true, is_context_menu_open: false, is_settings_open: false, is_command_palette_open: false, is_ssh_manager_open: false, is_snippet_picker_open: false, is_pr_picker_open: false, is_search_open: false, ..*old(self) })
            },
    {
        self.is_about_open = !self.is_about_open;
        if self.is_about_open {
            self.is_context_menu_open = false;
            self.is_settings_open = false;
            self.is_command_palette_open = false;
            self.is_ssh_manager_open = false;
            self.is_snippet_picker_open = false;
            self.is_pr_picker_open = false;
            self.is_search_open = false;
        }
    }

    /// Toggles the command palette; opening starts from an empty query on the first row.
    pub fn toggle_command_palette(&mut self)
        ensures
            if old(self).is_command_palette_open {
                *final(self) == (Overlays { is_command_palette_open: false, ..*old(self) })
            } else {
                &&& *final(self) == (Overlays { is_command_palette_open: true, is_settings_open: false, is_context_menu_open: false, is_about_open: false, is_ssh_manager_open: false, is_snippet_picker_open: false, is_pr_picker_open: false, is_search_open: false, command_palette_query: final(self).command_palette_query, command_palette_selected: 0, ..*old(self) })
                &&& final(self).command_palette_query@.len() == 0
            },
    {
        self.is_command_palette_open = !self.is_command_palette_open;
        if self.is_command_palette_open {
            self.command_palette_query = String::new();
            self.command_palette_selected = 0;
            self.is_settings_open = false;
            self.is_context_menu_open = false;
            self.is_about_open = false;
            self.is_ssh_manager_open = false;
            self.is_snippet_picker_open = false;
            self.is_pr_picker_open = false;
            self.is_search_open = false;
        }
    }

    /// Toggles the SSH manager; opening starts from an empty query on the first row.
    pub fn toggle_ssh_manager(&mut self)
        ensures
            if old(self).is_ssh_manager_open {
                *final(self) == (Overlays { is_ssh_manager_open: false, ..*old(self) })
            } else {
                &&& *final(self) == (Overlays { is_ssh_manager_open: true, is_settings_open: false, is_context_menu_open: false, is_about_open: false, is_command_palette_open: false, is_snippet_picker_open: false, is_pr_picker_open: false, is_search_open: false, ssh_manager_query: final(self).ssh_manager_query, ssh_manager_selected: 0, ..*old(self) })
                &&& final(self).ssh_manager_query@.len() == 0
            },
    {
        self.is_ssh_manager_open = !self.is_ssh_manager_open;
        if self.is_ssh_manager_open {
            self.ssh_manager_query = String::new();
            self.ssh_manager_selected = 0;
            self.is_settings_open = false;
            self.is_context_menu_open = false;
            self.is_about_open = false;
            self.is_command_palette_open = false;
            self.is_snippet_picker_open = false;
            self.is_pr_picker_open = false;
            self.is_search_open = false;
        }
    }

    /// Toggles the snippet picker; opening starts from an empty query on the first row.
    pub fn toggle_snippet_picker(&mut self)
        ensures
            if old(self).is_snippet_picker_open {
                *final(self) == (Overlays { is_snippet_picker_open: false, ..*old(self) })
            } else {
                &&& *final(self) == (Overlays { is_snippet_picker_open: true, is_settings_open: false, is_context_menu_open: false, is_about_open: false, is_command_palette_open: false, is_ssh_manager_open: false, is_pr_picker_open: false, is_search_open: false, is_worktree_picker_open: false, is_project_jumper_open: false, snippet_query: final(self).snippet_query, snippet_selected: 0, ..*old(self) })
                &&& final(self).snippet_query@.len() == 0
            },
    {
        self.is_snippet_picker_open = !self.is_snippet_picker_open;
        if self.is_snippet_picker_open {
            self.snippet_query = String::new();
            self.snippet_selected = 0;
            self.is_settings_open = false;
            self.is_context_menu_open = false;
            self.is_about_open = false;
            self.is_command_palette_open = false;
            self.is_ssh_manager_open = false;
            self.is_pr_picker_open = false;
            self.is_search_open = false;
            self.is_worktree_picker_open = false;
            self.is_project_jumper_open = false;
        }
    }

    /// Toggles the PR picker; opening starts browsing from an empty query on
    /// the first row, for the pull requests of directory `cwd`.
    pub fn toggle_pr_picker(&mut self, cwd: Option<String>)
        ensures
            if old(self).is_pr_picker_open {
                *final(self) == (Overlays { is_pr_picker_open: false, ..*old(self) })
            } else {
                &&& *final(self) == (Overlays { is_pr_picker_open: true, is_settings_open: false, is_context_menu_open: false, is_about_open: false, is_command_palette_open: false, is_ssh_manager_open: false, is_snippet_picker_open: false, is_search_open: false, is_worktree_picker_open: false, is_project_jumper_open: false, pr_picker_query: final(self).pr_picker_query, pr_picker_selected: 0, pr_picker_mode: PrPickerMode::Browse, pr_picker_cwd: cwd, ..*old(self) })
                &&& final(self).pr_picker_query@.len() == 0
            },
    {
        self.is_pr_picker_open = !self.is_pr_picker_open;
        if self.is_pr_picker_open {
            self.pr_picker_query = String::new();
            self.pr_picker_selected = 0;
            self.pr_picker_mode = PrPickerMode::Browse;
            self.pr_picker_cwd = cwd;
            self.is_settings_open = false;
            self.is_context_menu_open = false;
            self.is_about_open = false;
            self.is_command_palette_open = false;
            self.is_ssh_manager_open = false;
            self.is_snippet_picker_open = false;
            self.is_search_open = false;
            self.is_worktree_picker_open = false;
            self.is_project_jumper_open = false;
        }
    }

    /// Toggles buffer search; opening starts with no query and no matches.
    pub fn toggle_search(&mut self)
        ensures
            if old(self).is_search_open {
                *final(self) == (Overlays { is_search_open: false, ..*old(self) })
            } else {
                &&& *final(self) == (Overlays { is_search_open: true, is_settings_open: false, is_context_menu_open: false, is_about_open: false, is_command_palette_open: false, is_ssh_manager_open: false, is_snippet_picker_open: false, is_pr_picker_open: false, is_worktree_picker_open: false, is_project_jumper_open: false, search_query: final(self).search_query, search_match_idx: 0, search_matches: final(self).search_matches, ..*old(self) })
                &&& final(self).search_query@.len() == 0
                &&& final(self).search_matches@.len() == 0
            },
    {
        self.is_search_open = !self.is_search_open;
        if self.is_search_open {
            self.search_query = String::new();
            self.search_match_idx = 0;
            self.search_matches = Vec::new();
            self.is_settings_open = false;
            self.is_context_menu_open = false;
            self.is_about_open = false;
            self.is_command_palette_open = false;
            self.is_ssh_manager_open = false;
            self.is_snippet_picker_open = false;
            self.is_pr_picker_open = false;
            self.is_worktree_picker_open = false;
            self.is_project_jumper_open = false;
        }
    }

    /// Toggles the worktree picker; opening starts from an empty query on the first row.
    pub fn toggle_worktree_picker(&mut self)
        ensures
            if old(self).is_worktree_picker_open {
                *final(self) == (Overlays { is_worktree_picker_open: false, ..*old(self) })
            } else {
                &&& *final(self) == (Overlays { is_worktree_picker_open: true, is_settings_open: false, is_context_menu_open: false, is_about_open: false, is_command_palette_open: false, is_ssh_manager_open: false, is_snippet_picker_open: false, is_pr_picker_open: false, is_search_open: false, is_project_jumper_open: false, worktree_picker_query: final(self).worktree_picker_query, worktree_picker_selected: 0, ..*old(self) })
                &&& final(self).worktree_picker_query@.len() == 0
            },
    {
        self.is_worktree_picker_open = !self.is_worktree_picker_open;
        if self.is_worktree_picker_open {
            self.worktree_picker_query = String::new();
            self.worktree_picker_selected = 0;
            self.is_settings_open = false;
            self.is_context_menu_open = false;
            self.is_about_open = false;
            self.is_command_palette_open = false;
            self.is_ssh_manager_open = false;
            self.is_snippet_picker_open = false;
            self.is_pr_picker_open = false;
            self.is_search_open = false;
            self.is_project_jumper_open = false;
        }
    }

    /// Toggles the project jumper; opening starts from an empty query on the first row.
    pub fn toggle_project_jumper(&mut self)
        ensures
            if old(self).is_project_jumper_open {
                *final(self) == (Overlays { is_project_jumper_open: false, ..*old(self) })
            } else {
                &&& *final(self) == (Overlays { is_project_jumper_open: true, is_settings_open: false, is_context_menu_open: false, is_about_open: false, is_command_palette_open: false, is_ssh_manager_open: false, is_snippet_picker_open: false, is_pr_picker_open: false, is_search_open: false, is_worktree_picker_open: false, is_tab_overview_open: false, is_global_search_open: false, project_jumper_query: final(self).project_jumper_query, project_jumper_selected: 0, ..*old(self) })
                &&& final(self).project_jumper_query@.len() == 0
            },
    {
        self.is_project_jumper_open = !self.is_project_jumper_open;
        if self.is_project_jumper_open {
            self.project_jumper_query = String::new();
            self.project_jumper_selected = 0;
            self.is_settings_open = false;
            self.is_context_menu_open = false;
            self.is_about_open = false;
            self.is_command_palette_open = false;
            self.is_ssh_manager_open = false;
            self.is_snippet_picker_open = false;
            self.is_pr_picker_open = false;
            self.is_search_open = false;
            self.is_worktree_picker_open = false;
            self.is_tab_overview_open = false;
            self.is_global_search_open = false;
        }
    }

    /// Toggles search across all tabs; opening starts from an empty query, no results, on the first row.
    pub fn toggle_global_search(&mut self)
        ensures
            if old(self).is_global_search_open {
                *final(self) == (Overlays { is_global_search_open: false, ..*old(self) })
            } else {
                &&& *final(self) == (Overlays { is_global_search_open: true, is_tab_overview_open: false, is_command_palette_open: false, is_ssh_manager_open: false, is_snippet_picker_open: false, is_pr_picker_open: false, is_search_open: false, is_worktree_picker_open: false, is_project_jumper_open: false, is_settings_open: false, is_about_open: false, global_search_query: final(self).global_search_query, global_search_selected: 0, global_search_results: final(self).global_search_results, ..*old(self) })
                &&& final(self).global_search_query@.len() == 0
                &&& final(self).global_search_results@.len() == 0
            },
    {
        self.is_global_search_open = !self.is_global_search_open;
        if self.is_global_search_open {
            self.global_search_query = String::new();
            self.global_search_results = Vec::new();
            self.global_search_selected = 0;
            self.is_tab_overview_open = false;
            self.is_command_palette_open = false;
            self.is_ssh_manager_open = false;
            self.is_snippet_picker_open = false;
            self.is_pr_picker_open = false;
            self.is_search_open = false;
            self.is_worktree_picker_open = false;
            self.is_project_jumper_open = false;
            self.is_settings_open = false;
            self.is_about_open = false;
        }
    }

    /// Toggles the tab overview; opening selects the active tab's card.
    pub fn toggle_tab_overview(&mut self, active_tab_idx: usize)
        ensures
            if old(self).is_tab_overview_open {
                *final(self) == (Overlays { is_tab_overview_open: false, ..*old(self) })
            } else {
                *final(self) == (Overlays {
                    is_tab_overview_open: true,
                    tab_overview_selected: active_tab_idx,
                    is_global_search_open: false,
                    is_command_palette_open: false,
                    is_ssh_manager_open: false,
                    is_snippet_picker_open: false,
                    is_pr_picker_open: false,
                    is_search_open: false,
                    is_worktree_picker_open: false,
                    is_project_jumper_open: false,
                    is_settings_open: false,
                    is_about_open: false,
                    ..*old(self)
                })
            },
    {
        self.is_tab_overview_open = !self.is_tab_overview_open;
        if self.is_tab_overview_open {
            self.tab_overview_selected = active_tab_idx;
            self.is_global_search_open = false;
            self.is_command_palette_open = false;
            self.is_ssh_manager_open = false;
            self.is_snippet_picker_open = false;
            self.is_pr_picker_open = false;
            self.is_search_open = false;
            self.is_worktree_picker_open = false;
            self.is_project_jumper_open = false;
            self.is_settings_open = false;
            self.is_about_open = false;
        }
    }

    /// Opens the context menu of a tab, closing the other menus and dialogs.
    pub fn open_tab_context_menu(&mut self, tab_id: usize)
        ensures
            *final(self) == (Overlays {
                is_tab_context_menu_open: true,
                tab_context_menu_tab_id: tab_id,
                is_settings_open: false,
                is_context_menu_open: false,
                is_pane_context_menu_open: false,
                is_about_open: false,
                is_command_palette_open: false,
                is_ssh_manager_open: false,
                is_search_open: false,
                is_git_menu_open: false,
                ..*old(self)
            }),
    {
        self.is_tab_context_menu_open = true;
        self.tab_context_menu_tab_id = tab_id;
        self.is_settings_open = false;
        self.is_context_menu_open = false;
        self.is_pane_context_menu_open = false;
        self.is_about_open = false;
        self.is_command_palette_open = false;
        self.is_ssh_manager_open = false;
        self.is_search_open = false;
        self.is_git_menu_open = false;
    }

    /// Opens the context menu of a pane, closing the other menus and dialogs.
    pub fn open_pane_context_menu(&mut self, pane_id: usize)
        ensures
            *final(self) == (Overlays {
                is_pane_context_menu_open: true,
                pane_context_menu_pane_id: pane_id,
                is_settings_open: false,
                is_context_menu_open: false,
                is_tab_context_menu_open: false,
                is_about_open: false,
                is_command_palette_open: false,
                is_ssh_manager_open: false,
                is_search_open: false,
                is_git_menu_open: false,
                ..*old(self)
            }),
    {
        self.is_pane_context_menu_open = true;
        self.pane_context_menu_pane_id = pane_id;
        self.is_settings_open = false;
        self.is_context_menu_open = false;
        self.is_tab_context_menu_open = false;
        self.is_about_open = false;
        self.is_command_palette_open = false;
        self.is_ssh_manager_open = false;
        self.is_search_open = false;
        self.is_git_menu_open = false;
    }

    /// Before the settings window shows: the in-window menus and dialogs close.
    pub fn close_for_settings_window(&mut self)
        ensures
            *final(self) == (Overlays {
                is_settings_open: false,
                is_context_menu_open: false,
                is_about_open: false,
                is_command_palette_open: false,
                is_ssh_manager_open: false,
                is_search_open: false,
                ..*old(self)
            }),
    {
        self.is_settings_open = false;
        self.is_context_menu_open = false;
        self.is_about_open = false;
        self.is_command_palette_open = false;
        self.is_ssh_manager_open = false;
        self.is_search_open = false;
    }

    /// Esc over the menus and dialogs: the settings panel, About, the app
    /// menu, the git menu, the tab and pane menus and the update dialog
    /// close.
    pub fn dismiss_overlays(&mut self)
        ensures
            *final(self) == (Overlays {
                is_settings_open: false,
                is_about_open: false,
                is_context_menu_open: false,
                is_git_menu_open: false,
                is_tab_context_menu_open: false,
                is_pane_context_menu_open: false,
                is_update_modal_open: false,
                ..*old(self)
            }),
    {
        self.is_settings_open = false;
        self.is_about_open = false;
        self.is_context_menu_open = false;
        self.is_git_menu_open = false;
        self.is_tab_context_menu_open = false;
        self.is_pane_context_menu_open = false;
        self.is_update_modal_open = false;
    }
}

} // verus!
