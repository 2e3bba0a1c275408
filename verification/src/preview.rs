use vstd::prelude::*;

use crate::keys::{list_key_view, ListKey};
use crate::overlays::Overlays;
use crate::palette::{
    palette_action, palette_preview_kind, spec_filtered_palette_commands, spec_palette_action,
    spec_palette_commands, spec_palette_preview_kind, spec_record_recent, strings_view,
    PaletteAction, PalettePreviewKind, PreviewKindView, TabLayout,
};
use crate::pickers::{spec_list_step, PickerStep};
use crate::text::str_eq;
use crate::view::{PalettePreviewState, RootView};

verus! {

/// The settings a palette preview may change: theme name, font size, tab
/// layout, whether the tabs sidebar is open.
pub struct Look<F> {
    pub theme: Seq<char>,
    pub font: F,
    pub layout: TabLayout,
    pub sidebar: bool,
}

/// The look shown, and the look before a running preview (if any).
pub struct LookState<F> {
    pub current: Look<F>,
    pub original: Option<Look<F>>,
}

impl<F> PalettePreviewState<F> {
    pub open spec fn look(&self) -> Look<F> {
        Look {
            theme: self.theme_name@,
            font: self.font_size,
            layout: self.tab_layout,
            sidebar: self.sidebar_open,
        }
    }
}

impl<F> RootView<F> {
    pub open spec fn look_state(&self) -> LookState<F> {
        LookState {
            current: Look {
                theme: self.current_theme_name@,
                font: self.font_size,
                layout: self.tab_layout,
                sidebar: self.sidebar_open,
            },
            original: match self.palette_preview_original {
                Some(o) => Some(o.look()),
                None => None,
            },
        }
    }
}

/// The snapshot after a preview step: the first step takes it, later ones
/// keep it.
pub open spec fn kept_snapshot<F>(s: LookState<F>) -> Option<Look<F>> {
    if s.original is Some {
        s.original
    } else {
        Some(s.current)
    }
}

/// Previewing a theme other than the shown one shows it.
pub open spec fn spec_preview_theme<F>(s: LookState<F>, theme: Seq<char>) -> LookState<F> {
    if s.current.theme == theme {
        s
    } else {
        LookState { current: Look { theme, ..s.current }, original: kept_snapshot(s) }
    }
}

/// Previewing a font size shows it when it `differs` from the shown one.
pub open spec fn spec_preview_font<F>(s: LookState<F>, size: F, differs: bool) -> LookState<F> {
    if !differs {
        s
    } else {
        LookState { current: Look { font: size, ..s.current }, original: kept_snapshot(s) }
    }
}

/// Previewing another tab layout shows it; the vertical one opens the
/// sidebar.
pub open spec fn spec_preview_layout<F>(s: LookState<F>, layout: TabLayout) -> LookState<F> {
    if s.current.layout == layout {
        s
    } else {
        LookState {
            current: Look {
                layout,
                sidebar: if layout == TabLayout::Vertical {
                    true
                } else {
                    s.current.sidebar
                },
                ..s.current
            },
            original: kept_snapshot(s),
        }
    }
}

/// Cancelling a preview shows the snapshot's theme, layout and sidebar
/// again, and its font size when the shown one differs from it; the
/// snapshot is dropped. Without a preview nothing changes.
pub open spec fn spec_cancel_preview<F>(s: LookState<F>, font_differs: bool) -> LookState<F> {
    match s.original {
        None => s,
        Some(o) => LookState {
            current: Look {
                theme: o.theme,
                font: if font_differs {
                    o.font
                } else {
                    s.current.font
                },
                layout: o.layout,
                sidebar: o.sidebar,
            },
            original: None,
        },
    }
}

/// The look after previewing palette row `id`: a theme or tab layout row
/// shows it; other rows leave the look.
pub open spec fn spec_preview_row<F>(s: LookState<F>, id: Seq<char>) -> LookState<F> {
    match spec_palette_preview_kind(id) {
        Some(PreviewKindView::Theme(t)) => spec_preview_theme(s, t),
        Some(PreviewKindView::Layout(l)) => spec_preview_layout(s, l),
        _ => s,
    }
}

/// What cancelling a preview changes: the theme, the layout or sidebar,
/// anything (the font when it `font_differs`).
pub open spec fn spec_revert<F>(s: LookState<F>, font_differs: bool) -> PreviewRevert {
    match s.original {
        None => PreviewRevert { changed: false, theme_changed: false, relayout: false },
        Some(o) => {
            let theme_changed = o.theme != s.current.theme;
            let relayout = o.layout != s.current.layout || o.sidebar != s.current.sidebar;
            PreviewRevert {
                changed: theme_changed || relayout || font_differs,
                theme_changed,
                relayout,
            }
        },
    }
}

/// A palette preview step.
pub enum PreviewOp<F> {
    Theme(Seq<char>),
    /// A font size, and whether it differs from the one shown.
    Font(F, bool),
    Layout(TabLayout),
}

pub open spec fn spec_apply_preview<F>(s: LookState<F>, op: PreviewOp<F>) -> LookState<F> {
    match op {
        PreviewOp::Theme(t) => spec_preview_theme(s, t),
        PreviewOp::Font(f, d) => spec_preview_font(s, f, d),
        PreviewOp::Layout(l) => spec_preview_layout(s, l),
    }
}

/// Preview steps applied in order.
pub open spec fn spec_apply_previews<F>(s: LookState<F>, ops: Seq<PreviewOp<F>>) -> LookState<F>
    decreases ops.len(),
{
    if ops.len() == 0 {
        s
    } else {
        spec_apply_preview(spec_apply_previews(s, ops.drop_last()), ops.last())
    }
}

proof fn lemma_previews_keep_first_look<F>(s: LookState<F>, ops: Seq<PreviewOp<F>>)
    requires
        s.original is None,
    ensures
        spec_apply_previews(s, ops).original is None ==> spec_apply_previews(s, ops) == s,
        spec_apply_previews(s, ops).original == Some(s.current) || spec_apply_previews(
            s,
            ops,
        ).original is None,
    decreases ops.len(),
{
    if ops.len() > 0 {
        lemma_previews_keep_first_look(s, ops.drop_last());
    }
}

/// Any run of palette previews from a look without a preview, then a
/// cancel, shows the first look's theme, tab layout and sidebar again, and
/// its font size too when the shown one differs from it; no preview is
/// left running.
pub proof fn lemma_cancel_restores_look<F>(
    s: LookState<F>,
    ops: Seq<PreviewOp<F>>,
    font_differs: bool,
)
    requires
        s.original is None,
    ensures
        ({
            let p = spec_apply_previews(s, ops);
            let t = spec_cancel_preview(p, font_differs);
            &&& t.original is None
            &&& t.current.theme == s.current.theme
            &&& t.current.layout == s.current.layout
            &&& t.current.sidebar == s.current.sidebar
            &&& (font_differs || p.original is None) ==> t.current == s.current
        }),
{
    lemma_previews_keep_first_look(s, ops);
}

/// The font size palette font steps start from: the snapshot's, else the
/// shown one.
pub open spec fn font_base<F>(s: LookState<F>) -> F {
    match s.original {
        Some(o) => o.font,
        None => s.current.font,
    }
}

/// Font steps start from the look before the preview, whatever was
/// previewed since: hovering a font row again shows the same size.
pub proof fn lemma_font_base_stays<F>(s: LookState<F>, ops: Seq<PreviewOp<F>>)
    requires
        s.original is None,
    ensures
        font_base(spec_apply_previews(s, ops)) == s.current.font,
{
    lemma_previews_keep_first_look(s, ops);
}

/// What cancelling a preview changed: the theme, the layout or sidebar
/// (animate), anything at all (redraw).
#[derive(Clone, Copy, Debug, PartialEq, Eq, Structural)]
pub struct PreviewRevert {
    pub changed: bool,
    pub theme_changed: bool,
    pub relayout: bool,
}

/// What previewing a palette row did, or asks of the UI for font sizes
/// (computed there) and for cancelling.
#[derive(Clone, Copy, Debug, PartialEq, Eq, Structural)]
pub enum PreviewStep {
    /// A theme row: whether the shown theme changed.
    Theme(bool),
    /// A layout row: whether the shown layout changed.
    Layout(bool),
    /// A font row: show the base size plus this many points.
    FontDelta(i32),
    /// The font reset row: show the default size.
    FontReset,
    /// A row without preview: cancel the running one.
    Cancel,
}

impl<F: Copy> RootView<F> {
    /// The fields a preview step leaves alone.
    pub open spec fn same_but_look(&self, old: &RootView<F>) -> bool {
        &&& self.is_mac == old.is_mac
        &&& self.workspace == old.workspace
        &&& self.overlays == old.overlays
        &&& self.palette_recent == old.palette_recent
        &&& self.ai == old.ai
        &&& self.ime_marked_text == old.ime_marked_text
        &&& self.typed_prompt_buf == old.typed_prompt_buf
        &&& self.update == old.update
        &&& self.config_error == old.config_error
        &&& self.show_onboarding_hint == old.show_onboarding_hint
        &&& self.hovered_url == old.hovered_url
        &&& self.hovered_url_range == old.hovered_url_range
    }

    fn ensure_palette_preview(&mut self)
        ensures
            final(self).look_state() == (LookState {
                current: old(self).look_state().current,
                original: kept_snapshot(old(self).look_state()),
            }),
            final(self).same_but_look(&*old(self)),
    {
        if self.palette_preview_original.is_none() {
            self.palette_preview_original = Some(
                PalettePreviewState {
                    theme_name: self.current_theme_name.clone(),
                    font_size: self.font_size,
                    tab_layout: self.tab_layout,
                    sidebar_open: self.sidebar_open,
                },
            );
        }
    }

    /// Shows a theme without saving it. Returns whether it changed (the
    /// colors are then rebuilt).
    pub fn preview_theme_transient(&mut self, theme_name: &str) -> (r: bool)
        ensures
            r == (old(self).current_theme_name@ != theme_name@),
            final(self).look_state() == spec_preview_theme(old(self).look_state(), theme_name@),
            final(self).same_but_look(&*old(self)),
    {
        if str_eq(self.current_theme_name.as_str(), theme_name) {
            return false;
        }
        self.ensure_palette_preview();
        self.current_theme_name = theme_name.to_owned();
        true
    }

    /// Shows a font size (already held to the allowed range) without saving
    /// it, when it `differs` from the shown one. Returns `differs`.
    pub fn preview_font_size_transient(&mut self, size: F, differs: bool) -> (r: bool)
        ensures
            r == differs,
            final(self).look_state() == spec_preview_font(old(self).look_state(), size, differs),
            final(self).same_but_look(&*old(self)),
    {
        if !differs {
            return false;
        }
        self.ensure_palette_preview();
        self.font_size = size;
        true
    }

    /// Shows a tab layout without saving it (the vertical one opens the
    /// sidebar). Returns whether it changed (the sidebar then animates).
    pub fn preview_layout_transient(&mut self, layout: TabLayout) -> (r: bool)
        ensures
            r == (old(self).tab_layout != layout),
            final(self).look_state() == spec_preview_layout(old(self).look_state(), layout),
            final(self).same_but_look(&*old(self)),
    {
        if self.tab_layout == layout {
            return false;
        }
        self.ensure_palette_preview();
        self.tab_layout = layout;
        if layout == TabLayout::Vertical {
            self.sidebar_open = true;
        }
        true
    }

    /// The font size that palette font steps start from: the one before the
    /// running preview, else the shown one (so repeated hovers do not add
    /// up).
    pub fn preview_font_base(&self) -> (r: F)
        ensures
            r == font_base(self.look_state()),
    {
        match &self.palette_preview_original {
            Some(o) => o.font_size,
            None => self.font_size,
        }
    }

    /// Reverts a running preview (see `spec_cancel_preview`); `font_differs`
    /// tells whether the shown font size differs from the snapshot's.
    pub fn cancel_palette_preview(&mut self, font_differs: bool) -> (r: PreviewRevert)
        ensures
            final(self).look_state() == spec_cancel_preview(old(self).look_state(), font_differs),
            final(self).same_but_look(&*old(self)),
            r.theme_changed == (old(self).palette_preview_original matches Some(o)
                && o.theme_name@ != old(self).current_theme_name@),
            r.relayout == (old(self).palette_preview_original matches Some(o) && (o.tab_layout
                != old(self).tab_layout || o.sidebar_open != old(self).sidebar_open)),
            r.changed == (r.theme_changed || r.relayout || (
            old(self).palette_preview_original is Some && font_differs)),
            r == spec_revert(old(self).look_state(), font_differs),
    {
        let original = self.palette_preview_original.take();
        match original {
            None => PreviewRevert { changed: false, theme_changed: false, relayout: false },
            Some(o) => {
                let theme_changed = !str_eq(self.current_theme_name.as_str(), o.theme_name.as_str());
                let relayout = o.tab_layout != self.tab_layout || o.sidebar_open != self.sidebar_open;
                self.current_theme_name = o.theme_name;
                if font_differs {
                    self.font_size = o.font_size;
                }
                self.tab_layout = o.tab_layout;
                self.sidebar_open = o.sidebar_open;
                PreviewRevert {
                    changed: theme_changed || relayout || font_differs,
                    theme_changed,
                    relayout,
                }
            },
        }
    }

    /// Previews the palette row `cmd_id` while navigating: a theme or tab
    /// layout is shown at once; font rows and rows without a preview are
    /// handed back (see `PreviewStep`).
    pub fn preview_palette_command(&mut self, cmd_id: &str) -> (r: PreviewStep)
        ensures
            final(self).same_but_look(&*old(self)),
            final(self).look_state() == spec_preview_row(old(self).look_state(), cmd_id@),
            match spec_palette_preview_kind(cmd_id@) {
                Some(PreviewKindView::Theme(t)) => r == PreviewStep::Theme(
                    old(self).current_theme_name@ != t,
                ) && final(self).look_state() == spec_preview_theme(old(self).look_state(), t),
                Some(PreviewKindView::Layout(l)) => r == PreviewStep::Layout(
                    old(self).tab_layout != l,
                ) && final(self).look_state() == spec_preview_layout(old(self).look_state(), l),
                Some(PreviewKindView::FontDelta(d)) => r == PreviewStep::FontDelta(d)
                    && final(self).look_state() == old(self).look_state(),
                Some(PreviewKindView::FontReset) => r == PreviewStep::FontReset
                    && final(self).look_state() == old(self).look_state(),
                None => r == PreviewStep::Cancel && final(self).look_state() == old(self).look_state(),
            },
    {
        match palette_preview_kind(cmd_id) {
            Some(PalettePreviewKind::Theme(name)) => PreviewStep::Theme(
                self.preview_theme_transient(name),
            ),
            Some(PalettePreviewKind::Layout(layout)) => PreviewStep::Layout(
                self.preview_layout_transient(layout),
            ),
            Some(PalettePreviewKind::FontDelta(d)) => PreviewStep::FontDelta(d),
            Some(PalettePreviewKind::FontReset) => PreviewStep::FontReset,
            None => PreviewStep::Cancel,
        }
    }

    /// Sets the theme (a committed choice: it is saved, and any running
    /// preview ends).
    pub fn set_theme(&mut self, theme_name: &str)
        ensures
            final(self).current_theme_name@ == theme_name@,
            final(self).palette_preview_original is None,
            final(self).font_size == old(self).font_size,
            final(self).tab_layout == old(self).tab_layout,
            final(self).sidebar_open == old(self).sidebar_open,
            final(self).same_but_look(&*old(self)),
    {
        self.palette_preview_original = None;
        self.current_theme_name = theme_name.to_owned();
    }

    /// Sets the font size (a committed choice: it is saved, and any running
    /// preview ends).
    pub fn commit_font_size(&mut self, size: F)
        ensures
            final(self).font_size == size,
            final(self).palette_preview_original is None,
            final(self).current_theme_name == old(self).current_theme_name,
            final(self).tab_layout == old(self).tab_layout,
            final(self).sidebar_open == old(self).sidebar_open,
            final(self).same_but_look(&*old(self)),
    {
        self.palette_preview_original = None;
        self.font_size = size;
    }

    /// Applies a configuration read from disk: it wins over a running
    /// palette preview; an unset theme is the default one; a changed tab
    /// layout is taken (the vertical one opens the sidebar); the reading
    /// error (if any) replaces the previous one. Returns whether the layout
    /// changed, in which case the sidebar animates.
    pub fn reload_config(
        &mut self,
        theme: Option<String>,
        font_size: F,
        tab_layout: TabLayout,
        config_error: Option<String>,
    ) -> (r: bool)
        ensures
            final(self).palette_preview_original is None,
            final(self).current_theme_name@ == (match theme {
                Some(t) => t@,
                None => "default"@,
            }),
            final(self).font_size == font_size,
            r == (old(self).tab_layout != tab_layout),
            final(self).tab_layout == tab_layout,
            final(self).sidebar_open == (if r && tab_layout == TabLayout::Vertical {
                true
            } else {
                old(self).sidebar_open
            }),
            final(self).config_error == config_error,
            final(self).is_mac == old(self).is_mac,
            final(self).workspace == old(self).workspace,
            final(self).overlays == old(self).overlays,
            final(self).palette_recent == old(self).palette_recent,
            final(self).ai == old(self).ai,
            final(self).ime_marked_text == old(self).ime_marked_text,
            final(self).typed_prompt_buf == old(self).typed_prompt_buf,
            final(self).update == old(self).update,
    {
        self.palette_preview_original = None;
        self.config_error = config_error;
        self.current_theme_name = match theme {
            Some(t) => t,
            None => "default".to_owned(),
        };
        proof {
            reveal_strlit("default");
        }
        self.font_size = font_size;
        if self.tab_layout == tab_layout {
            return false;
        }
        self.tab_layout = tab_layout;
        if tab_layout == TabLayout::Vertical {
            self.sidebar_open = true;
        }
        true
    }

    /// Opens or closes the command palette. A fresh open has no preview
    /// running yet; closing without executing a command reverts the running
    /// preview (`font_differs`: whether the shown font size differs from the
    /// snapshot's), and tells what that changed.
    pub fn toggle_command_palette(&mut self, font_differs: bool) -> (r: PreviewRevert)
        ensures
            final(self).overlays.is_command_palette_open == !old(self).overlays.is_command_palette_open,
            final(self).overlays.is_command_palette_open ==> final(self).overlays.command_palette_query@.len() == 0
                && final(self).overlays.command_palette_selected == 0
                && final(self).look_state() == (LookState { original: None, ..old(self).look_state() })
                && r == (PreviewRevert { changed: false, theme_changed: false, relayout: false }),
            !final(self).overlays.is_command_palette_open ==> final(self).look_state()
                == spec_cancel_preview(old(self).look_state(), font_differs)
                && r.theme_changed == (old(self).palette_preview_original matches Some(o)
                && o.theme_name@ != old(self).current_theme_name@)
                && r.relayout == (old(self).palette_preview_original matches Some(o) && (o.tab_layout
                != old(self).tab_layout || o.sidebar_open != old(self).sidebar_open))
                && r.changed == (r.theme_changed || r.relayout || (
                old(self).palette_preview_original is Some && font_differs)),
            if old(self).overlays.is_command_palette_open {
                final(self).overlays == (Overlays { is_command_palette_open: false, ..old(self).overlays })
            } else {
                final(self).overlays == (Overlays { is_command_palette_open: true, is_settings_open: false, is_context_menu_open: false, is_about_open: false, is_ssh_manager_open: false, is_snippet_picker_open: false, is_pr_picker_open: false, is_search_open: false, command_palette_query: final(self).overlays.command_palette_query, command_palette_selected: 0, ..old(self).overlays })
            },
            final(self).workspace == old(self).workspace,
            final(self).palette_recent == old(self).palette_recent,
            final(self).ai == old(self).ai,
    {
        self.overlays.toggle_command_palette();
        if self.overlays.is_command_palette_open {
            self.palette_preview_original = None;
            PreviewRevert { changed: false, theme_changed: false, relayout: false }
        } else {
            self.cancel_palette_preview(font_differs)
        }
    }

    /// A key in the command palette: Esc closes it and reverts the running
    /// preview; Enter asks to execute the selected row; moving the selection
    /// or editing the query previews the row then selected.
    pub fn command_palette_key(&mut self, key: &ListKey, font_differs: bool) -> (r: PaletteKeyStep)
        requires
            old(self).overlays.command_palette_selected < usize::MAX,
        ensures
            ({
                let rows = spec_filtered_palette_commands(
                    spec_palette_commands(old(self).is_mac),
                    old(self).overlays.command_palette_query@,
                    strings_view(old(self).palette_recent@),
                );
                let st = spec_list_step(
                    old(self).overlays.is_command_palette_open,
                    old(self).overlays.command_palette_query@,
                    old(self).overlays.command_palette_selected,
                    rows.len() as usize,
                    list_key_view(*key),
                );
                let after = spec_filtered_palette_commands(
                    spec_palette_commands(old(self).is_mac),
                    st.2,
                    strings_view(old(self).palette_recent@),
                );
                &&& final(self).overlays.is_command_palette_open == st.1
                &&& final(self).overlays.command_palette_query@ == st.2
                &&& final(self).overlays.command_palette_selected == st.3
                &&& final(self).overlays == (Overlays {
                    is_command_palette_open: final(self).overlays.is_command_palette_open,
                    command_palette_query: final(self).overlays.command_palette_query,
                    command_palette_selected: final(self).overlays.command_palette_selected,
                    ..old(self).overlays
                })
                &&& match st.0 {
                    PickerStep::Closed => r is Closed && final(self).look_state()
                        == spec_cancel_preview(old(self).look_state(), font_differs),
                    PickerStep::Accept => final(self).look_state() == old(self).look_state() && if st.3
                        < rows.len() {
                        r matches PaletteKeyStep::Execute(id) && id@ == rows[st.3 as int].id@
                    } else {
                        r is Unchanged
                    },
                    PickerStep::Moved | PickerStep::Edited => if st.3 < after.len() {
                        r is Previewed && final(self).look_state() == spec_preview_row(
                            old(self).look_state(),
                            after[st.3 as int].id@,
                        )
                    } else {
                        r is Unchanged && final(self).look_state() == old(self).look_state()
                    },
                    _ => r is Unchanged && final(self).look_state() == old(self).look_state(),
                }
            }),
            final(self).workspace == old(self).workspace,
            final(self).palette_recent == old(self).palette_recent,
            final(self).ai == old(self).ai,
    {
        let rows = self.filtered_palette_commands();
        let step = self.overlays.command_palette_key(rows.len(), key);
        match step {
            PickerStep::Closed => PaletteKeyStep::Closed(self.cancel_palette_preview(font_differs)),
            PickerStep::Accept => {
                let sel = self.overlays.command_palette_selected;
                if sel < rows.len() {
                    PaletteKeyStep::Execute(rows[sel].id.to_owned())
                } else {
                    PaletteKeyStep::Unchanged
                }
            },
            PickerStep::Moved | PickerStep::Edited => {
                let after = self.filtered_palette_commands();
                let sel = self.overlays.command_palette_selected;
                if sel < after.len() {
                    PaletteKeyStep::Previewed(self.preview_palette_command(after[sel].id))
                } else {
                    PaletteKeyStep::Unchanged
                }
            },
            _ => PaletteKeyStep::Unchanged,
        }
    }

    fn close_palette_recording(&mut self, cmd_id: &str)
        ensures
            final(self).overlays == (Overlays {
                is_command_palette_open: false,
                ..old(self).overlays
            }),
            strings_view(final(self).palette_recent@) == spec_record_recent(
                strings_view(old(self).palette_recent@),
                cmd_id@,
            ),
            final(self).look_state() == old(self).look_state(),
            final(self).workspace == old(self).workspace,
            final(self).ai == old(self).ai,
    {
        self.overlays.is_command_palette_open = false;
        self.record_palette_recent(cmd_id);
    }

    /// Commits a palette action: the running preview is reverted first
    /// (keeping the shown font size for a font command), then a theme or
    /// tab layout is set, or the shown font size committed (see
    /// `spec_commit_look`). Returns what reverting changed, and whether a
    /// font preview was committed.
    fn commit_palette_look(&mut self, action: &Option<PaletteAction>, font_differs: bool) -> (r: (
        PreviewRevert,
        bool,
    ))
        ensures
            final(self).look_state() == spec_commit_look(
                old(self).look_state(),
                *action,
                font_differs,
            ),
            r.0 == spec_revert(
                old(self).look_state(),
                if is_font_action(*action) {
                    false
                } else {
                    font_differs
                },
            ),
            r.1 == (is_font_action(*action) && old(self).palette_preview_original is Some),
            final(self).same_but_look(&*old(self)),
    {
        match action {
            Some(PaletteAction::Theme(name)) => {
                let rv = self.cancel_palette_preview(font_differs);
                self.set_theme(name);
                (rv, false)
            },
            Some(PaletteAction::Layout(l)) => {
                let rv = self.cancel_palette_preview(font_differs);
                self.set_tab_layout_mode(*l);
                (rv, false)
            },
            Some(PaletteAction::ZoomIn) | Some(PaletteAction::ZoomOut) | Some(
                PaletteAction::ZoomReset,
            ) => {
                let committed = self.palette_preview_original.is_some();
                let rv = self.cancel_palette_preview(false);
                let size = self.font_size;
                self.commit_font_size(size);
                (rv, committed)
            },
            _ => (self.cancel_palette_preview(font_differs), false),
        }
    }

    /// Executes palette command `cmd_id`: the palette closes and the command
    /// is recorded as recent. Enter commits, so no preview stays applied:
    /// what the running preview changed is reverted, except what the command
    /// itself sets. A theme or tab layout is set for good; a font command
    /// keeps the size shown, committed as is when a font preview ran
    /// (`font_committed`; without one the UI applies the step or the default
    /// size). `font_differs`: whether the shown font size differs from the
    /// snapshot's.
    pub fn execute_palette_command(&mut self, cmd_id: &str, font_differs: bool) -> (r:
        PaletteExecution)
        ensures
            final(self).overlays == (Overlays {
                is_command_palette_open: false,
                ..old(self).overlays
            }),
            strings_view(final(self).palette_recent@) == spec_record_recent(
                strings_view(old(self).palette_recent@),
                cmd_id@,
            ),
            r.action == spec_palette_action(cmd_id@),
            final(self).workspace == old(self).workspace,
            final(self).ai == old(self).ai,
            final(self).look_state() == spec_commit_look(old(self).look_state(), r.action, font_differs),
            final(self).palette_preview_original is None,
            r.revert == spec_revert(
                old(self).look_state(),
                if is_font_action(r.action) {
                    false
                } else {
                    font_differs
                },
            ),
            r.font_committed == (is_font_action(r.action) && old(self).palette_preview_original is Some),
    {
        self.close_palette_recording(cmd_id);
        let action = palette_action(cmd_id);
        let (revert, font_committed) = self.commit_palette_look(&action, font_differs);
        PaletteExecution { action, revert, font_committed }
    }
}

/// A palette font command (step or reset).
pub open spec fn is_font_action(a: Option<PaletteAction>) -> bool {
    a == Some(PaletteAction::ZoomIn) || a == Some(PaletteAction::ZoomOut) || a == Some(
        PaletteAction::ZoomReset,
    )
}

/// The look once a palette action is committed: the preview is reverted
/// (the shown font size stays for a font command), then a theme or tab
/// layout is set (the vertical layout opens the sidebar when it changes).
/// No snapshot is left.
pub open spec fn spec_commit_look<F>(s: LookState<F>, a: Option<PaletteAction>, font_differs: bool) -> LookState<F> {
    let c = spec_cancel_preview(
        s,
        if is_font_action(a) {
            false
        } else {
            font_differs
        },
    );
    match a {
        Some(PaletteAction::Theme(name)) => LookState {
            current: Look { theme: name@, ..c.current },
            original: None,
        },
        Some(PaletteAction::Layout(l)) => LookState {
            current: Look {
                layout: l,
                sidebar: if c.current.layout != l && l == TabLayout::Vertical {
                    true
                } else {
                    c.current.sidebar
                },
                ..c.current
            },
            original: None,
        },
        _ => c,
    }
}

/// What a key did in the command palette.
#[derive(Debug)]
pub enum PaletteKeyStep {
    /// Esc: the palette closed; what reverting the preview changed.
    Closed(PreviewRevert),
    /// Enter: execute this command.
    Execute(String),
    /// The selected row changed and was previewed.
    Previewed(PreviewStep),
    Unchanged,
}

/// What executing a palette command did and asks of the UI.
#[derive(Debug)]
pub struct PaletteExecution {
    /// What the UI carries out.
    pub action: Option<PaletteAction>,
    /// What reverting the running preview changed.
    pub revert: PreviewRevert,
    /// A font preview was committed as shown (the UI only saves it).
    pub font_committed: bool,
}

/// The desktop a window runs on, as far as its default font depends on it.
#[derive(Clone, Copy, Debug, PartialEq, Eq, Structural)]
pub enum HostOs {
    MacOs,
    Windows,
    Other,
}

/// The configured font family; an empty one or the generic `monospace`
/// means the platform's terminal font.
pub open spec fn spec_config_font_family(family: Seq<char>, os: HostOs) -> Seq<char> {
    if family.len() == 0 || family == "monospace"@ {
        match os {
            HostOs::MacOs => "Menlo"@,
            HostOs::Windows => "Cascadia Code"@,
            HostOs::Other => "monospace"@,
        }
    } else {
        family
    }
}

/// The font family a configuration asks for on this platform.
pub fn config_font_family(family: &str, os: HostOs) -> (r: String)
    ensures
        r@ == spec_config_font_family(family@, os),
{
    proof {
        reveal_strlit("monospace");
        reveal_strlit("Menlo");
        reveal_strlit("Cascadia Code");
    }
    if family.unicode_len() == 0 || str_eq(family, "monospace") {
        match os {
            HostOs::MacOs => "Menlo".to_owned(),
            HostOs::Windows => "Cascadia Code".to_owned(),
            HostOs::Other => "monospace".to_owned(),
        }
    } else {
        family.to_owned()
    }
}

} // verus!
