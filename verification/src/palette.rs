use vstd::prelude::*;

use crate::text::{
    fuzzy_match_str, lemma_filter_step, lowercase, spec_fuzzy_match, str_eq, to_lowercase,
};
use vstd::string::StringExecFns;

verus! {

/// The icon shown beside a palette entry.
#[derive(Clone, Copy, Debug, PartialEq, Eq, Structural)]
pub enum IconType {
    ChevronDown,
    ChevronLeft,
    ChevronRight,
    ChevronUp,
    ExternalLink,
    FileCode,
    Folder,
    FolderOpen,
    GitPullRequest,
    Layers,
    LogOut,
    Maximize2,
    Palette,
    Pencil,
    Plus,
    RotateCcw,
    Search,
    Server,
    Settings,
    Sparkles,
    Terminal,
    Trash2,
    X,
    Zap,
    ZoomIn,
    ZoomOut,
}

/// One command of the command palette.
#[derive(Clone, Copy, Debug)]
pub struct PaletteCommand {
    pub id: &'static str,
    pub icon: IconType,
    pub title: &'static str,
    pub category: &'static str,
    pub shortcut: Option<&'static str>,
}

/// The command palette's entries, in display order; shortcuts are shown in
/// the notation of the platform (`is_mac` for macOS).
pub open spec fn spec_palette_commands(is_mac: bool) -> Seq<PaletteCommand> {
    seq![
        PaletteCommand { id: "tab_overview", icon: IconType::Layers, title: "Mission Control / Tab Peek Overview", category: "Navigation", shortcut: Some(if is_mac { "⌘⇧O" } else { "Ctrl+Shift+M" }) },
        PaletteCommand { id: "global_search", icon: IconType::Search, title: "Find in All Tabs (Global Search)", category: "Terminal", shortcut: Some(if is_mac { "⌘⇧F" } else { "Ctrl+Shift+F" }) },
        PaletteCommand { id: "save_session", icon: IconType::Folder, title: "Session: Save Current Workspace Snapshot", category: "Session", shortcut: None },
        PaletteCommand { id: "restore_session", icon: IconType::RotateCcw, title: "Session: Attach / Restore Last Workspace", category: "Session", shortcut: None },
        PaletteCommand { id: "new_tab", icon: IconType::Plus, title: "New Tab", category: "Terminal", shortcut: Some(if is_mac { "⌘T" } else { "Ctrl+Shift+T" }) },
        PaletteCommand { id: "new_window", icon: IconType::ExternalLink, title: "New Window", category: "Window", shortcut: Some(if is_mac { "⌘⇧N" } else { "Ctrl+Shift+N" }) },
        PaletteCommand { id: "rename_tab", icon: IconType::Pencil, title: "Rename Active Tab", category: "Terminal", shortcut: Some(if is_mac { "⌘⇧R" } else { "Ctrl+Shift+R" }) },
        PaletteCommand { id: "close_tab", icon: IconType::X, title: "Close Active Tab", category: "Terminal", shortcut: Some(if is_mac { "⌘W" } else { "Ctrl+Shift+W" }) },
        PaletteCommand { id: "search", icon: IconType::Search, title: "Search in Buffer", category: "Terminal", shortcut: Some(if is_mac { "⌘F" } else { "Ctrl+F" }) },
        PaletteCommand { id: "clear", icon: IconType::Trash2, title: "Clear Scrollback", category: "Terminal", shortcut: Some(if is_mac { "⌘K" } else { "Ctrl+Shift+K" }) },
        PaletteCommand { id: "worktree", icon: IconType::GitPullRequest, title: "Git Worktree Picker", category: "Git", shortcut: Some(if is_mac { "⌘⌥W" } else { "Ctrl+Alt+W" }) },
        PaletteCommand { id: "project_jumper", icon: IconType::Folder, title: "Project / Tab Jumper", category: "Navigation", shortcut: Some(if is_mac { "⌘J" } else { "Ctrl+Shift+J" }) },
        PaletteCommand { id: "ssh", icon: IconType::Server, title: "SSH Host Manager", category: "Tools", shortcut: Some(if is_mac { "⌘O" } else { "Ctrl+Shift+O" }) },
        PaletteCommand { id: "snippets", icon: IconType::Terminal, title: "Snippets: Insert Snippet...", category: "Tools", shortcut: None },
        PaletteCommand { id: "prs", icon: IconType::GitPullRequest, title: "GitHub: Pull Requests (Checkout/Approve/Merge)", category: "Git", shortcut: None },
        PaletteCommand { id: "settings", icon: IconType::Settings, title: "Open Settings", category: "Preferences", shortcut: Some(if is_mac { "⌘," } else { "Ctrl+," }) },
        PaletteCommand { id: "about", icon: IconType::Zap, title: "About Fastty", category: "Application", shortcut: None },
        PaletteCommand { id: "fullscreen", icon: IconType::Maximize2, title: "Toggle Fullscreen", category: "Window", shortcut: Some(if is_mac { "⌃⌘F" } else { "F11" }) },
        PaletteCommand { id: "zoom_in", icon: IconType::ZoomIn, title: "Font: Increase Size (+1)", category: "View", shortcut: Some(if is_mac { "⌘+" } else { "Ctrl+Plus" }) },
        PaletteCommand { id: "zoom_out", icon: IconType::ZoomOut, title: "Font: Decrease Size (-1)", category: "View", shortcut: Some(if is_mac { "⌘-" } else { "Ctrl+Minus" }) },
        PaletteCommand { id: "zoom_reset", icon: IconType::RotateCcw, title: "Font: Reset Size (Default)", category: "View", shortcut: Some(if is_mac { "⌘0" } else { "Ctrl+0" }) },
        PaletteCommand { id: "theme_default", icon: IconType::Palette, title: "Theme: Switch to Default (Fastty)", category: "Theme", shortcut: None },
        PaletteCommand { id: "theme_catppuccin", icon: IconType::Palette, title: "Theme: Switch to Catppuccin", category: "Theme", shortcut: None },
        PaletteCommand { id: "theme_one_dark", icon: IconType::Palette, title: "Theme: Switch to One Dark", category: "Theme", shortcut: None },
        PaletteCommand { id: "theme_solarized", icon: IconType::Palette, title: "Theme: Switch to Solarized Dark", category: "Theme", shortcut: None },
        PaletteCommand { id: "theme_high_contrast", icon: IconType::Palette, title: "Theme: Switch to High Contrast", category: "Theme", shortcut: None },
        PaletteCommand { id: "open_config", icon: IconType::FolderOpen, title: "Open Config Folder", category: "Preferences", shortcut: None },
        PaletteCommand { id: "edit_config", icon: IconType::FileCode, title: "Edit config.toml", category: "Preferences", shortcut: None },
        PaletteCommand { id: "split_right", icon: IconType::Plus, title: "Split Pane Right", category: "Panes", shortcut: Some(if is_mac { "⌘D" } else { "Ctrl+Shift+E" }) },
        PaletteCommand { id: "split_down", icon: IconType::Plus, title: "Split Pane Down", category: "Panes", shortcut: Some(if is_mac { "⌘⇧D" } else { "Ctrl+Shift+O" }) },
        PaletteCommand { id: "split_left", icon: IconType::Plus, title: "Split Pane Left", category: "Panes", shortcut: None },
        PaletteCommand { id: "split_top", icon: IconType::Plus, title: "Split Pane Top", category: "Panes", shortcut: None },
        PaletteCommand { id: "focus_left", icon: IconType::ChevronLeft, title: "Focus Pane Left", category: "Panes", shortcut: Some(if is_mac { "⌥⌘←" } else { "Alt+←" }) },
        PaletteCommand { id: "focus_right", icon: IconType::ChevronRight, title: "Focus Pane Right", category: "Panes", shortcut: Some(if is_mac { "⌥⌘→" } else { "Alt+→" }) },
        PaletteCommand { id: "focus_top", icon: IconType::ChevronUp, title: "Focus Pane Top", category: "Panes", shortcut: Some(if is_mac { "⌥⌘↑" } else { "Alt+↑" }) },
        PaletteCommand { id: "focus_down", icon: IconType::ChevronDown, title: "Focus Pane Down", category: "Panes", shortcut: Some(if is_mac { "⌥⌘↓" } else { "Alt+↓" }) },
        PaletteCommand { id: "close_pane", icon: IconType::X, title: "Close Active Pane", category: "Panes", shortcut: Some(if is_mac { "⌘W" } else { "Ctrl+Shift+W" }) },
        PaletteCommand { id: "zoom_pane", icon: IconType::Maximize2, title: "Zoom Active Pane (Toggle)", category: "Panes", shortcut: None },
        PaletteCommand { id: "toggle_tab_sidebar", icon: IconType::Folder, title: "Toggle Tabs Sidebar", category: "View", shortcut: Some(if is_mac { "⌘B" } else { "Ctrl+B" }) },
        PaletteCommand { id: "toggle_ai_sidebar", icon: IconType::Sparkles, title: "Fastty AI: Toggle Assistant Sidebar", category: "AI", shortcut: Some(if is_mac { "⌘L" } else { "Ctrl+Shift+L" }) },
        PaletteCommand { id: "layout_horizontal", icon: IconType::Folder, title: "Tabs Layout: Horizontal Top Bar", category: "View", shortcut: None },
        PaletteCommand { id: "layout_vertical", icon: IconType::Folder, title: "Tabs Layout: Vertical Sidebar", category: "View", shortcut: None },
        PaletteCommand { id: "quit", icon: IconType::LogOut, title: "Quit Fastty", category: "Application", shortcut: Some(if is_mac { "⌘Q" } else { "Alt+F4" }) },
    ]
}

/// All command palette entries, with the shortcut notation of the platform.
pub fn get_all_palette_commands(is_mac: bool) -> (r: Vec<PaletteCommand>)
    ensures
        r@ == spec_palette_commands(is_mac),
{
    vec![
        PaletteCommand { id: "tab_overview", icon: IconType::Layers, title: "Mission Control / Tab Peek Overview", category: "Navigation", shortcut: Some(if is_mac { "⌘⇧O" } else { "Ctrl+Shift+M" }) },
        PaletteCommand { id: "global_search", icon: IconType::Search, title: "Find in All Tabs (Global Search)", category: "Terminal", shortcut: Some(if is_mac { "⌘⇧F" } else { "Ctrl+Shift+F" }) },
        PaletteCommand { id: "save_session", icon: IconType::Folder, title: "Session: Save Current Workspace Snapshot", category: "Session", shortcut: None },
        PaletteCommand { id: "restore_session", icon: IconType::RotateCcw, title: "Session: Attach / Restore Last Workspace", category: "Session", shortcut: None },
        PaletteCommand { id: "new_tab", icon: IconType::Plus, title: "New Tab", category: "Terminal", shortcut: Some(if is_mac { "⌘T" } else { "Ctrl+Shift+T" }) },
        PaletteCommand { id: "new_window", icon: IconType::ExternalLink, title: "New Window", category: "Window", shortcut: Some(if is_mac { "⌘⇧N" } else { "Ctrl+Shift+N" }) },
        PaletteCommand { id: "rename_tab", icon: IconType::Pencil, title: "Rename Active Tab", category: "Terminal", shortcut: Some(if is_mac { "⌘⇧R" } else { "Ctrl+Shift+R" }) },
        PaletteCommand { id: "close_tab", icon: IconType::X, title: "Close Active Tab", category: "Terminal", shortcut: Some(if is_mac { "⌘W" } else { "Ctrl+Shift+W" }) },
        PaletteCommand { id: "search", icon: IconType::Search, title: "Search in Buffer", category: "Terminal", shortcut: Some(if is_mac { "⌘F" } else { "Ctrl+F" }) },
        PaletteCommand { id: "clear", icon: IconType::Trash2, title: "Clear Scrollback", category: "Terminal", shortcut: Some(if is_mac { "⌘K" } else { "Ctrl+Shift+K" }) },
        PaletteCommand { id: "worktree", icon: IconType::GitPullRequest, title: "Git Worktree Picker", category: "Git", shortcut: Some(if is_mac { "⌘⌥W" } else { "Ctrl+Alt+W" }) },
        PaletteCommand { id: "project_jumper", icon: IconType::Folder, title: "Project / Tab Jumper", category: "Navigation", shortcut: Some(if is_mac { "⌘J" } else { "Ctrl+Shift+J" }) },
        PaletteCommand { id: "ssh", icon: IconType::Server, title: "SSH Host Manager", category: "Tools", shortcut: Some(if is_mac { "⌘O" } else { "Ctrl+Shift+O" }) },
        PaletteCommand { id: "snippets", icon: IconType::Terminal, title: "Snippets: Insert Snippet...", category: "Tools", shortcut: None },
        PaletteCommand { id: "prs", icon: IconType::GitPullRequest, title: "GitHub: Pull Requests (Checkout/Approve/Merge)", category: "Git", shortcut: None },
        PaletteCommand { id: "settings", icon: IconType::Settings, title: "Open Settings", category: "Preferences", shortcut: Some(if is_mac { "⌘," } else { "Ctrl+," }) },
        PaletteCommand { id: "about", icon: IconType::Zap, title: "About Fastty", category: "Application", shortcut: None },
        PaletteCommand { id: "fullscreen", icon: IconType::Maximize2, title: "Toggle Fullscreen", category: "Window", shortcut: Some(if is_mac { "⌃⌘F" } else { "F11" }) },
        PaletteCommand { id: "zoom_in", icon: IconType::ZoomIn, title: "Font: Increase Size (+1)", category: "View", shortcut: Some(if is_mac { "⌘+" } else { "Ctrl+Plus" }) },
        PaletteCommand { id: "zoom_out", icon: IconType::ZoomOut, title: "Font: Decrease Size (-1)", category: "View", shortcut: Some(if is_mac { "⌘-" } else { "Ctrl+Minus" }) },
        PaletteCommand { id: "zoom_reset", icon: IconType::RotateCcw, title: "Font: Reset Size (Default)", category: "View", shortcut: Some(if is_mac { "⌘0" } else { "Ctrl+0" }) },
        PaletteCommand { id: "theme_default", icon: IconType::Palette, title: "Theme: Switch to Default (Fastty)", category: "Theme", shortcut: None },
        PaletteCommand { id: "theme_catppuccin", icon: IconType::Palette, title: "Theme: Switch to Catppuccin", category: "Theme", shortcut: None },
        PaletteCommand { id: "theme_one_dark", icon: IconType::Palette, title: "Theme: Switch to One Dark", category: "Theme", shortcut: None },
        PaletteCommand { id: "theme_solarized", icon: IconType::Palette, title: "Theme: Switch to Solarized Dark", category: "Theme", shortcut: None },
        PaletteCommand { id: "theme_high_contrast", icon: IconType::Palette, title: "Theme: Switch to High Contrast", category: "Theme", shortcut: None },
        PaletteCommand { id: "open_config", icon: IconType::FolderOpen, title: "Open Config Folder", category: "Preferences", shortcut: None },
        PaletteCommand { id: "edit_config", icon: IconType::FileCode, title: "Edit config.toml", category: "Preferences", shortcut: None },
        PaletteCommand { id: "split_right", icon: IconType::Plus, title: "Split Pane Right", category: "Panes", shortcut: Some(if is_mac { "⌘D" } else { "Ctrl+Shift+E" }) },
        PaletteCommand { id: "split_down", icon: IconType::Plus, title: "Split Pane Down", category: "Panes", shortcut: Some(if is_mac { "⌘⇧D" } else { "Ctrl+Shift+O" }) },
        PaletteCommand { id: "split_left", icon: IconType::Plus, title: "Split Pane Left", category: "Panes", shortcut: None },
        PaletteCommand { id: "split_top", icon: IconType::Plus, title: "Split Pane Top", category: "Panes", shortcut: None },
        PaletteCommand { id: "focus_left", icon: IconType::ChevronLeft, title: "Focus Pane Left", category: "Panes", shortcut: Some(if is_mac { "⌥⌘←" } else { "Alt+←" }) },
        PaletteCommand { id: "focus_right", icon: IconType::ChevronRight, title: "Focus Pane Right", category: "Panes", shortcut: Some(if is_mac { "⌥⌘→" } else { "Alt+→" }) },
        PaletteCommand { id: "focus_top", icon: IconType::ChevronUp, title: "Focus Pane Top", category: "Panes", shortcut: Some(if is_mac { "⌥⌘↑" } else { "Alt+↑" }) },
        PaletteCommand { id: "focus_down", icon: IconType::ChevronDown, title: "Focus Pane Down", category: "Panes", shortcut: Some(if is_mac { "⌥⌘↓" } else { "Alt+↓" }) },
        PaletteCommand { id: "close_pane", icon: IconType::X, title: "Close Active Pane", category: "Panes", shortcut: Some(if is_mac { "⌘W" } else { "Ctrl+Shift+W" }) },
        PaletteCommand { id: "zoom_pane", icon: IconType::Maximize2, title: "Zoom Active Pane (Toggle)", category: "Panes", shortcut: None },
        PaletteCommand { id: "toggle_tab_sidebar", icon: IconType::Folder, title: "Toggle Tabs Sidebar", category: "View", shortcut: Some(if is_mac { "⌘B" } else { "Ctrl+B" }) },
        PaletteCommand { id: "toggle_ai_sidebar", icon: IconType::Sparkles, title: "Fastty AI: Toggle Assistant Sidebar", category: "AI", shortcut: Some(if is_mac { "⌘L" } else { "Ctrl+Shift+L" }) },
        PaletteCommand { id: "layout_horizontal", icon: IconType::Folder, title: "Tabs Layout: Horizontal Top Bar", category: "View", shortcut: None },
        PaletteCommand { id: "layout_vertical", icon: IconType::Folder, title: "Tabs Layout: Vertical Sidebar", category: "View", shortcut: None },
        PaletteCommand { id: "quit", icon: IconType::LogOut, title: "Quit Fastty", category: "Application", shortcut: Some(if is_mac { "⌘Q" } else { "Alt+F4" }) },
    ]
}


/// How the tab strip is laid out.
#[derive(Clone, Copy, Debug, PartialEq, Eq, Structural)]
pub enum TabLayout {
    Horizontal,
    Vertical,
}

/// The theme that a palette command switches to, if it is a theme command.
pub open spec fn spec_theme_name_for_palette_id(id: Seq<char>) -> Option<Seq<char>> {
    if id == "theme_default"@ {
        Some("default"@)
    } else if id == "theme_catppuccin"@ {
        Some("catppuccin"@)
    } else if id == "theme_one_dark"@ {
        Some("one-dark"@)
    } else if id == "theme_solarized"@ {
        Some("solarized-dark"@)
    } else if id == "theme_high_contrast"@ {
        Some("high-contrast"@)
    } else {
        None
    }
}

/// Maps a palette command id to the theme it switches to, if any.
/// Navigating to the row previews the theme, `Enter` commits it, `Esc`
/// reverts to the previous one.
pub fn theme_name_for_palette_id(cmd_id: &str) -> (r: Option<&'static str>)
    ensures
        r matches Some(t) ==> spec_theme_name_for_palette_id(cmd_id@) == Some(t@),
        r is None ==> spec_theme_name_for_palette_id(cmd_id@) is None,
{
    if str_eq(cmd_id, "theme_default") {
        Some("default")
    } else if str_eq(cmd_id, "theme_catppuccin") {
        Some("catppuccin")
    } else if str_eq(cmd_id, "theme_one_dark") {
        Some("one-dark")
    } else if str_eq(cmd_id, "theme_solarized") {
        Some("solarized-dark")
    } else if str_eq(cmd_id, "theme_high_contrast") {
        Some("high-contrast")
    } else {
        None
    }
}

/// What a palette entry previews while navigating. Font deltas are whole
/// points applied to the baseline snapshot; layout and theme swap.
#[derive(Clone, Copy, Debug, PartialEq)]
pub enum PalettePreviewKind {
    Theme(&'static str),
    FontDelta(i32),
    FontReset,
    Layout(TabLayout),
}

/// The preview of a palette command, with theme names by their characters.
pub enum PreviewKindView {
    Theme(Seq<char>),
    FontDelta(i32),
    FontReset,
    Layout(TabLayout),
}

/// A preview kind by the characters of its theme name.
pub open spec fn preview_view(k: PalettePreviewKind) -> PreviewKindView {
    match k {
        PalettePreviewKind::Theme(t) => PreviewKindView::Theme(t@),
        PalettePreviewKind::FontDelta(d) => PreviewKindView::FontDelta(d),
        PalettePreviewKind::FontReset => PreviewKindView::FontReset,
        PalettePreviewKind::Layout(l) => PreviewKindView::Layout(l),
    }
}

/// The live preview of a palette command: themes first, then font size and
/// tab layout commands.
pub open spec fn spec_palette_preview_kind(id: Seq<char>) -> Option<PreviewKindView> {
    match spec_theme_name_for_palette_id(id) {
        Some(t) => Some(PreviewKindView::Theme(t)),
        None => if id == "zoom_in"@ {
            Some(PreviewKindView::FontDelta(1))
        } else if id == "zoom_out"@ {
            Some(PreviewKindView::FontDelta(-1i32))
        } else if id == "zoom_reset"@ {
            Some(PreviewKindView::FontReset)
        } else if id == "layout_horizontal"@ {
            Some(PreviewKindView::Layout(TabLayout::Horizontal))
        } else if id == "layout_vertical"@ {
            Some(PreviewKindView::Layout(TabLayout::Vertical))
        } else {
            None
        },
    }
}

/// Maps a palette command id to its live preview, if any. `Enter` commits
/// it (saves), `Esc` reverts to the snapshot.
pub fn palette_preview_kind(cmd_id: &str) -> (r: Option<PalettePreviewKind>)
    ensures
        r matches Some(k) ==> spec_palette_preview_kind(cmd_id@) == Some(preview_view(k)),
        r is None ==> spec_palette_preview_kind(cmd_id@) is None,
{
    if let Some(theme_name) = theme_name_for_palette_id(cmd_id) {
        return Some(PalettePreviewKind::Theme(theme_name));
    }
    if str_eq(cmd_id, "zoom_in") {
        Some(PalettePreviewKind::FontDelta(1))
    } else if str_eq(cmd_id, "zoom_out") {
        Some(PalettePreviewKind::FontDelta(-1))
    } else if str_eq(cmd_id, "zoom_reset") {
        Some(PalettePreviewKind::FontReset)
    } else if str_eq(cmd_id, "layout_horizontal") {
        Some(PalettePreviewKind::Layout(TabLayout::Horizontal))
    } else if str_eq(cmd_id, "layout_vertical") {
        Some(PalettePreviewKind::Layout(TabLayout::Vertical))
    } else {
        None
    }
}


/// A list of strings by their characters.
pub open spec fn strings_view(v: Seq<String>) -> Seq<Seq<char>> {
    v.map_values(|s: String| s@)
}

/// The position of the first occurrence of `id` in `recent`, or
/// `recent.len()` when it does not occur.
pub open spec fn recent_rank(recent: Seq<Seq<char>>, id: Seq<char>) -> nat
    decreases recent.len(),
{
    if recent.len() == 0 {
        0
    } else if recent[0] == id {
        0
    } else {
        1 + recent_rank(recent.drop_first(), id)
    }
}

/// What `recent_rank` is: the first index holding `id`, or the length.
pub proof fn lemma_recent_rank(recent: Seq<Seq<char>>, id: Seq<char>)
    ensures
        recent_rank(recent, id) <= recent.len(),
        recent_rank(recent, id) < recent.len() ==> recent[recent_rank(recent, id) as int] == id,
        forall|j: int| 0 <= j < recent_rank(recent, id) ==> recent[j] != id,
    decreases recent.len(),
{
    if recent.len() > 0 && recent[0] != id {
        lemma_recent_rank(recent.drop_first(), id);
        assert forall|j: int| 0 <= j < recent_rank(recent, id) implies recent[j] != id by {
            if j > 0 {
                assert(recent[j] == recent.drop_first()[j - 1]);
            }
        }
    }
}

proof fn lemma_rank_is(recent: Seq<Seq<char>>, id: Seq<char>, i: int)
    requires
        0 <= i <= recent.len(),
        forall|j: int| 0 <= j < i ==> recent[j] != id,
        i == recent.len() || recent[i] == id,
    ensures
        recent_rank(recent, id) == i,
    decreases i,
{
    if i > 0 {
        lemma_rank_is(recent.drop_first(), id, i - 1);
    }
}

fn rank_of(recent: &Vec<String>, id: &str) -> (r: usize)
    ensures
        r == recent_rank(strings_view(recent@), id@),
{
    let ghost rs = strings_view(recent@);
    let mut i: usize = 0;
    while i < recent.len()
        invariant
            i <= recent.len(),
            rs == strings_view(recent@),
            forall|j: int| 0 <= j < i ==> rs[j] != id@,
        decreases recent.len() - i,
    {
        if str_eq(recent[i].as_str(), id) {
            proof {
                lemma_rank_is(rs, id@, i as int);
            }
            return i;
        }
        i = i + 1;
    }
    proof {
        lemma_rank_is(rs, id@, i as int);
    }
    i
}

/// A palette entry matches the (lowercased) query by title or category.
pub open spec fn palette_entry_matches(query: Seq<char>, c: PaletteCommand) -> bool {
    query.len() == 0 || spec_fuzzy_match(query, c.title@) || spec_fuzzy_match(query, c.category@)
}

/// The entries matching the query, in their original order.
pub open spec fn matching_commands(cmds: Seq<PaletteCommand>, query: Seq<char>) -> Seq<
    PaletteCommand,
> {
    cmds.filter(|c: PaletteCommand| palette_entry_matches(query, c))
}

/// The entries whose id has the given recent rank, in their original order.
pub open spec fn rank_group(cmds: Seq<PaletteCommand>, recent: Seq<Seq<char>>, k: nat) -> Seq<
    PaletteCommand,
> {
    cmds.filter(|c: PaletteCommand| recent_rank(recent, c.id@) == k)
}

/// The groups of rank `0..k`, concatenated in rank order.
pub open spec fn groups_upto(cmds: Seq<PaletteCommand>, recent: Seq<Seq<char>>, k: nat) -> Seq<
    PaletteCommand,
>
    decreases k,
{
    if k == 0 {
        Seq::empty()
    } else {
        groups_upto(cmds, recent, (k - 1) as nat) + rank_group(cmds, recent, (k - 1) as nat)
    }
}

/// A stable sort by recent rank: recently used entries first (most recent
/// first), everything else after them, each group in its original order.
pub open spec fn recent_first(cmds: Seq<PaletteCommand>, recent: Seq<Seq<char>>) -> Seq<
    PaletteCommand,
> {
    groups_upto(cmds, recent, recent.len() + 1)
}

/// The palette entries shown for a query: the matching entries; with an
/// empty query, recently executed commands sort first.
pub open spec fn spec_filtered_palette_commands(
    all: Seq<PaletteCommand>,
    query: Seq<char>,
    recent: Seq<Seq<char>>,
) -> Seq<PaletteCommand> {
    let q = lowercase(query);
    let m = matching_commands(all, q);
    if q.len() == 0 && recent.len() > 0 {
        recent_first(m, recent)
    } else {
        m
    }
}

proof fn lemma_groups_upto_contains(
    cmds: Seq<PaletteCommand>,
    recent: Seq<Seq<char>>,
    n: nat,
    c: PaletteCommand,
)
    ensures
        cmds.contains(c) && recent_rank(recent, c.id@) < n ==> groups_upto(cmds, recent, n).contains(c),
        groups_upto(cmds, recent, n).contains(c) ==> cmds.contains(c),
    decreases n,
{
    if n > 0 {
        let k = (n - 1) as nat;
        lemma_groups_upto_contains(cmds, recent, k, c);
        let pred = |x: PaletteCommand| recent_rank(recent, x.id@) == k;
        let g = rank_group(cmds, recent, k);
        let before = groups_upto(cmds, recent, k);
        assert(groups_upto(cmds, recent, n) == before + g);
        if cmds.contains(c) && recent_rank(recent, c.id@) < n {
            if recent_rank(recent, c.id@) == k {
                let i = cmds.index_of(c);
                cmds.lemma_filter_contains(pred, i);
                assert(g.contains(c));
                let j = g.index_of(c);
                assert((before + g)[before.len() + j] == c);
            } else {
                let j = before.index_of(c);
                assert((before + g)[j] == c);
            }
        }
        if groups_upto(cmds, recent, n).contains(c) {
            let j = (before + g).index_of(c);
            if j < before.len() {
                assert(before[j] == c);
            } else {
                assert(g[j - before.len()] == c);
                assert(g.contains(c));
                cmds.lemma_filter_contains_rev(pred, c);
            }
        }
    }
}

/// The palette shows exactly the commands whose title or category matches
/// the lowercased query (every command for an empty query), each one from
/// the full list; ordering by recent use drops none of them.
pub proof fn lemma_palette_shows_title_and_category_matches(
    all: Seq<PaletteCommand>,
    query: Seq<char>,
    recent: Seq<Seq<char>>,
)
    ensures
        forall|c: PaletteCommand|
            all.contains(c) && (lowercase(query).len() == 0 || spec_fuzzy_match(
                lowercase(query),
                c.title@,
            ) || spec_fuzzy_match(lowercase(query), c.category@))
                ==> #[trigger] spec_filtered_palette_commands(all, query, recent).contains(c),
        forall|c: PaletteCommand| #[trigger]
            spec_filtered_palette_commands(all, query, recent).contains(c) ==> all.contains(c) && (
            lowercase(query).len() == 0 || spec_fuzzy_match(lowercase(query), c.title@)
                || spec_fuzzy_match(lowercase(query), c.category@)),
{
    let q = lowercase(query);
    let pred = |c: PaletteCommand| palette_entry_matches(q, c);
    let m = matching_commands(all, q);
    let r = spec_filtered_palette_commands(all, query, recent);
    assert forall|c: PaletteCommand|
        all.contains(c) && (q.len() == 0 || spec_fuzzy_match(q, c.title@) || spec_fuzzy_match(
            q,
            c.category@,
        )) implies #[trigger] r.contains(c) by {
        let i = all.index_of(c);
        all.lemma_filter_contains(pred, i);
        assert(m.contains(c));
        if q.len() == 0 && recent.len() > 0 {
            lemma_recent_rank(recent, c.id@);
            lemma_groups_upto_contains(m, recent, recent.len() + 1, c);
        }
    }
    assert forall|c: PaletteCommand| #[trigger] r.contains(c) implies all.contains(c) && (q.len()
        == 0 || spec_fuzzy_match(q, c.title@) || spec_fuzzy_match(q, c.category@)) by {
        if q.len() == 0 && recent.len() > 0 {
            lemma_groups_upto_contains(m, recent, recent.len() + 1, c);
        }
        assert(m.contains(c));
        all.lemma_filter_contains_rev(pred, c);
        let j = m.index_of(c);
        all.lemma_filter_pred(pred, j);
    }
}

proof fn lemma_filter_empty<A>(s: Seq<A>, pred: spec_fn(A) -> bool)
    ensures
        s.take(0).filter(pred) == Seq::<A>::empty(),
{
    reveal(Seq::filter);
    assert(s.take(0) =~= Seq::<A>::empty());
}

/// The palette entries matching a query; with an empty query and a
/// non-empty recent list, recently executed commands sort first (stable
/// otherwise), so repeat actions are one `Enter` away.
pub fn filter_palette_commands(all: &Vec<PaletteCommand>, query: &str, recent: &Vec<String>) -> (r:
    Vec<PaletteCommand>)
    ensures
        r@ == spec_filtered_palette_commands(all@, query@, strings_view(recent@)),
{
    let q = to_lowercase(query);
    let ghost qv = q@;
    let ghost pred = |c: PaletteCommand| palette_entry_matches(qv, c);
    let q_empty = q.as_str().unicode_len() == 0;
    let mut matched: Vec<PaletteCommand> = Vec::new();
    let mut i: usize = 0;
    proof {
        lemma_filter_empty(all@, pred);
    }
    while i < all.len()
        invariant
            i <= all.len(),
            q@ == qv,
            q_empty == (qv.len() == 0),
            pred == (|c: PaletteCommand| palette_entry_matches(qv, c)),
            matched@ == all@.take(i as int).filter(pred),
        decreases all.len() - i,
    {
        let c = all[i];
        let keep = q_empty || fuzzy_match_str(q.as_str(), c.title) || fuzzy_match_str(
            q.as_str(),
            c.category,
        );
        proof {
            lemma_filter_step(all@, pred, i as int);
        }
        if keep {
            matched.push(c);
        }
        i = i + 1;
    }
    assert(all@.take(all.len() as int) =~= all@);
    if !(q_empty && recent.len() > 0) {
        return matched;
    }
    let ghost rs = strings_view(recent@);
    let mut out: Vec<PaletteCommand> = Vec::new();
    let mut k: usize = 0;
    loop
        invariant_except_break
            k <= recent.len(),
            out@ == groups_upto(matched@, rs, k as nat),
        invariant
            rs == strings_view(recent@),
        ensures
            out@ == groups_upto(matched@, rs, (recent.len() + 1) as nat),
        decreases recent.len() - k,
    {
        let ghost gpred = |c: PaletteCommand| recent_rank(rs, c.id@) == k as nat;
        let ghost before = out@;
        let mut j: usize = 0;
        proof {
            lemma_filter_empty(matched@, gpred);
        }
        while j < matched.len()
            invariant
                j <= matched.len(),
                rs == strings_view(recent@),
                gpred == (|c: PaletteCommand| recent_rank(rs, c.id@) == k as nat),
                out@ == before + matched@.take(j as int).filter(gpred),
            decreases matched.len() - j,
        {
            let c = matched[j];
            proof {
                lemma_filter_step(matched@, gpred, j as int);
            }
            if rank_of(recent, c.id) == k {
                out.push(c);
            }
            j = j + 1;
        }
        assert(matched@.take(matched.len() as int) =~= matched@);
        assert(out@ == groups_upto(matched@, rs, (k + 1) as nat));
        if k == recent.len() {
            break;
        }
        k = k + 1;
    }
    out
}

/// The recent list after executing `id`: any earlier entry for it is
/// removed, it goes first, and the list keeps at most five entries.
pub open spec fn spec_record_recent(recent: Seq<Seq<char>>, id: Seq<char>) -> Seq<Seq<char>> {
    let p = recent_rank(recent, id);
    let base = if p < recent.len() {
        recent.remove(p as int)
    } else {
        recent
    };
    let ins = seq![id] + base;
    if ins.len() > 5 {
        ins.take(5)
    } else {
        ins
    }
}

/// Records a palette execution for recent-first ordering (at most five).
pub fn record_recent(recent: &mut Vec<String>, cmd_id: &str)
    ensures
        strings_view(final(recent)@) == spec_record_recent(strings_view(old(recent)@), cmd_id@),
{
    let ghost rs = strings_view(recent@);
    let p = rank_of(recent, cmd_id);
    if p < recent.len() {
        recent.remove(p);
        assert(strings_view(recent@) =~= rs.remove(p as int));
    }
    let ghost base = strings_view(recent@);
    recent.insert(0, String::from_str(cmd_id));
    assert(strings_view(recent@) =~= seq![cmd_id@] + base);
    let ghost ins = strings_view(recent@);
    recent.truncate(5);
    assert(strings_view(recent@) =~= (if ins.len() > 5 {
        ins.take(5)
    } else {
        ins
    }));
}

/// After recording a command, it is the most recent entry, and the list
/// holds between one and five entries.
pub proof fn lemma_record_recent_puts_first(recent: Seq<Seq<char>>, id: Seq<char>)
    ensures
        spec_record_recent(recent, id).len() >= 1,
        spec_record_recent(recent, id).len() <= 5,
        spec_record_recent(recent, id)[0] == id,
{
}

/// Recording the same command twice in a row is the same as recording it once.
pub proof fn lemma_record_recent_idempotent(recent: Seq<Seq<char>>, id: Seq<char>)
    ensures
        spec_record_recent(spec_record_recent(recent, id), id) == spec_record_recent(recent, id),
{
    let once = spec_record_recent(recent, id);
    assert(recent_rank(once, id) == 0);
    let base = once.remove(0);
    assert(seq![id] + base =~= once);
}

/// A recent list without repeated entries stays without repeated entries.
pub proof fn lemma_record_recent_no_duplicates(recent: Seq<Seq<char>>, id: Seq<char>)
    requires
        recent.no_duplicates(),
    ensures
        spec_record_recent(recent, id).no_duplicates(),
{
    lemma_recent_rank(recent, id);
    let p = recent_rank(recent, id);
    let base = if p < recent.len() {
        recent.remove(p as int)
    } else {
        recent
    };
    assert forall|j: int| 0 <= j < base.len() implies base[j] != id by {
        if p < recent.len() {
            if j < p {
                assert(base[j] == recent[j]);
            } else {
                assert(base[j] == recent[j + 1]);
                assert(recent[p as int] == id);
            }
        }
    }
    assert(base.no_duplicates()) by {
        assert forall|a: int, b: int| 0 <= a < base.len() && 0 <= b < base.len() && a != b implies
            base[a] != base[b] by {
            if p < recent.len() {
                let ia = if a < p { a } else { a + 1 };
                let ib = if b < p { b } else { b + 1 };
                assert(base[a] == recent[ia]);
                assert(base[b] == recent[ib]);
            }
        }
    }
    let ins = seq![id] + base;
    assert(ins.no_duplicates()) by {
        assert forall|a: int, b: int| 0 <= a < ins.len() && 0 <= b < ins.len() && a != b implies
            ins[a] != ins[b] by {
            if a > 0 && b > 0 {
                assert(ins[a] == base[a - 1]);
                assert(ins[b] == base[b - 1]);
            } else if a == 0 {
                assert(ins[b] == base[b - 1]);
            } else {
                assert(ins[a] == base[a - 1]);
            }
        }
    }
}

/// A direction to split or move focus in.
#[derive(Clone, Copy, Debug, PartialEq, Eq, Structural)]
pub enum Direction {
    Left,
    Right,
    Top,
    Down,
}

/// What a palette command does.
#[derive(Clone, Copy, Debug, PartialEq, Eq)]
pub enum PaletteAction {
    TabOverview,
    GlobalSearch,
    SaveSession,
    RestoreSession,
    NewTab,
    NewWindow,
    RenameTab,
    CloseTab,
    Search,
    Worktree,
    ProjectJumper,
    Clear,
    Ssh,
    Snippets,
    Prs,
    Settings,
    About,
    Fullscreen,
    ZoomIn,
    ZoomOut,
    ZoomReset,
    Theme(&'static str),
    OpenConfig,
    EditConfig,
    Split(Direction),
    Focus(Direction),
    ClosePane,
    ZoomPane,
    ToggleTabSidebar,
    ToggleAiSidebar,
    Layout(TabLayout),
    Quit,
}

/// The action of each palette command id.
pub open spec fn spec_palette_action(id: Seq<char>) -> Option<PaletteAction> {
    if id == "tab_overview"@ {
        Some(PaletteAction::TabOverview)
    } else if id == "global_search"@ {
        Some(PaletteAction::GlobalSearch)
    } else if id == "save_session"@ {
        Some(PaletteAction::SaveSession)
    } else if id == "restore_session"@ {
        Some(PaletteAction::RestoreSession)
    } else if id == "new_tab"@ {
        Some(PaletteAction::NewTab)
    } else if id == "new_window"@ {
        Some(PaletteAction::NewWindow)
    } else if id == "rename_tab"@ {
        Some(PaletteAction::RenameTab)
    } else if id == "close_tab"@ {
        Some(PaletteAction::CloseTab)
    } else if id == "search"@ {
        Some(PaletteAction::Search)
    } else if id == "worktree"@ {
        Some(PaletteAction::Worktree)
    } else if id == "project_jumper"@ {
        Some(PaletteAction::ProjectJumper)
    } else if id == "clear"@ {
        Some(PaletteAction::Clear)
    } else if id == "ssh"@ {
        Some(PaletteAction::Ssh)
    } else if id == "snippets"@ {
        Some(PaletteAction::Snippets)
    } else if id == "prs"@ {
        Some(PaletteAction::Prs)
    } else if id == "settings"@ {
        Some(PaletteAction::Settings)
    } else if id == "about"@ {
        Some(PaletteAction::About)
    } else if id == "fullscreen"@ {
        Some(PaletteAction::Fullscreen)
    } else if id == "zoom_in"@ {
        Some(PaletteAction::ZoomIn)
    } else if id == "zoom_out"@ {
        Some(PaletteAction::ZoomOut)
    } else if id == "zoom_reset"@ {
        Some(PaletteAction::ZoomReset)
    } else if id == "theme_default"@ {
        Some(PaletteAction::Theme("default"))
    } else if id == "theme_catppuccin"@ {
        Some(PaletteAction::Theme("catppuccin"))
    } else if id == "theme_one_dark"@ {
        Some(PaletteAction::Theme("one-dark"))
    } else if id == "theme_solarized"@ {
        Some(PaletteAction::Theme("solarized-dark"))
    } else if id == "theme_high_contrast"@ {
        Some(PaletteAction::Theme("high-contrast"))
    } else if id == "open_config"@ {
        Some(PaletteAction::OpenConfig)
    } else if id == "edit_config"@ {
        Some(PaletteAction::EditConfig)
    } else if id == "split_right"@ {
        Some(PaletteAction::Split(Direction::Right))
    } else if id == "split_down"@ {
        Some(PaletteAction::Split(Direction::Down))
    } else if id == "split_left"@ {
        Some(PaletteAction::Split(Direction::Left))
    } else if id == "split_top"@ {
        Some(PaletteAction::Split(Direction::Top))
    } else if id == "focus_left"@ {
        Some(PaletteAction::Focus(Direction::Left))
    } else if id == "focus_right"@ {
        Some(PaletteAction::Focus(Direction::Right))
    } else if id == "focus_top"@ {
        Some(PaletteAction::Focus(Direction::Top))
    } else if id == "focus_up"@ {
        Some(PaletteAction::Focus(Direction::Top))
    } else if id == "focus_down"@ {
        Some(PaletteAction::Focus(Direction::Down))
    } else if id == "close_pane"@ {
        Some(PaletteAction::ClosePane)
    } else if id == "zoom_pane"@ {
        Some(PaletteAction::ZoomPane)
    } else if id == "toggle_tab_sidebar"@ {
        Some(PaletteAction::ToggleTabSidebar)
    } else if id == "toggle_ai_sidebar"@ {
        Some(PaletteAction::ToggleAiSidebar)
    } else if id == "layout_horizontal"@ {
        Some(PaletteAction::Layout(TabLayout::Horizontal))
    } else if id == "layout_vertical"@ {
        Some(PaletteAction::Layout(TabLayout::Vertical))
    } else if id == "quit"@ {
        Some(PaletteAction::Quit)
    } else {
        None
    }
}

/// The action of a palette command, by its id.
pub fn palette_action(cmd_id: &str) -> (r: Option<PaletteAction>)
    ensures
        r == spec_palette_action(cmd_id@),
{
    if str_eq(cmd_id, "tab_overview") {
        Some(PaletteAction::TabOverview)
    } else if str_eq(cmd_id, "global_search") {
        Some(PaletteAction::GlobalSearch)
    } else if str_eq(cmd_id, "save_session") {
        Some(PaletteAction::SaveSession)
    } else if str_eq(cmd_id, "restore_session") {
        Some(PaletteAction::RestoreSession)
    } else if str_eq(cmd_id, "new_tab") {
        Some(PaletteAction::NewTab)
    } else if str_eq(cmd_id, "new_window") {
        Some(PaletteAction::NewWindow)
    } else if str_eq(cmd_id, "rename_tab") {
        Some(PaletteAction::RenameTab)
    } else if str_eq(cmd_id, "close_tab") {
        Some(PaletteAction::CloseTab)
    } else if str_eq(cmd_id, "search") {
        Some(PaletteAction::Search)
    } else if str_eq(cmd_id, "worktree") {
        Some(PaletteAction::Worktree)
    } else if str_eq(cmd_id, "project_jumper") {
        Some(PaletteAction::ProjectJumper)
    } else if str_eq(cmd_id, "clear") {
        Some(PaletteAction::Clear)
    } else if str_eq(cmd_id, "ssh") {
        Some(PaletteAction::Ssh)
    } else if str_eq(cmd_id, "snippets") {
        Some(PaletteAction::Snippets)
    } else if str_eq(cmd_id, "prs") {
        Some(PaletteAction::Prs)
    } else if str_eq(cmd_id, "settings") {
        Some(PaletteAction::Settings)
    } else if str_eq(cmd_id, "about") {
        Some(PaletteAction::About)
    } else if str_eq(cmd_id, "fullscreen") {
        Some(PaletteAction::Fullscreen)
    } else if str_eq(cmd_id, "zoom_in") {
        Some(PaletteAction::ZoomIn)
    } else if str_eq(cmd_id, "zoom_out") {
        Some(PaletteAction::ZoomOut)
    } else if str_eq(cmd_id, "zoom_reset") {
        Some(PaletteAction::ZoomReset)
    } else if str_eq(cmd_id, "theme_default") {
        Some(PaletteAction::Theme("default"))
    } else if str_eq(cmd_id, "theme_catppuccin") {
        Some(PaletteAction::Theme("catppuccin"))
    } else if str_eq(cmd_id, "theme_one_dark") {
        Some(PaletteAction::Theme("one-dark"))
    } else if str_eq(cmd_id, "theme_solarized") {
        Some(PaletteAction::Theme("solarized-dark"))
    } else if str_eq(cmd_id, "theme_high_contrast") {
        Some(PaletteAction::Theme("high-contrast"))
    } else if str_eq(cmd_id, "open_config") {
        Some(PaletteAction::OpenConfig)
    } else if str_eq(cmd_id, "edit_config") {
        Some(PaletteAction::EditConfig)
    } else if str_eq(cmd_id, "split_right") {
        Some(PaletteAction::Split(Direction::Right))
    } else if str_eq(cmd_id, "split_down") {
        Some(PaletteAction::Split(Direction::Down))
    } else if str_eq(cmd_id, "split_left") {
        Some(PaletteAction::Split(Direction::Left))
    } else if str_eq(cmd_id, "split_top") {
        Some(PaletteAction::Split(Direction::Top))
    } else if str_eq(cmd_id, "focus_left") {
        Some(PaletteAction::Focus(Direction::Left))
    } else if str_eq(cmd_id, "focus_right") {
        Some(PaletteAction::Focus(Direction::Right))
    } else if str_eq(cmd_id, "focus_top") {
        Some(PaletteAction::Focus(Direction::Top))
    } else if str_eq(cmd_id, "focus_up") {
        Some(PaletteAction::Focus(Direction::Top))
    } else if str_eq(cmd_id, "focus_down") {
        Some(PaletteAction::Focus(Direction::Down))
    } else if str_eq(cmd_id, "close_pane") {
        Some(PaletteAction::ClosePane)
    } else if str_eq(cmd_id, "zoom_pane") {
        Some(PaletteAction::ZoomPane)
    } else if str_eq(cmd_id, "toggle_tab_sidebar") {
        Some(PaletteAction::ToggleTabSidebar)
    } else if str_eq(cmd_id, "toggle_ai_sidebar") {
        Some(PaletteAction::ToggleAiSidebar)
    } else if str_eq(cmd_id, "layout_horizontal") {
        Some(PaletteAction::Layout(TabLayout::Horizontal))
    } else if str_eq(cmd_id, "layout_vertical") {
        Some(PaletteAction::Layout(TabLayout::Vertical))
    } else if str_eq(cmd_id, "quit") {
        Some(PaletteAction::Quit)
    } else {
        None
    }
}

} // verus!
