# fastty

The window logic of the Fastty terminal emulator, written in Verus: the
functions in `src/` carry `requires`/`ensures` contracts that Verus proves,
except five small wrappers around std calls (`str::to_lowercase`,
collecting characters into a `String`, `char::is_alphanumeric`,
`Path::file_name`, cloning a `PathBuf`), marked `external_body`, whose
contracts are trusted.

## Layout

- `src/` — the verified library.
  - `view.rs`, `nav.rs`, `pane_events.rs`, `startup.rs`: tabs, panes, zoom,
    closing with confirmation, renaming, session startup.
  - `overlays.rs`, `pickers.rs`, `keys.rs`, `termkeys.rs`: menus and pickers,
    where a key press goes and what it does, the bytes sent to the terminal.
  - `palette.rs`, `preview.rs`: the command palette, its live previews and
    how cancelling one restores the look.
  - `mouse.rs`, `selection.rs`, `spans.rs`, `colors.rs`, `rows.rs`: grid
    hit-testing, text selection, terminal colours, and the rows of styled
    spans a pane draws with their search highlights and images.
  - `tabbar.rs`, `lists.rs`: tab bar entries, zoom and tab detaching; the
    rows each picker lists for its query; the close-confirmation text.
  - `glyphs.rs`, `fonts.rs`, `fontlist.rs`: box drawing and block glyphs,
    Nerd Font detection, font lists read from `fc-list` and the registry.
  - `ai.rs`, `chat.rs`, `prompt.rs`, `sidebar.rs`, `streaming.rs`: the
    assistant sidebar, its `@` file menu, sending a prompt with its
    references and attachments, turns, the context bar and the
    streamed-text animation.
  - `search.rs`, `pr.rs`, `update.rs`, `text.rs`, `sorting.rs`: multi-tab
    search, the pull-request picker, self-update states and helpers.
- `app/` — the unverified shell around it: pixel geometry in floats, the
  terminal grid, git and file listing, notifications and process spawning.
- `tests/` — tests of the library on concrete values.

Properties that relate several operations (such as cancelling a preview
restoring the look, or closing a tab just added restoring the window) are
public proof functions named `lemma_*`.
