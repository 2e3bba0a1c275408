use vstd::prelude::*;

use crate::ai::AiState;
use crate::chat::{conversation_bytes, conversation_size, is_user_message, spec_can_submit};
use crate::prompt::AttachmentRead;
use crate::text::{trim_str, trimmed};
use crate::view::{without_pane, RootView};

verus! {

/// A prompt taken from the assistant's input: the trimmed text and the
/// attached files, which the UI reads (references, attachments) and sends.
#[derive(Debug)]
pub struct AiPrompt {
    pub text: String,
    pub attachments: Vec<std::path::PathBuf>,
}

/// The token usage the context bar shows: this conversation's so far
/// (finished turns plus the running one), else the last reported one.
pub open spec fn spec_context_usage(
    accumulated: (u64, u64),
    current: (u64, u64),
    last: Option<(u64, u64)>,
) -> Option<(int, int)> {
    let total_in = accumulated.0 + current.0;
    let total_out = accumulated.1 + current.1;
    if total_in > 0 || total_out > 0 {
        Some((total_in, total_out))
    } else {
        match last {
            Some((i, o)) => Some((i as int, o as int)),
            None => None,
        }
    }
}

/// The tokens the context bar counts as used: input plus output of the
/// usage shown, else a quarter of the conversation's bytes.
pub open spec fn spec_context_tokens(
    accumulated: (u64, u64),
    current: (u64, u64),
    last: Option<(u64, u64)>,
    bytes: nat,
) -> int {
    match spec_context_usage(accumulated, current, last) {
        Some((i, o)) => i + o,
        None => (bytes / 4) as int,
    }
}

/// The attachments that `reads` marks as images (`image`) or as documents,
/// among the first `n`, in order.
pub open spec fn kind_paths(
    paths: Seq<std::path::PathBuf>,
    reads: Seq<AttachmentRead>,
    image: bool,
    n: nat,
) -> Seq<std::path::PathBuf>
    decreases n,
{
    if n == 0 {
        Seq::empty()
    } else {
        let earlier = kind_paths(paths, reads, image, (n - 1) as nat);
        let kept = if image {
            reads[n - 1] is Image
        } else {
            reads[n - 1] is Document
        };
        if kept {
            earlier.push(paths[n - 1])
        } else {
            earlier
        }
    }
}

/// What sending the input does (see `AiState::take_prompt`), from the
/// assistant's state `before` to `after`, answering `r`.
pub open spec fn prompt_taken(
    before: AiState,
    after: AiState,
    r: Option<AiPrompt>,
    timestamp: Seq<char>,
    reads: Seq<AttachmentRead>,
) -> bool {
    let t = trimmed(before.ai_input_text@);
    let files = before.ai_attached_files@;
    if spec_can_submit(t, files.len(), before.ai_is_streaming) {
        &&& r matches Some(p) && p.text@ == t && p.attachments@ == files
        &&& after.ai_input_text@.len() == 0
        &&& after.ai_attached_files@.len() == 0
        &&& after.ai_messages@.drop_last() == before.ai_messages@
        &&& after.ai_messages@.len() == before.ai_messages@.len() + 1
        &&& is_user_message(
            after.ai_messages@.last(),
            t,
            timestamp,
            kind_paths(files, reads, true, files.len()),
            kind_paths(files, reads, false, files.len()),
        )
        &&& after == (AiState {
            ai_input_text: after.ai_input_text,
            ai_attached_files: after.ai_attached_files,
            ai_messages: after.ai_messages,
            ai_is_streaming: true,
            ai_at_menu_open: false,
            ai_streaming_text: after.ai_streaming_text,
            ai_streaming_thinking: after.ai_streaming_thinking,
            ai_pending_text: after.ai_pending_text,
            ai_pending_thinking: after.ai_pending_thinking,
            ..before
        })
        &&& after.ai_streaming_text@.len() == 0
        &&& after.ai_streaming_thinking@.len() == 0
        &&& after.ai_pending_text@.len() == 0
        &&& after.ai_pending_thinking@.len() == 0
    } else {
        r is None && after == before
    }
}

/// Copies a path (std's `Clone` for `PathBuf`): the copy names the same path.
#[verifier::external_body]
fn copy_path(p: &std::path::PathBuf) -> (r: std::path::PathBuf)
    ensures
        r == *p,
{
    p.clone()
}

impl AiState {
    /// The counters of the context bar fit their machine integers.
    pub open spec fn context_fits(&self) -> bool {
        &&& self.ai_accumulated_usage.0 + self.ai_current_turn_usage.0 + self.ai_accumulated_usage.1
            + self.ai_current_turn_usage.1 <= u64::MAX
        &&& (self.ai_last_usage matches Some((i, o)) ==> i + o <= u64::MAX)
        &&& conversation_bytes(self.ai_messages@) <= usize::MAX
    }

    /// The context bar's figures: the tokens counted as used, and the usage
    /// shown (see `spec_context_tokens`).
    pub fn context_tokens(&self) -> (r: (u64, Option<(u64, u64)>))
        requires
            self.context_fits(),
        ensures
            r.0 == spec_context_tokens(
                self.ai_accumulated_usage,
                self.ai_current_turn_usage,
                self.ai_last_usage,
                conversation_bytes(self.ai_messages@),
            ),
            match r.1 {
                Some((i, o)) => spec_context_usage(
                    self.ai_accumulated_usage,
                    self.ai_current_turn_usage,
                    self.ai_last_usage,
                ) == Some((i as int, o as int)),
                None => spec_context_usage(
                    self.ai_accumulated_usage,
                    self.ai_current_turn_usage,
                    self.ai_last_usage,
                ) is None,
            },
    {
        let total_in = self.ai_accumulated_usage.0 + self.ai_current_turn_usage.0;
        let total_out = self.ai_accumulated_usage.1 + self.ai_current_turn_usage.1;
        let usage = if total_in > 0 || total_out > 0 {
            Some((total_in, total_out))
        } else {
            self.ai_last_usage
        };
        match usage {
            Some((i, o)) => (i + o, usage),
            None => {
                let bytes = conversation_size(&self.ai_messages);
                ((bytes / 4) as u64, usage)
            },
        }
    }

    /// Sends what was typed: with text (after trimming) or attachments, and
    /// no answer streaming, the input and the attachments are taken (and
    /// cleared), the `@` menu closes, and the user's message joins the
    /// conversation with the images and documents among the attachments
    /// (`reads` says what each attachment was found to be) as a turn starts
    /// (see `begin_turn`); otherwise nothing changes.
    pub fn take_prompt(
        &mut self,
        timestamp: &str,
        reads: &Vec<AttachmentRead>,
    ) -> (r: Option<AiPrompt>)
        requires
            reads@.len() == old(self).ai_attached_files@.len(),
        ensures
            prompt_taken(*old(self), *final(self), r, timestamp@, reads@),
    {
        let text = trim_str(self.ai_input_text.as_str());
        let can = (text.as_str().unicode_len() > 0 || self.ai_attached_files.len() > 0)
            && !self.ai_is_streaming;
        if !can {
            return None;
        }
        let ghost files = self.ai_attached_files@;
        let mut images: Vec<std::path::PathBuf> = Vec::new();
        let mut documents: Vec<std::path::PathBuf> = Vec::new();
        let mut i: usize = 0;
        while i < self.ai_attached_files.len()
            invariant
                i <= files.len(),
                self.ai_attached_files@ == files,
                reads@.len() == files.len(),
                images@ == kind_paths(files, reads@, true, i as nat),
                documents@ == kind_paths(files, reads@, false, i as nat),
            decreases files.len() - i,
        {
            match &reads[i] {
                AttachmentRead::Image => {
                    images.push(copy_path(&self.ai_attached_files[i]));
                },
                AttachmentRead::Document => {
                    documents.push(copy_path(&self.ai_attached_files[i]));
                },
                _ => {},
            }
            i = i + 1;
        }
        self.ai_input_text = String::new();
        let mut attachments: Vec<std::path::PathBuf> = Vec::new();
        std::mem::swap(&mut attachments, &mut self.ai_attached_files);
        let message = text.clone();
        self.begin_turn(message, timestamp, images, documents);
        Some(AiPrompt { text, attachments })
    }

    /// Starts a new conversation: the running answer stops, and the
    /// messages, streamed and waiting text, expanded thinkings,
    /// attachments, input, `@` menu, token usage and message selection are
    /// all cleared.
    pub fn new_chat(&mut self)
        requires
            old(self).ai_accumulated_usage.0 + old(self).ai_current_turn_usage.0 <= u64::MAX,
            old(self).ai_accumulated_usage.1 + old(self).ai_current_turn_usage.1 <= u64::MAX,
        ensures
            final(self).ai_messages@.len() == 0,
            final(self).ai_streaming_text@.len() == 0,
            final(self).ai_streaming_thinking@.len() == 0,
            final(self).ai_pending_text@.len() == 0,
            final(self).ai_pending_thinking@.len() == 0,
            final(self).ai_expanded_thinkings@.len() == 0,
            final(self).ai_attached_files@.len() == 0,
            final(self).ai_input_text@.len() == 0,
            !final(self).ai_at_menu_open,
            !final(self).ai_is_streaming,
            !final(self).ai_has_pending_confirmation,
            final(self).ai_last_usage is None,
            final(self).ai_accumulated_usage == (0u64, 0u64),
            final(self).ai_current_turn_usage == (0u64, 0u64),
            final(self).ai_message_selection is None,
            final(self).ai_message_selection_anchor is None,
            final(self).ai_sidebar_open == old(self).ai_sidebar_open,
            final(self).ai_input_focused == old(self).ai_input_focused,
    {
        self.cancel_ai_stream();
        self.ai_messages = Vec::new();
        self.ai_streaming_text = String::new();
        self.ai_streaming_thinking = String::new();
        self.ai_pending_text = String::new();
        self.ai_pending_thinking = String::new();
        self.ai_expanded_thinkings = Vec::new();
        self.ai_attached_files = Vec::new();
        self.ai_at_menu_open = false;
        self.ai_input_text = String::new();
        self.ai_last_usage = None;
        self.ai_accumulated_usage = (0, 0);
        self.ai_current_turn_usage = (0, 0);
        self.ai_message_selection = None;
        self.ai_message_selection_anchor = None;
    }

    /// A press on character `target` of message `msg` starts selecting
    /// text there (and focuses the sidebar).
    pub fn select_message_char(&mut self, msg: usize, target: usize)
        ensures
            *final(self) == (AiState {
                ai_input_focused: true,
                ai_message_selection_anchor: Some((msg, target)),
                ai_message_selection: Some((msg, target, target)),
                is_dragging_message_selection: true,
                ..*old(self)
            }),
    {
        self.ai_input_focused = true;
        self.ai_message_selection_anchor = Some((msg, target));
        self.ai_message_selection = Some((msg, target, target));
        self.is_dragging_message_selection = true;
    }

    /// Dragging over character `target` of message `msg`: within the
    /// message where the selection started, it runs between the anchor and
    /// `target`, whichever comes first.
    pub fn drag_message_char(&mut self, msg: usize, target: usize)
        ensures
            match old(self).ai_message_selection_anchor {
                Some((am, ac)) => if old(self).is_dragging_message_selection && am == msg {
                    *final(self) == (AiState {
                        ai_message_selection: Some((
                            msg,
                            if ac <= target {
                                ac
                            } else {
                                target
                            },
                            if ac <= target {
                                target
                            } else {
                                ac
                            },
                        )),
                        ..*old(self)
                    })
                } else {
                    *final(self) == *old(self)
                },
                None => *final(self) == *old(self),
            },
    {
        if self.is_dragging_message_selection {
            if let Some((am, ac)) = self.ai_message_selection_anchor {
                if am == msg {
                    let s = if ac <= target {
                        ac
                    } else {
                        target
                    };
                    let e = if ac <= target {
                        target
                    } else {
                        ac
                    };
                    self.ai_message_selection = Some((msg, s, e));
                }
            }
        }
    }

    /// Shows or hides the thinking of message `idx`.
    pub fn toggle_thinking(&mut self, idx: usize)
        ensures
            final(self).ai_expanded_thinkings@ == (if old(self).ai_expanded_thinkings@.contains(idx) {
                old(self).ai_expanded_thinkings@.filter(|p: usize| p != idx)
            } else {
                old(self).ai_expanded_thinkings@.push(idx)
            }),
            final(self).ai_expanded_thinkings@.contains(idx) != old(self).ai_expanded_thinkings@.contains(idx),
            *final(self) == (AiState { ai_expanded_thinkings: final(self).ai_expanded_thinkings, ..*old(self) }),
    {
        let mut found = false;
        let mut k: usize = 0;
        while k < self.ai_expanded_thinkings.len()
            invariant
                k <= self.ai_expanded_thinkings@.len(),
                found == (exists|j: int| 0 <= j < k && #[trigger] self.ai_expanded_thinkings@[j] == idx),
            decreases self.ai_expanded_thinkings@.len() - k,
        {
            if self.ai_expanded_thinkings[k] == idx {
                found = true;
            }
            k = k + 1;
        }
        if found {
            self.ai_expanded_thinkings = without_pane(&self.ai_expanded_thinkings, idx);
        } else {
            self.ai_expanded_thinkings.push(idx);
            assert(self.ai_expanded_thinkings@.last() == idx);
        }
    }

    /// Drops attachment `idx` (nothing for a position past the list).
    pub fn remove_attachment(&mut self, idx: usize)
        ensures
            final(self).ai_attached_files@ == (if idx < old(self).ai_attached_files@.len() {
                old(self).ai_attached_files@.remove(idx as int)
            } else {
                old(self).ai_attached_files@
            }),
            *final(self) == (AiState { ai_attached_files: final(self).ai_attached_files, ..*old(self) }),
    {
        if idx < self.ai_attached_files.len() {
            let _ = self.ai_attached_files.remove(idx);
        }
    }
}

impl<F> RootView<F> {
    /// Submits the assistant's input (see `AiState::take_prompt`): the
    /// prompt taken, for the UI to add referenced and attached files to and
    /// send; the workspace and the overlays stay as they are.
    pub fn submit_ai_prompt(
        &mut self,
        timestamp: &str,
        reads: &Vec<AttachmentRead>,
    ) -> (r: Option<AiPrompt>)
        requires
            reads@.len() == old(self).ai.ai_attached_files@.len(),
        ensures
            prompt_taken(old(self).ai, final(self).ai, r, timestamp@, reads@),
            final(self).workspace == old(self).workspace,
            final(self).overlays == old(self).overlays,
    {
        self.ai.take_prompt(timestamp, reads)
    }
}

} // verus!
