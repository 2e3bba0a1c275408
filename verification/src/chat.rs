use vstd::prelude::*;
use vstd::string::StringExecFns;
use vstd::utf8::encode_utf8;

use crate::ai::{ai_error_message, spec_ai_error_message, AiState};

verus! {

/// A tool the assistant ran, as the sidebar shows it.
#[derive(Debug)]
pub struct ChatToolCall {
    pub id: String,
    pub name: String,
    pub args: String,
    pub output: Option<String>,
    pub is_error: bool,
    pub is_running: bool,
    pub diff: Option<String>,
}

/// A message of the sidebar's conversation.
#[derive(Debug)]
pub struct ChatMessage {
    pub is_user: bool,
    pub text: String,
    pub thinking: Option<String>,
    pub tool_calls: Vec<ChatToolCall>,
    pub timestamp: Option<String>,
    pub images: Vec<std::path::PathBuf>,
    pub documents: Vec<std::path::PathBuf>,
    pub is_error: bool,
}

/// `m` is a message of the user's with this text, time and attached images
/// and documents, no thinking or tool calls, not an error.
pub open spec fn is_user_message(
    m: ChatMessage,
    text: Seq<char>,
    timestamp: Seq<char>,
    images: Seq<std::path::PathBuf>,
    documents: Seq<std::path::PathBuf>,
) -> bool {
    &&& m.is_user
    &&& m.text@ == text
    &&& m.thinking is None
    &&& m.tool_calls@.len() == 0
    &&& m.timestamp matches Some(ts) && ts@ == timestamp
    &&& m.images@ == images
    &&& m.documents@ == documents
    &&& !m.is_error
}

/// `m` is an assistant message with this text, thinking and tool calls, no
/// attachments, not an error.
pub open spec fn is_assistant_message(
    m: ChatMessage,
    text: Seq<char>,
    thinking: Option<Seq<char>>,
    tool_calls: Seq<ChatToolCall>,
    timestamp: Seq<char>,
) -> bool {
    &&& !m.is_user
    &&& m.text@ == text
    &&& (match m.thinking {
        Some(t) => thinking == Some(t@),
        None => thinking is None,
    })
    &&& m.tool_calls@ == tool_calls
    &&& m.timestamp matches Some(ts) && ts@ == timestamp
    &&& m.images@.len() == 0
    &&& m.documents@.len() == 0
    &&& !m.is_error
}

/// The text and thinking streamed so far, as a message: none when both
/// are empty; thinking only when there is some.
pub open spec fn streamed(text: Seq<char>, thinking: Seq<char>) -> Option<
    (Seq<char>, Option<Seq<char>>),
> {
    if text.len() == 0 && thinking.len() == 0 {
        None
    } else {
        Some(
            (
                text,
                if thinking.len() == 0 {
                    None
                } else {
                    Some(thinking)
                },
            ),
        )
    }
}

/// A running tool call with this id, name and arguments.
pub open spec fn is_started_call(c: ChatToolCall, id: Seq<char>, name: Seq<char>, args: Seq<char>) -> bool {
    &&& c.id@ == id
    &&& c.name@ == name
    &&& c.args@ == args
    &&& c.output is None
    &&& !c.is_error
    &&& c.is_running
    &&& c.diff is None
}

/// The position of the first call with this id, or -1.
pub open spec fn first_call_with_id(calls: Seq<ChatToolCall>, id: Seq<char>) -> int
    decreases calls.len(),
{
    if calls.len() == 0 {
        -1
    } else {
        let r = first_call_with_id(calls.drop_last(), id);
        if r >= 0 {
            r
        } else if calls.last().id@ == id {
            calls.len() - 1
        } else {
            -1
        }
    }
}

/// The position of the last message holding a call with this id, or -1.
pub open spec fn last_message_with_call(msgs: Seq<ChatMessage>, id: Seq<char>) -> int
    decreases msgs.len(),
{
    if msgs.len() == 0 {
        -1
    } else if first_call_with_id(msgs.last().tool_calls@, id) >= 0 {
        msgs.len() - 1
    } else {
        last_message_with_call(msgs.drop_last(), id)
    }
}

/// A call after its tool ended with this output.
pub open spec fn is_ended_call(
    c: ChatToolCall,
    was: ChatToolCall,
    output: Seq<char>,
    is_error: bool,
    diff: Option<Seq<char>>,
) -> bool {
    &&& c.id == was.id
    &&& c.name == was.name
    &&& c.args == was.args
    &&& c.output matches Some(o) && o@ == output
    &&& c.is_error == is_error
    &&& !c.is_running
    &&& (match c.diff {
        Some(d) => diff == Some(d@),
        None => diff is None,
    })
}

/// The bytes of a conversation's texts and thinking (an estimate of its
/// size when the provider reports no input tokens).
pub open spec fn conversation_bytes(msgs: Seq<ChatMessage>) -> nat
    decreases msgs.len(),
{
    if msgs.len() == 0 {
        0
    } else {
        let m = msgs.last();
        conversation_bytes(msgs.drop_last()) + encode_utf8(m.text@).len() + match m.thinking {
            Some(t) => encode_utf8(t@).len(),
            None => 0,
        }
    }
}

/// The input tokens of a turn: as reported, else a quarter of the
/// conversation's bytes, at least 50.
pub open spec fn effective_input(input: u64, msgs: Seq<ChatMessage>) -> int {
    if input > 0 {
        input as int
    } else {
        let q = conversation_bytes(msgs) / 4;
        if q > 50 {
            q as int
        } else {
            50
        }
    }
}

/// The text of the bubble for a turn that ended with nothing to show.
pub open spec fn empty_turn_text() -> Seq<char> {
    "(Assistant completed turn with no content)"@
}

/// A message is something to send: text after trimming, or attachments;
/// and no answer is streaming.
pub open spec fn spec_can_submit(trimmed_text: Seq<char>, attachments: nat, streaming: bool) -> bool {
    (trimmed_text.len() > 0 || attachments > 0) && !streaming
}

/// The prompt sent with attachments: the written text, else a request to
/// describe them (a document is summarized, images are described).
pub open spec fn spec_attachment_prompt(trimmed_text: Seq<char>, text: Seq<char>, has_documents: bool) -> Seq<char> {
    if trimmed_text.len() > 0 {
        text
    } else if has_documents {
        "Analyze and summarize this document."@
    } else {
        "Describe this image and analyze its contents."@
    }
}

/// Whether a prompt can be sent (see `spec_can_submit`).
pub fn can_submit(trimmed_text: &str, attachments: usize, streaming: bool) -> (r: bool)
    ensures
        r == spec_can_submit(trimmed_text@, attachments as nat, streaming),
{
    (trimmed_text.unicode_len() > 0 || attachments > 0) && !streaming
}

/// The text sent to the model with attachments (see
/// `spec_attachment_prompt`; `trimmed_text` is `text` trimmed).
pub fn attachment_prompt(trimmed_text: &str, text: &str, has_documents: bool) -> (r: String)
    ensures
        r@ == spec_attachment_prompt(trimmed_text@, text@, has_documents),
{
    if trimmed_text.unicode_len() > 0 {
        text.to_owned()
    } else if has_documents {
        "Analyze and summarize this document.".to_owned()
    } else {
        "Describe this image and analyze its contents.".to_owned()
    }
}

fn take_string(s: &mut String) -> (r: String)
    ensures
        r@ == old(s)@,
        final(s)@.len() == 0,
{
    let mut out = String::new();
    std::mem::swap(&mut out, s);
    out
}

fn find_call(calls: &Vec<ChatToolCall>, id: &str) -> (r: Option<usize>)
    ensures
        r matches Some(k) ==> k < calls.len() && first_call_with_id(calls@, id@) == k,
        r is None ==> first_call_with_id(calls@, id@) == -1,
{
    let mut k: usize = 0;
    while k < calls.len()
        invariant
            k <= calls.len(),
            first_call_with_id(calls@.take(k as int), id@) == -1,
        decreases calls.len() - k,
    {
        proof {
            assert(calls@.take(k + 1).drop_last() =~= calls@.take(k as int));
            assert(calls@.take(k + 1).last() == calls@[k as int]);
        }
        if crate::text::str_eq(calls[k].id.as_str(), id) {
            proof {
                lemma_first_call_prefix(calls@, id@, k + 1);
            }
            return Some(k);
        }
        k = k + 1;
    }
    assert(calls@.take(k as int) =~= calls@);
    None
}

proof fn lemma_first_call_prefix(calls: Seq<ChatToolCall>, id: Seq<char>, j: int)
    requires
        0 <= j <= calls.len(),
        first_call_with_id(calls.take(j), id) >= 0,
    ensures
        first_call_with_id(calls, id) == first_call_with_id(calls.take(j), id),
    decreases calls.len() - j,
{
    if j < calls.len() {
        assert(calls.take(j + 1).drop_last() =~= calls.take(j));
        lemma_first_call_prefix(calls, id, j + 1);
    } else {
        assert(calls.take(j) =~= calls);
    }
}

fn find_last_call(msgs: &Vec<ChatMessage>, id: &str) -> (r: Option<(usize, usize)>)
    ensures
        r is None ==> last_message_with_call(msgs@, id@) < 0,
        r matches Some((j, k)) ==> j < msgs.len() && last_message_with_call(msgs@, id@) == j
            && k < msgs@[j as int].tool_calls.len() && first_call_with_id(
            msgs@[j as int].tool_calls@,
            id@,
        ) == k,
{
    let mut j: usize = msgs.len();
    assert(msgs@.take(j as int) =~= msgs@);
    while j > 0
        invariant
            j <= msgs.len(),
            last_message_with_call(msgs@, id@) == last_message_with_call(msgs@.take(j as int), id@),
        decreases j,
    {
        let found = find_call(&msgs[j - 1].tool_calls, id);
        proof {
            assert(msgs@.take(j as int).drop_last() =~= msgs@.take(j - 1));
            assert(msgs@.take(j as int).last() == msgs@[j - 1]);
        }
        match found {
            Some(k) => {
                return Some((j - 1, k));
            },
            None => {},
        }
        j = j - 1;
    }
    assert(msgs@.take(0) =~= Seq::<ChatMessage>::empty());
    None
}

pub(crate) fn conversation_size(msgs: &Vec<ChatMessage>) -> (r: usize)
    requires
        conversation_bytes(msgs@) <= usize::MAX,
    ensures
        r == conversation_bytes(msgs@),
{
    let mut total: usize = 0;
    let mut i: usize = 0;
    while i < msgs.len()
        invariant
            i <= msgs.len(),
            conversation_bytes(msgs@) <= usize::MAX,
            total == conversation_bytes(msgs@.take(i as int)),
        decreases msgs.len() - i,
    {
        proof {
            assert(msgs@.take(i + 1).drop_last() =~= msgs@.take(i as int));
            assert(msgs@.take(i + 1).last() == msgs@[i as int]);
            lemma_conversation_bytes_prefix(msgs@, i + 1);
        }
        let m = &msgs[i];
        let t = m.text.as_str().as_bytes().len();
        let th = match &m.thinking {
            Some(x) => x.as_str().as_bytes().len(),
            None => 0,
        };
        total = total + t + th;
        i = i + 1;
    }
    assert(msgs@.take(i as int) =~= msgs@);
    total
}

proof fn lemma_conversation_bytes_prefix(msgs: Seq<ChatMessage>, j: int)
    requires
        0 <= j <= msgs.len(),
    ensures
        conversation_bytes(msgs.take(j)) <= conversation_bytes(msgs),
    decreases msgs.len() - j,
{
    if j < msgs.len() {
        assert(msgs.take(j + 1).drop_last() =~= msgs.take(j));
        lemma_conversation_bytes_prefix(msgs, j + 1);
    } else {
        assert(msgs.take(j) =~= msgs);
    }
}

impl AiState {
    /// The conversation fields an event leaves alone.
    pub open spec fn same_sidebar(&self, old: &AiState) -> bool {
        &&& self.ai_sidebar_open == old.ai_sidebar_open
        &&& self.ai_input_focused == old.ai_input_focused
        &&& self.ai_at_menu_open == old.ai_at_menu_open
        &&& self.ai_has_pending_confirmation == old.ai_has_pending_confirmation
    }

    /// A streamed piece of the answer waits to be revealed.
    pub fn text_delta(&mut self, delta: &str)
        ensures
            final(self).ai_pending_text@ == old(self).ai_pending_text@ + delta@,
            final(self).ai_pending_thinking == old(self).ai_pending_thinking,
            final(self).ai_streaming_text == old(self).ai_streaming_text,
            final(self).ai_messages == old(self).ai_messages,
            final(self).ai_is_streaming == old(self).ai_is_streaming,
            final(self).ai_current_turn_usage == old(self).ai_current_turn_usage,
            final(self).same_sidebar(&*old(self)),
    {
        self.ai_pending_text.append(delta);
    }

    /// A streamed piece of the model's thinking waits to be revealed.
    pub fn thinking_delta(&mut self, delta: &str)
        ensures
            final(self).ai_pending_thinking@ == old(self).ai_pending_thinking@ + delta@,
            final(self).ai_pending_text == old(self).ai_pending_text,
            final(self).ai_streaming_thinking == old(self).ai_streaming_thinking,
            final(self).ai_messages == old(self).ai_messages,
            final(self).ai_is_streaming == old(self).ai_is_streaming,
            final(self).same_sidebar(&*old(self)),
    {
        self.ai_pending_thinking.append(delta);
    }

    /// Reveals all waiting text and thinking at once.
    fn flush_pending(&mut self)
        ensures
            final(self).ai_streaming_text@ == old(self).ai_streaming_text@ + old(self).ai_pending_text@,
            final(self).ai_streaming_thinking@ == old(self).ai_streaming_thinking@
                + old(self).ai_pending_thinking@,
            final(self).ai_pending_text@.len() == 0,
            final(self).ai_pending_thinking@.len() == 0,
            final(self).ai_messages == old(self).ai_messages,
            final(self).ai_is_streaming == old(self).ai_is_streaming,
            final(self).ai_last_usage == old(self).ai_last_usage,
            final(self).ai_accumulated_usage == old(self).ai_accumulated_usage,
            final(self).ai_current_turn_usage == old(self).ai_current_turn_usage,
            final(self).same_sidebar(&*old(self)),
    {
        self.ai_streaming_text.append(self.ai_pending_text.as_str());
        self.ai_pending_text = String::new();
        self.ai_streaming_thinking.append(self.ai_pending_thinking.as_str());
        self.ai_pending_thinking = String::new();
    }

    /// Adds this turn's token usage to the conversation's.
    fn bank_turn_usage(&mut self)
        requires
            old(self).ai_accumulated_usage.0 + old(self).ai_current_turn_usage.0 <= u64::MAX,
            old(self).ai_accumulated_usage.1 + old(self).ai_current_turn_usage.1 <= u64::MAX,
        ensures
            final(self).ai_accumulated_usage == (
                (old(self).ai_accumulated_usage.0 + old(self).ai_current_turn_usage.0) as u64,
                (old(self).ai_accumulated_usage.1 + old(self).ai_current_turn_usage.1) as u64,
            ),
            final(self).ai_current_turn_usage == (0u64, 0u64),
            final(self).ai_last_usage == old(self).ai_last_usage,
            final(self).ai_streaming_text == old(self).ai_streaming_text,
            final(self).ai_streaming_thinking == old(self).ai_streaming_thinking,
            final(self).ai_pending_text == old(self).ai_pending_text,
            final(self).ai_pending_thinking == old(self).ai_pending_thinking,
            final(self).ai_messages == old(self).ai_messages,
            final(self).ai_is_streaming == old(self).ai_is_streaming,
            final(self).same_sidebar(&*old(self)),
    {
        self.ai_accumulated_usage.0 = self.ai_accumulated_usage.0 + self.ai_current_turn_usage.0;
        self.ai_accumulated_usage.1 = self.ai_accumulated_usage.1 + self.ai_current_turn_usage.1;
        self.ai_current_turn_usage = (0, 0);
    }

    /// Takes the streamed text and thinking as an assistant message, if
    /// there is any; both are then empty.
    fn take_streamed(&mut self, timestamp: &str) -> (r: Option<ChatMessage>)
        ensures
            match streamed(old(self).ai_streaming_text@, old(self).ai_streaming_thinking@) {
                None => r is None,
                Some((t, th)) => r matches Some(m) && is_assistant_message(
                    m,
                    t,
                    th,
                    Seq::empty(),
                    timestamp@,
                ),
            },
            final(self).ai_streaming_text@.len() == 0,
            final(self).ai_streaming_thinking@.len() == 0,
            final(self).ai_pending_text == old(self).ai_pending_text,
            final(self).ai_pending_thinking == old(self).ai_pending_thinking,
            final(self).ai_messages == old(self).ai_messages,
            final(self).ai_is_streaming == old(self).ai_is_streaming,
            final(self).ai_last_usage == old(self).ai_last_usage,
            final(self).ai_accumulated_usage == old(self).ai_accumulated_usage,
            final(self).ai_current_turn_usage == old(self).ai_current_turn_usage,
            final(self).same_sidebar(&*old(self)),
    {
        let text = take_string(&mut self.ai_streaming_text);
        let thinking = if self.ai_streaming_thinking.as_str().unicode_len() == 0 {
            None
        } else {
            Some(take_string(&mut self.ai_streaming_thinking))
        };
        self.ai_streaming_thinking = String::new();
        if text.as_str().unicode_len() > 0 || thinking.is_some() {
            Some(
                ChatMessage {
                    is_user: false,
                    text,
                    thinking,
                    tool_calls: Vec::new(),
                    timestamp: Some(timestamp.to_owned()),
                    images: Vec::new(),
                    documents: Vec::new(),
                    is_error: false,
                },
            )
        } else {
            None
        }
    }

    /// The model started a tool. This turn's usage is banked and shown;
    /// everything streamed so far becomes an assistant message; the call is
    /// added, running, to the last message when that is the assistant's,
    /// else in a new assistant message after the user's (with no message
    /// at all it is not shown).
    pub fn tool_start(&mut self, id: String, name: String, args: String, timestamp: &str)
        requires
            old(self).ai_accumulated_usage.0 + old(self).ai_current_turn_usage.0 <= u64::MAX,
            old(self).ai_accumulated_usage.1 + old(self).ai_current_turn_usage.1 <= u64::MAX,
        ensures
            final(self).ai_accumulated_usage == (
                (old(self).ai_accumulated_usage.0 + old(self).ai_current_turn_usage.0) as u64,
                (old(self).ai_accumulated_usage.1 + old(self).ai_current_turn_usage.1) as u64,
            ),
            final(self).ai_current_turn_usage == (0u64, 0u64),
            final(self).ai_last_usage == Some(final(self).ai_accumulated_usage),
            final(self).ai_pending_text@.len() == 0,
            final(self).ai_pending_thinking@.len() == 0,
            final(self).ai_streaming_text@.len() == 0,
            final(self).ai_streaming_thinking@.len() == 0,
            final(self).ai_is_streaming == old(self).ai_is_streaming,
            final(self).same_sidebar(&*old(self)),
            ({
                let old_msgs = old(self).ai_messages@;
                let st = streamed(
                    old(self).ai_streaming_text@ + old(self).ai_pending_text@,
                    old(self).ai_streaming_thinking@ + old(self).ai_pending_thinking@,
                );
                let msgs = final(self).ai_messages@;
                match st {
                    Some((t, th)) => {
                        &&& msgs.len() == old_msgs.len() + 1
                        &&& msgs.take(old_msgs.len() as int) == old_msgs
                        &&& is_assistant_message(msgs.last(), t, th, msgs.last().tool_calls@, timestamp@)
                        &&& msgs.last().tool_calls@.len() == 1
                        &&& is_started_call(msgs.last().tool_calls@[0], id@, name@, args@)
                    },
                    None => if old_msgs.len() == 0 {
                        msgs == old_msgs
                    } else if old_msgs.last().is_user {
                        &&& msgs.len() == old_msgs.len() + 1
                        &&& msgs.take(old_msgs.len() as int) == old_msgs
                        &&& is_assistant_message(msgs.last(), Seq::empty(), None, msgs.last().tool_calls@, timestamp@)
                        &&& msgs.last().tool_calls@.len() == 1
                        &&& is_started_call(msgs.last().tool_calls@[0], id@, name@, args@)
                    } else {
                        &&& msgs.len() == old_msgs.len()
                        &&& msgs.drop_last() == old_msgs.drop_last()
                        &&& msgs.last().tool_calls@.drop_last() == old_msgs.last().tool_calls@
                        &&& msgs.last().tool_calls@.len() == old_msgs.last().tool_calls@.len() + 1
                        &&& is_started_call(msgs.last().tool_calls@.last(), id@, name@, args@)
                        &&& msgs.last().text == old_msgs.last().text
                        &&& msgs.last().thinking == old_msgs.last().thinking
                        &&& msgs.last().is_user == old_msgs.last().is_user
                        &&& msgs.last().timestamp == old_msgs.last().timestamp
                        &&& msgs.last().is_error == old_msgs.last().is_error
                    },
                }
            }),
    {
        self.bank_turn_usage();
        self.ai_last_usage = Some(self.ai_accumulated_usage);
        self.flush_pending();
        let call = ChatToolCall {
            id,
            name,
            args,
            output: None,
            is_error: false,
            is_running: true,
            diff: None,
        };
        match self.take_streamed(timestamp) {
            Some(mut m) => {
                m.tool_calls.push(call);
                self.ai_messages.push(m);
            },
            None => {
                let n = self.ai_messages.len();
                if n == 0 {
                    return;
                }
                if self.ai_messages[n - 1].is_user {
                    let mut calls = Vec::new();
                    calls.push(call);
                    self.ai_messages.push(
                        ChatMessage {
                            is_user: false,
                            text: String::new(),
                            thinking: None,
                            tool_calls: calls,
                            timestamp: Some(timestamp.to_owned()),
                            images: Vec::new(),
                            documents: Vec::new(),
                            is_error: false,
                        },
                    );
                } else {
                    let mut last = self.ai_messages.pop().unwrap();
                    last.tool_calls.push(call);
                    self.ai_messages.push(last);
                }
            },
        }
    }

    /// A tool ended: the first call with this id in the last message that
    /// has one gets the output, error flag and diff, and stops running;
    /// an unknown id changes nothing.
    pub fn tool_end(&mut self, id: &str, output: String, is_error: bool, diff: Option<String>)
        ensures
            ({
                let old_msgs = old(self).ai_messages@;
                let msgs = final(self).ai_messages@;
                let mi = last_message_with_call(old_msgs, id@);
                if mi < 0 {
                    msgs == old_msgs
                } else {
                    let ci = first_call_with_id(old_msgs[mi].tool_calls@, id@);
                    let calls = msgs[mi].tool_calls@;
                    let was = old_msgs[mi].tool_calls@;
                    &&& msgs.len() == old_msgs.len()
                    &&& forall|j: int| 0 <= j < msgs.len() && j != mi ==> msgs[j] == old_msgs[j]
                    &&& calls.len() == was.len()
                    &&& 0 <= ci < calls.len()
                    &&& forall|k: int| 0 <= k < calls.len() && k != ci ==> calls[k] == was[k]
                    &&& is_ended_call(calls[ci], was[ci], output@, is_error, match diff {
                        Some(d) => Some(d@),
                        None => None,
                    })
                    &&& msgs[mi].text == old_msgs[mi].text
                    &&& msgs[mi].thinking == old_msgs[mi].thinking
                    &&& msgs[mi].is_user == old_msgs[mi].is_user
                    &&& msgs[mi].timestamp == old_msgs[mi].timestamp
                    &&& msgs[mi].is_error == old_msgs[mi].is_error
                }
            }),
            final(self).ai_streaming_text == old(self).ai_streaming_text,
            final(self).ai_pending_text == old(self).ai_pending_text,
            final(self).ai_is_streaming == old(self).ai_is_streaming,
            final(self).ai_last_usage == old(self).ai_last_usage,
            final(self).same_sidebar(&*old(self)),
    {
        let ghost old_msgs = self.ai_messages@;
        match find_last_call(&self.ai_messages, id) {
            None => {},
            Some((j, k)) => {
                let mut m = self.ai_messages.remove(j);
                let mut c = m.tool_calls.remove(k);
                c.output = Some(output);
                c.is_error = is_error;
                c.is_running = false;
                c.diff = diff;
                let ghost mc = m.tool_calls@;
                m.tool_calls.insert(k, c);
                self.ai_messages.insert(j, m);
                proof {
                    let msgs = self.ai_messages@;
                    let calls = msgs[j as int].tool_calls@;
                    let was = old_msgs[j as int].tool_calls@;
                    assert forall|q: int| 0 <= q < msgs.len() && q != j implies #[trigger] msgs[q]
                        == old_msgs[q] by {}
                    assert forall|q: int| 0 <= q < calls.len() && q != k implies #[trigger] calls[q]
                        == was[q] by {
                        if q < k {
                            assert(mc[q] == was[q]);
                        } else {
                            assert(mc[q - 1] == was[q]);
                        }
                    }
                }
            },
        }
    }

    /// The answer's turn ended. This turn's usage is banked and shown;
    /// everything streamed becomes an assistant message; a turn that showed
    /// nothing and ran no tool in the last message gets a placeholder
    /// bubble. The answer stops streaming.
    pub fn turn_end(&mut self, timestamp: &str)
        requires
            old(self).ai_accumulated_usage.0 + old(self).ai_current_turn_usage.0 <= u64::MAX,
            old(self).ai_accumulated_usage.1 + old(self).ai_current_turn_usage.1 <= u64::MAX,
        ensures
            final(self).ai_accumulated_usage == (
                (old(self).ai_accumulated_usage.0 + old(self).ai_current_turn_usage.0) as u64,
                (old(self).ai_accumulated_usage.1 + old(self).ai_current_turn_usage.1) as u64,
            ),
            final(self).ai_current_turn_usage == (0u64, 0u64),
            final(self).ai_last_usage == Some(final(self).ai_accumulated_usage),
            final(self).ai_pending_text@.len() == 0,
            final(self).ai_pending_thinking@.len() == 0,
            final(self).ai_streaming_text@.len() == 0,
            final(self).ai_streaming_thinking@.len() == 0,
            !final(self).ai_is_streaming,
            final(self).same_sidebar(&*old(self)),
            ({
                let old_msgs = old(self).ai_messages@;
                let msgs = final(self).ai_messages@;
                let st = streamed(
                    old(self).ai_streaming_text@ + old(self).ai_pending_text@,
                    old(self).ai_streaming_thinking@ + old(self).ai_pending_thinking@,
                );
                let last_ran_tools = old_msgs.len() > 0 && !old_msgs.last().is_user
                    && old_msgs.last().tool_calls@.len() > 0;
                match st {
                    Some((t, th)) => {
                        &&& msgs.len() == old_msgs.len() + 1
                        &&& msgs.drop_last() == old_msgs
                        &&& is_assistant_message(msgs.last(), t, th, Seq::empty(), timestamp@)
                    },
                    None => if last_ran_tools {
                        msgs == old_msgs
                    } else {
                        &&& msgs.len() == old_msgs.len() + 1
                        &&& msgs.drop_last() == old_msgs
                        &&& is_assistant_message(msgs.last(), empty_turn_text(), None, Seq::empty(), timestamp@)
                    },
                }
            }),
    {
        self.bank_turn_usage();
        self.ai_last_usage = Some(self.ai_accumulated_usage);
        self.flush_pending();
        let n = self.ai_messages.len();
        let last_ran_tools = n > 0 && !self.ai_messages[n - 1].is_user
            && self.ai_messages[n - 1].tool_calls.len() > 0;
        match self.take_streamed(timestamp) {
            Some(m) => {
                self.ai_messages.push(m);
            },
            None => {
                if !last_ran_tools {
                    self.ai_messages.push(
                        ChatMessage {
                            is_user: false,
                            text: "(Assistant completed turn with no content)".to_owned(),
                            thinking: None,
                            tool_calls: Vec::new(),
                            timestamp: Some(timestamp.to_owned()),
                            images: Vec::new(),
                            documents: Vec::new(),
                            is_error: false,
                        },
                    );
                }
            },
        }
        self.ai_is_streaming = false;
    }

    /// The provider reported token usage for this turn: the input count
    /// (see `effective_input` when it reports none) and the output count
    /// become this turn's usage, and the conversation's totals with it are
    /// shown.
    pub fn usage(&mut self, input: u64, output: u64)
        requires
            conversation_bytes(old(self).ai_messages@) <= usize::MAX,
            old(self).ai_accumulated_usage.0 + effective_input(input, old(self).ai_messages@) <= u64::MAX,
            old(self).ai_accumulated_usage.1 + output <= u64::MAX,
        ensures
            final(self).ai_current_turn_usage == (effective_input(input, old(self).ai_messages@) as u64, output),
            final(self).ai_last_usage == Some(
                (
                    (old(self).ai_accumulated_usage.0 + effective_input(input, old(self).ai_messages@)) as u64,
                    (old(self).ai_accumulated_usage.1 + output) as u64,
                ),
            ),
            final(self).ai_accumulated_usage == old(self).ai_accumulated_usage,
            final(self).ai_messages == old(self).ai_messages,
            final(self).ai_streaming_text == old(self).ai_streaming_text,
            final(self).ai_pending_text == old(self).ai_pending_text,
            final(self).ai_is_streaming == old(self).ai_is_streaming,
            final(self).same_sidebar(&*old(self)),
    {
        let eff: u64 = if input > 0 {
            input
        } else {
            let chars = conversation_size(&self.ai_messages);
            let q = chars / 4;
            if q > 50 {
                q as u64
            } else {
                50
            }
        };
        self.ai_current_turn_usage = (eff, output);
        let total_in = self.ai_accumulated_usage.0 + eff;
        let total_out = self.ai_accumulated_usage.1 + output;
        self.ai_last_usage = Some((total_in, total_out));
    }

    /// The answer failed: this turn's usage is banked (and shown when there
    /// is any), waiting text is revealed, an error bubble with a hint is
    /// added, and the answer stops streaming.
    pub fn stream_error(&mut self, err: &str, timestamp: &str)
        requires
            old(self).ai_accumulated_usage.0 + old(self).ai_current_turn_usage.0 <= u64::MAX,
            old(self).ai_accumulated_usage.1 + old(self).ai_current_turn_usage.1 <= u64::MAX,
        ensures
            final(self).ai_accumulated_usage == (
                (old(self).ai_accumulated_usage.0 + old(self).ai_current_turn_usage.0) as u64,
                (old(self).ai_accumulated_usage.1 + old(self).ai_current_turn_usage.1) as u64,
            ),
            final(self).ai_current_turn_usage == (0u64, 0u64),
            final(self).ai_last_usage == (if final(self).ai_accumulated_usage == (0u64, 0u64) {
                old(self).ai_last_usage
            } else {
                Some(final(self).ai_accumulated_usage)
            }),
            final(self).ai_streaming_text@ == old(self).ai_streaming_text@ + old(self).ai_pending_text@,
            final(self).ai_streaming_thinking@ == old(self).ai_streaming_thinking@
                + old(self).ai_pending_thinking@,
            final(self).ai_pending_text@.len() == 0,
            final(self).ai_pending_thinking@.len() == 0,
            !final(self).ai_is_streaming,
            final(self).ai_messages@.len() == old(self).ai_messages@.len() + 1,
            final(self).ai_messages@.drop_last() == old(self).ai_messages@,
            ({
                let m = final(self).ai_messages@.last();
                &&& !m.is_user
                &&& m.is_error
                &&& m.text@ == spec_ai_error_message(err@)
                &&& m.thinking is None
                &&& m.tool_calls@.len() == 0
                &&& m.timestamp matches Some(ts) && ts@ == timestamp@
            }),
            final(self).same_sidebar(&*old(self)),
    {
        self.bank_turn_usage();
        if self.ai_accumulated_usage.0 != 0 || self.ai_accumulated_usage.1 != 0 {
            self.ai_last_usage = Some(self.ai_accumulated_usage);
        }
        self.flush_pending();
        self.ai_messages.push(
            ChatMessage {
                is_user: false,
                text: ai_error_message(err),
                thinking: None,
                tool_calls: Vec::new(),
                timestamp: Some(timestamp.to_owned()),
                images: Vec::new(),
                documents: Vec::new(),
                is_error: true,
            },
        );
        self.ai_is_streaming = false;
    }

    /// A prompt was sent: the user's message joins the conversation, the
    /// @-menu closes, and a new answer starts streaming from nothing.
    pub fn begin_turn(
        &mut self,
        text: String,
        timestamp: &str,
        images: Vec<std::path::PathBuf>,
        documents: Vec<std::path::PathBuf>,
    )
        ensures
            final(self).ai_messages@.len() == old(self).ai_messages@.len() + 1,
            final(self).ai_messages@.drop_last() == old(self).ai_messages@,
            is_user_message(final(self).ai_messages@.last(), text@, timestamp@, images@, documents@),
            final(self).ai_is_streaming,
            !final(self).ai_at_menu_open,
            final(self).ai_streaming_text@.len() == 0,
            final(self).ai_streaming_thinking@.len() == 0,
            final(self).ai_pending_text@.len() == 0,
            final(self).ai_pending_thinking@.len() == 0,
            *final(self) == (AiState {
                ai_messages: final(self).ai_messages,
                ai_is_streaming: true,
                ai_at_menu_open: false,
                ai_streaming_text: final(self).ai_streaming_text,
                ai_streaming_thinking: final(self).ai_streaming_thinking,
                ai_pending_text: final(self).ai_pending_text,
                ai_pending_thinking: final(self).ai_pending_thinking,
                ..*old(self)
            }),
    {
        self.ai_at_menu_open = false;
        self.ai_messages.push(
            ChatMessage {
                is_user: true,
                text,
                thinking: None,
                tool_calls: Vec::new(),
                timestamp: Some(timestamp.to_owned()),
                images,
                documents,
                is_error: false,
            },
        );
        self.ai_is_streaming = true;
        self.ai_streaming_text = String::new();
        self.ai_streaming_thinking = String::new();
        self.ai_pending_text = String::new();
        self.ai_pending_thinking = String::new();
    }
}

} // verus!
