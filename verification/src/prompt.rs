use vstd::prelude::*;
use vstd::string::StringExecFns;
use vstd::string::StringSliceAdditionalSpecFns;
use vstd::utf8::{decode_utf8, encode_utf8, is_char_boundary};

use crate::text::{char_is_whitespace, is_whitespace, str_chars, str_eq, string_from_chars};

verus! {

/// What std's `char::is_alphanumeric` says of a character.
pub uninterp spec fn alphanumeric(c: char) -> bool;

/// Calls `char::is_alphanumeric` (Unicode letters and numbers); the
/// result is named by `alphanumeric`.
#[verifier::external_body]
pub(crate) fn is_alphanumeric(c: char) -> (r: bool)
    ensures
        r == alphanumeric(c),
{
    c.is_alphanumeric()
}

/// A character a referenced path keeps at its ends: a letter or number,
/// `.`, `/`, `_` or `-`.
pub open spec fn path_char(c: char) -> bool {
    alphanumeric(c) || c == '.' || c == '/' || c == '_' || c == '-'
}

/// `s` without the characters at its start that are not path characters.
pub open spec fn strip_start(s: Seq<char>) -> Seq<char>
    decreases s.len(),
{
    if s.len() > 0 && !path_char(s[0]) {
        strip_start(s.drop_first())
    } else {
        s
    }
}

/// `s` without the characters at its end that are not path characters.
pub open spec fn strip_end(s: Seq<char>) -> Seq<char>
    decreases s.len(),
{
    if s.len() > 0 && !path_char(s.last()) {
        strip_end(s.drop_last())
    } else {
        s
    }
}

/// The path a word `@path` names, with punctuation around it dropped.
pub open spec fn referenced_path(word: Seq<char>) -> Seq<char> {
    strip_end(strip_start(word.drop_first()))
}

/// The pieces of a text between whitespace characters.
pub open spec fn ws_pieces(s: Seq<char>) -> Seq<Seq<char>>
    decreases s.len(),
{
    if s.len() == 0 {
        seq![Seq::empty()]
    } else {
        let p = ws_pieces(s.drop_last());
        let c = s.last();
        if is_whitespace(c) {
            p.push(Seq::empty())
        } else {
            p.update(p.len() - 1, p.last().push(c))
        }
    }
}

/// The paths referenced by the words `@path` among the pieces, in order
/// (words whose path is empty are skipped).
pub open spec fn references_in(words: Seq<Seq<char>>) -> Seq<Seq<char>>
    decreases words.len(),
{
    if words.len() == 0 {
        Seq::empty()
    } else {
        let rest = references_in(words.drop_last());
        let w = words.last();
        if w.len() > 0 && w[0] == '@' && referenced_path(w).len() > 0 {
            rest.push(referenced_path(w))
        } else {
            rest
        }
    }
}

/// The files a prompt references with `@path` words.
pub open spec fn prompt_references(text: Seq<char>) -> Seq<Seq<char>> {
    references_in(ws_pieces(text))
}

fn strip_path(w: &Vec<char>) -> (r: Vec<char>)
    requires
        w.len() > 0,
    ensures
        r@ == referenced_path(w@),
{
    let n = w.len();
    let mut a: usize = 1;
    proof {
        assert(w@.drop_first() =~= w@.subrange(1, n as int));
    }
    while a < n && !path_char_exec(w[a])
        invariant
            1 <= a <= n,
            n == w.len(),
            strip_start(w@.drop_first()) == strip_start(w@.subrange(a as int, n as int)),
        decreases n - a,
    {
        proof {
            assert(w@.subrange(a as int, n as int).drop_first() =~= w@.subrange(a + 1, n as int));
        }
        a = a + 1;
    }
    proof {
        if a < n {
            assert(w@.subrange(a as int, n as int)[0] == w@[a as int]);
        }
    }
    let ghost st = w@.subrange(a as int, n as int);
    let mut b: usize = n;
    proof {
        assert(st.subrange(0, (b - a) as int) =~= st);
    }
    while b > a && !path_char_exec(w[b - 1])
        invariant
            a <= b <= n,
            n == w.len(),
            st == w@.subrange(a as int, n as int),
            strip_end(st) == strip_end(w@.subrange(a as int, b as int)),
        decreases b,
    {
        proof {
            assert(w@.subrange(a as int, b as int).drop_last() =~= w@.subrange(a as int, b - 1));
        }
        b = b - 1;
    }
    proof {
        if b > a {
            assert(w@.subrange(a as int, b as int).last() == w@[b - 1]);
        }
    }
    let mut out: Vec<char> = Vec::new();
    let mut k: usize = a;
    while k < b
        invariant
            a <= k <= b,
            b <= n,
            n == w.len(),
            out@ == w@.subrange(a as int, k as int),
        decreases b - k,
    {
        out.push(w[k]);
        k = k + 1;
        assert(out@ =~= w@.subrange(a as int, k as int));
    }
    out
}

fn path_char_exec(c: char) -> (r: bool)
    ensures
        r == path_char(c),
{
    is_alphanumeric(c) || c == '.' || c == '/' || c == '_' || c == '-'
}

/// The files a prompt references: each whitespace-separated word starting
/// with `@`, without the `@` and without punctuation at its ends, unless
/// nothing is left.
pub fn at_references(text: &str) -> (r: Vec<String>)
    ensures
        r@.map_values(|s: String| s@) == prompt_references(text@),
{
    let cs = str_chars(text);
    let mut out: Vec<String> = Vec::new();
    let mut cur: Vec<char> = Vec::new();
    let ghost mut done: Seq<Seq<char>> = Seq::empty();
    let mut i: usize = 0;
    assert(cs@.take(0) =~= Seq::<char>::empty());
    while i < cs.len()
        invariant
            i <= cs.len(),
            ws_pieces(cs@.take(i as int)) == done.push(cur@),
            out@.map_values(|s: String| s@) == references_in(done),
        decreases cs.len() - i,
    {
        proof {
            assert(cs@.take(i + 1).drop_last() =~= cs@.take(i as int));
            assert(cs@.take(i + 1).last() == cs@[i as int]);
        }
        if char_is_whitespace(cs[i]) {
            push_reference(&mut out, &cur);
            proof {
                assert(done.push(cur@).drop_last() =~= done);
                done = done.push(cur@);
            }
            cur = Vec::new();
            assert(ws_pieces(cs@.take(i + 1)) =~= done.push(cur@));
        } else {
            cur.push(cs[i]);
            assert(ws_pieces(cs@.take(i + 1)) =~= done.push(cur@));
        }
        i = i + 1;
    }
    assert(cs@.take(i as int) =~= cs@);
    push_reference(&mut out, &cur);
    proof {
        assert(done.push(cur@).drop_last() =~= done);
    }
    out
}

fn push_reference(out: &mut Vec<String>, word: &Vec<char>)
    ensures
        final(out)@.map_values(|s: String| s@) == old(out)@.map_values(|s: String| s@) + if word@.len()
            > 0 && word@[0] == '@' && referenced_path(word@).len() > 0 {
            seq![referenced_path(word@)]
        } else {
            Seq::empty()
        },
{
    let ghost before = out@;
    if word.len() > 0 && word[0] == '@' {
        let p = strip_path(word);
        if p.len() > 0 {
            out.push(string_from_chars(p.as_slice()));
            assert(out@.map_values(|s: String| s@) =~= before.map_values(|s: String| s@) + seq![p@]);
            return;
        }
    }
    assert(out@.map_values(|s: String| s@) =~= before.map_values(|s: String| s@) + Seq::<Seq<char>>::empty());
}

/// How much of a file a prompt quotes, in bytes.
pub open spec fn quote_limit() -> nat {
    16000
}

/// The quoted part of a file: all of it, or its first 16000 bytes and a
/// truncation mark.
pub open spec fn spec_file_snippet(content: Seq<char>) -> Seq<char> {
    let b = encode_utf8(content);
    if b.len() > quote_limit() {
        decode_utf8(b.subrange(0, quote_limit() as int)) + "... (truncated)"@
    } else {
        content
    }
}

/// Quotes a file's text for a prompt (see `spec_file_snippet`); a text
/// longer than the limit must have a character boundary there.
pub fn file_snippet(content: &str) -> (r: String)
    requires
        encode_utf8(content@).len() > quote_limit() ==> is_char_boundary(
            encode_utf8(content@),
            quote_limit() as int,
        ),
    ensures
        r@ == spec_file_snippet(content@),
{
    let n = content.as_bytes().len();
    proof {
        assert(content.spec_bytes() == encode_utf8(content@));
    }
    if n > 16000 {
        let (head, _tail) = content.split_at(16000);
        proof {
            vstd::utf8::encode_utf8_decode_utf8(head@);
            assert(head.spec_bytes() == encode_utf8(head@));
            reveal_strlit("... (truncated)");
        }
        let mut s = head.to_owned();
        s.append("... (truncated)");
        s
    } else {
        content.to_owned()
    }
}

/// The block a prompt gets for a quoted file: a blank line, a label line
/// `[<label>: <name>]`, and the snippet in a code fence.
pub open spec fn spec_quoted_file(label: Seq<char>, name: Seq<char>, snippet: Seq<char>) -> Seq<char> {
    "\n\n["@ + label + ": "@ + name + "]\n```\n"@ + snippet + "\n```"@
}

/// The text added to a prompt for a quoted file (`label` is "Referenced
/// file" for an `@path`, "Attached file" for an attachment).
pub fn quoted_file(label: &str, name: &str, snippet: &str) -> (r: String)
    ensures
        r@ == spec_quoted_file(label@, name@, snippet@),
{
    let mut s = String::from_str("\n\n[");
    s.append(label);
    s.append(": ");
    s.append(name);
    s.append("]\n```\n");
    s.append(snippet);
    s.append("\n```");
    s
}

/// The line added for an attachment that is not text.
pub fn binary_attachment_note(name: &str) -> (r: String)
    ensures
        r@ == "\n\n[Attached binary file: "@ + name@ + "]"@,
{
    let mut s = String::from_str("\n\n[Attached binary file: ");
    s.append(name);
    s.append("]");
    s
}

/// The assistant's Ask mode: no tools, answers only.
pub fn is_ask_mode(mode: &str) -> (r: bool)
    ensures
        r == (mode@ == "Ask"@),
{
    str_eq(mode, "Ask")
}

/// What Ask mode adds to the system prompt.
pub open spec fn ask_mode_note() -> Seq<char> {
    "\n\n[MODE: ASK ONLY]\nYou are in Ask mode. You must ONLY answer questions, explain concepts, and provide direct advice. You have no tools and cannot execute commands or modify files."@
}

/// The system prompt for a mode: the base prompt, with the Ask-mode note
/// in Ask mode.
pub fn system_prompt_for_mode(base: &str, mode: &str) -> (r: String)
    ensures
        r@ == (if mode@ == "Ask"@ {
            base@ + ask_mode_note()
        } else {
            base@
        }),
{
    let mut s = base.to_owned();
    if is_ask_mode(mode) {
        s.append("\n\n[MODE: ASK ONLY]\nYou are in Ask mode. You must ONLY answer questions, explain concepts, and provide direct advice. You have no tools and cannot execute commands or modify files.");
    }
    s
}


/// A text that `file_snippet` can quote: short enough, or with a character
/// boundary at the limit.
pub open spec fn quotable(content: Seq<char>) -> bool {
    encode_utf8(content).len() > quote_limit() ==> is_char_boundary(
        encode_utf8(content),
        quote_limit() as int,
    )
}

/// What reading an attached file gave: an image or a PDF (sent as such), a
/// text, a file that is not text, or nothing (not a file).
#[derive(Debug)]
pub enum AttachmentRead {
    Image,
    Document,
    Text(String),
    Binary,
    Missing,
}

/// An attached file as the prompt names it (its path as displayed), with
/// what reading it gave.
#[derive(Debug)]
pub struct AttachedFile {
    pub name: String,
    pub read: AttachmentRead,
}

/// The blocks the `@path` references add: each one read as text is quoted
/// under its name; the others add nothing.
pub open spec fn reference_blocks(names: Seq<Seq<char>>, contents: Seq<Option<String>>) -> Seq<char>
    decreases names.len(),
{
    if names.len() == 0 || contents.len() != names.len() {
        Seq::empty()
    } else {
        let n = names.len() - 1;
        reference_blocks(names.drop_last(), contents.drop_last()) + match contents[n] {
            Some(c) => spec_quoted_file("Referenced file"@, names[n], spec_file_snippet(c@)),
            None => Seq::empty(),
        }
    }
}

/// The blocks the attachments add: a text is quoted, a file that is not
/// text gets a note; images, documents and missing files add nothing here.
pub open spec fn attachment_blocks(files: Seq<AttachedFile>) -> Seq<char>
    decreases files.len(),
{
    if files.len() == 0 {
        Seq::empty()
    } else {
        let f = files.last();
        attachment_blocks(files.drop_last()) + match f.read {
            AttachmentRead::Text(c) => spec_quoted_file("Attached file"@, f.name@, spec_file_snippet(c@)),
            AttachmentRead::Binary => "\n\n[Attached binary file: "@ + f.name@ + "]"@,
            _ => Seq::empty(),
        }
    }
}

/// The message sent to the model: the typed text, then the referenced
/// files' blocks, then the attachments' blocks.
pub open spec fn spec_augmented_prompt(
    text: Seq<char>,
    contents: Seq<Option<String>>,
    files: Seq<AttachedFile>,
) -> Seq<char> {
    text + reference_blocks(prompt_references(text), contents) + attachment_blocks(files)
}

/// Puts the prompt together from what the UI read: `contents[i]` is the
/// text of the `i`th `@path` reference (see `at_references`) when it is a
/// readable file, and each attachment comes with what reading it gave.
pub fn augmented_prompt(text: &str, contents: &Vec<Option<String>>, files: &Vec<AttachedFile>) -> (r:
    String)
    requires
        contents@.len() == prompt_references(text@).len(),
        forall|i: int|
            0 <= i < contents@.len() ==> (#[trigger] contents@[i] matches Some(c) ==> quotable(c@)),
        forall|i: int|
            0 <= i < files@.len() ==> (#[trigger] files@[i].read matches AttachmentRead::Text(c)
                ==> quotable(c@)),
    ensures
        r@ == spec_augmented_prompt(text@, contents@, files@),
{
    let names = at_references(text);
    let ghost nv = names@.map_values(|s: String| s@);
    let mut out = text.to_owned();
    let mut i: usize = 0;
    proof {
        assert(nv.take(0) =~= Seq::<Seq<char>>::empty());
        assert(out@ =~= text@ + reference_blocks(nv.take(0), contents@.take(0)));
    }
    while i < contents.len()
        invariant
            i <= contents.len(),
            contents@.len() == names@.len(),
            nv == names@.map_values(|s: String| s@),
            nv == prompt_references(text@),
            forall|k: int|
                0 <= k < contents@.len() ==> (#[trigger] contents@[k] matches Some(c) ==> quotable(c@)),
            out@ == text@ + reference_blocks(nv.take(i as int), contents@.take(i as int)),
        decreases contents.len() - i,
    {
        proof {
            assert(nv.take(i + 1).drop_last() =~= nv.take(i as int));
            assert(contents@.take(i + 1).drop_last() =~= contents@.take(i as int));
            assert(nv.take(i + 1)[i as int] == nv[i as int]);
            assert(contents@.take(i + 1)[i as int] == contents@[i as int]);
        }
        match &contents[i] {
            Some(c) => {
                let snip = file_snippet(c.as_str());
                let block = quoted_file("Referenced file", names[i].as_str(), snip.as_str());
                proof {
                    reveal_strlit("Referenced file");
                }
                out.append(block.as_str());
            },
            None => {},
        }
        i = i + 1;
    }
    proof {
        assert(nv.take(i as int) =~= nv);
        assert(contents@.take(i as int) =~= contents@);
    }
    let ghost base = out@;
    let mut j: usize = 0;
    proof {
        assert(files@.take(0) =~= Seq::<AttachedFile>::empty());
        assert(out@ =~= base + attachment_blocks(files@.take(0)));
    }
    while j < files.len()
        invariant
            j <= files.len(),
            forall|k: int|
                0 <= k < files@.len() ==> (#[trigger] files@[k].read matches AttachmentRead::Text(c)
                    ==> quotable(c@)),
            out@ == base + attachment_blocks(files@.take(j as int)),
        decreases files.len() - j,
    {
        proof {
            assert(files@.take(j + 1).drop_last() =~= files@.take(j as int));
            assert(files@.take(j + 1).last() == files@[j as int]);
        }
        let f = &files[j];
        match &f.read {
            AttachmentRead::Text(c) => {
                let snip = file_snippet(c.as_str());
                let block = quoted_file("Attached file", f.name.as_str(), snip.as_str());
                proof {
                    reveal_strlit("Attached file");
                }
                out.append(block.as_str());
            },
            AttachmentRead::Binary => {
                let note = binary_attachment_note(f.name.as_str());
                out.append(note.as_str());
            },
            _ => {},
        }
        j = j + 1;
    }
    proof {
        assert(files@.take(j as int) =~= files@);
    }
    out
}

} // verus!
