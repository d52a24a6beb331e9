use vstd::prelude::*;
use vstd::string::StringExecFns;
use crate::asyn_log::{pop_char, push_char};

verus! {

/// The line being edited: finished words in `bufs`, the word in progress in `buf`.
pub struct Linenoise2State {
    pub propmt: String,
    pub buf: String,
    pub bufs: Vec<String>,
}

pub open spec fn views(v: Seq<String>) -> Seq<Seq<char>> {
    v.map_values(|s: String| s@)
}

/// Relies on `char::from(u8)`: the character whose code point is the byte.
#[verifier::external_body]
fn char_of_byte(c: u8) -> (r: char)
    ensures
        r as u32 == c as u32,
{
    char::from(c)
}

impl Linenoise2State {
    pub fn new(propmt: &str) -> (r: Linenoise2State)
        ensures
            r.propmt@ == propmt@,
            r.buf@ == Seq::<char>::empty(),
            r.bufs@.len() == 0,
    {
        Linenoise2State { propmt: String::from_str(propmt), buf: String::new(), bufs: Vec::new() }
    }
}

/// Backspace: drops the last character of the word in progress, or, when it is
/// empty, makes the last finished word the word in progress again.
pub fn linenoise2_edit_delete(l: &mut Linenoise2State)
    ensures
        final(l).propmt == old(l).propmt,
        old(l).buf@.len() > 0 ==> final(l).buf@ == old(l).buf@.drop_last() && final(l).bufs@ == old(l).bufs@,
        old(l).buf@.len() == 0 && old(l).bufs@.len() > 0 ==> final(l).buf@ == old(l).bufs@.last()@
            && final(l).bufs@ == old(l).bufs@.drop_last(),
        old(l).buf@.len() == 0 && old(l).bufs@.len() == 0 ==> final(l).buf@ == Seq::<char>::empty()
            && final(l).bufs@.len() == 0,
{
    match pop_char(&mut l.buf) {
        Some(_) => {},
        None => {
            l.buf = match l.bufs.pop() {
                Some(buf) => buf,
                None => String::new(),
            };
        },
    }
}

/// Space: the word in progress is finished and a new, empty one begins.
pub fn linenoise2_edit_space(l: &mut Linenoise2State)
    ensures
        final(l).propmt == old(l).propmt,
        final(l).bufs@ == old(l).bufs@.push(old(l).buf),
        final(l).buf@ == Seq::<char>::empty(),
{
    l.bufs.push(l.buf.clone());
    l.buf = String::new();
}

/// Appends the character of code `c` to the word in progress.
pub fn linenoise2_edit_insert(l: &mut Linenoise2State, c: u8)
    ensures
        final(l).propmt == old(l).propmt,
        final(l).bufs@ == old(l).bufs@,
        final(l).buf@.len() == old(l).buf@.len() + 1,
        final(l).buf@.drop_last() == old(l).buf@,
        final(l).buf@.last() as u32 == c as u32,
{
    let ch = char_of_byte(c);
    push_char(&mut l.buf, ch);
}

/// What a key press does to the line.
#[derive(Clone, Copy, Debug, PartialEq, Eq, Structural)]
pub enum KeyAction {
    /// Enter: the line is complete.
    Finish,
    Delete,
    Space,
    Insert,
    /// Control keys without an effect: Ctrl-C, Ctrl-D, Escape, Tab.
    Ignore,
}

pub open spec fn key_action_spec(byte: u8) -> KeyAction {
    if byte == 10 || byte == 13 {
        KeyAction::Finish
    } else if byte == 8 || byte == 127 {
        KeyAction::Delete
    } else if byte == 32 {
        KeyAction::Space
    } else if byte == 3 || byte == 4 || byte == 27 || byte == 9 {
        KeyAction::Ignore
    } else {
        KeyAction::Insert
    }
}

pub fn key_action(byte: u8) -> (r: KeyAction)
    ensures
        r == key_action_spec(byte),
{
    if byte == 10 || byte == 13 {
        KeyAction::Finish
    } else if byte == 8 || byte == 127 {
        KeyAction::Delete
    } else if byte == 32 {
        KeyAction::Space
    } else if byte == 3 || byte == 4 || byte == 27 || byte == 9 {
        KeyAction::Ignore
    } else {
        KeyAction::Insert
    }
}

/// Applies one input byte to the line; returns true when the line is complete,
/// its last word then having been moved to the finished words.
pub fn linenoise2_feed(l: &mut Linenoise2State, byte: u8) -> (done: bool)
    ensures
        done == (key_action_spec(byte) == KeyAction::Finish),
        final(l).propmt == old(l).propmt,
        (key_action_spec(byte) == KeyAction::Finish || key_action_spec(byte) == KeyAction::Space)
            ==> final(l).bufs@ == old(l).bufs@.push(old(l).buf) && final(l).buf@ == Seq::<char>::empty(),
        key_action_spec(byte) == KeyAction::Ignore ==> final(l).buf@ == old(l).buf@
            && final(l).bufs@ == old(l).bufs@,
        key_action_spec(byte) == KeyAction::Insert ==> final(l).bufs@ == old(l).bufs@
            && final(l).buf@.drop_last() == old(l).buf@ && final(l).buf@.len() == old(l).buf@.len() + 1
            && final(l).buf@.last() as u32 == byte as u32,
        key_action_spec(byte) == KeyAction::Delete && old(l).buf@.len() > 0 ==> final(l).buf@
            == old(l).buf@.drop_last() && final(l).bufs@ == old(l).bufs@,
        key_action_spec(byte) == KeyAction::Delete && old(l).buf@.len() == 0 && old(l).bufs@.len() > 0
            ==> final(l).buf@ == old(l).bufs@.last()@ && final(l).bufs@ == old(l).bufs@.drop_last(),
        key_action_spec(byte) == KeyAction::Delete && old(l).buf@.len() == 0 && old(l).bufs@.len() == 0
            ==> final(l).buf@ == Seq::<char>::empty() && final(l).bufs@.len() == 0,
{
    match key_action(byte) {
        KeyAction::Finish => {
            linenoise2_edit_space(l);
            true
        },
        KeyAction::Delete => {
            linenoise2_edit_delete(l);
            false
        },
        KeyAction::Space => {
            linenoise2_edit_space(l);
            false
        },
        KeyAction::Insert => {
            linenoise2_edit_insert(l, byte);
            false
        },
        KeyAction::Ignore => false,
    }
}

/// A bounded history of lines, oldest first.
pub struct History {
    pub items: Vec<String>,
    pub max_len: usize,
}

/// The lines after `line` was added with capacity `max_len`: nothing is kept
/// when the capacity is zero, and the oldest line leaves when the history is full.
pub open spec fn history_added(h: Seq<Seq<char>>, line: Seq<char>, max_len: nat) -> Seq<Seq<char>> {
    if max_len == 0 {
        h
    } else if h.len() >= max_len {
        h.drop_first().push(line)
    } else {
        h.push(line)
    }
}

impl History {
    pub open spec fn wf(&self) -> bool {
        self.items@.len() <= self.max_len
    }

    pub open spec fn lines(&self) -> Seq<Seq<char>> {
        views(self.items@)
    }

    pub fn new(max_len: usize) -> (r: History)
        ensures
            r.wf(),
            r.max_len == max_len,
            r.lines().len() == 0,
    {
        History { items: Vec::new(), max_len }
    }

    pub fn len(&self) -> (r: usize)
        ensures
            r == self.lines().len(),
    {
        self.items.len()
    }
}

/// Adds a line to the history, evicting the oldest one when it is full.
pub fn linenoise2_history_add(h: &mut History, line: &str)
    requires
        old(h).wf(),
    ensures
        final(h).wf(),
        final(h).max_len == old(h).max_len,
        final(h).lines() == history_added(old(h).lines(), line@, old(h).max_len as nat),
{
    if h.max_len == 0 {
        return;
    }
    let ghost before = h.items@;
    if h.items.len() >= h.max_len {
        h.items.remove(0);
        assert(views(h.items@) =~= views(before).drop_first());
    }
    let ghost mid = h.items@;
    h.items.push(String::from_str(line));
    assert(views(h.items@) =~= views(mid).push(line@));
}

} // verus!
