//! The interactive input state machine: how one raw keystroke transforms
//! the input buffer, and when a completion invocation is owed.

use vstd::prelude::*;

verus! {

/// The Escape key: ends the interactive loop.
pub const KEY_ESCAPE: u8 = 27;

/// The Backspace key: erases from the end of the buffer.
pub const KEY_BACKSPACE: u8 = 8;

/// The Delete key: treated exactly like Backspace.
pub const KEY_DELETE: u8 = 127;

/// Bytes that are appended to the buffer: letters, the digits `1..=9`,
/// and the space character.
pub open spec fn is_insert_key(key: u8) -> bool {
    ||| 65 <= key <= 90
    ||| 97 <= key <= 122
    ||| 49 <= key <= 57
    ||| key == 32
}

/// The buffer after one keystroke; `None` means the loop terminates.
///
/// Erasing drops the last character when the buffer holds more than one,
/// and empties it otherwise; an insert key is appended; any other byte
/// leaves the buffer unchanged.
pub open spec fn step_spec(buf: Seq<char>, key: u8) -> Option<Seq<char>> {
    if key == KEY_ESCAPE {
        None
    } else if key == KEY_BACKSPACE || key == KEY_DELETE {
        if buf.len() > 1 {
            Some(buf.drop_last())
        } else {
            Some(Seq::<char>::empty())
        }
    } else if is_insert_key(key) {
        Some(buf.push(key as char))
    } else {
        Some(buf)
    }
}

/// Whether the iteration that read `key` goes on to invoke the completion
/// provider: it does exactly when the loop continues with a non-empty
/// buffer.
pub open spec fn iteration_invokes(buf: Seq<char>, key: u8) -> bool {
    match step_spec(buf, key) {
        Some(next) => next.len() > 0,
        None => false,
    }
}

/// Executable test for an insert key.
pub fn is_insert_key_exec(key: u8) -> (r: bool)
    ensures
        r == is_insert_key(key),
{
    (65 <= key && key <= 90) || (97 <= key && key <= 122) || (49 <= key && key <= 57) || key == 32
}

/// Apply one keystroke to the buffer. Returns `None` exactly on Escape;
/// otherwise the buffer that the loop continues with.
pub fn step(buffer: String, key: u8) -> (r: Option<String>)
    ensures
        (r is None) == (step_spec(buffer@, key) is None),
        r matches Some(next) ==> step_spec(buffer@, key) == Some(next@),
{
    if key == KEY_ESCAPE {
        None
    } else if key == KEY_BACKSPACE || key == KEY_DELETE {
        let len = buffer.as_str().unicode_len();
        if len > 1 {
            let shorter = buffer.as_str().substring_char(0, len - 1);
            proof {
                assert(buffer@.subrange(0, buffer@.len() - 1) =~= buffer@.drop_last());
            }
            Some(String::from_str(shorter))
        } else {
            Some(String::new())
        }
    } else if is_insert_key_exec(key) {
        let mut next = buffer;
        push_char(&mut next, key as char);
        Some(next)
    } else {
        Some(buffer)
    }
}

/// Whether a continuing buffer is owed an invocation: exactly when it is
/// non-empty.
pub fn should_invoke(buffer: &str) -> (r: bool)
    ensures
        r == (buffer@.len() > 0),
{
    !buffer.is_empty()
}

/// Escape terminates the loop from every buffer state, and no invocation
/// happens on the way out.
pub proof fn lemma_escape_terminates(buf: Seq<char>)
    ensures
        step_spec(buf, KEY_ESCAPE) is None,
        !iteration_invokes(buf, KEY_ESCAPE),
{
}

/// An iteration that leaves the buffer empty never invokes the completion
/// provider.
pub proof fn lemma_empty_buffer_skips_invocation(buf: Seq<char>, key: u8)
    requires
        step_spec(buf, key) == Some(Seq::<char>::empty()),
    ensures
        !iteration_invokes(buf, key),
{
}

/// Relies on `String::push`: appends the given character to the end of
/// the string.
#[verifier::external_body]
fn push_char(s: &mut String, c: char)
    ensures
        final(s)@ == old(s)@.push(c),
{
    s.push(c)
}

} // verus!
