//! Typewriter-style printing: text shown one character at a time, with a
//! configurable pause after each character.
//!
//! Each entry point walks its text character by character (never byte by
//! byte, so multi-byte characters are never split), writes each character to
//! an output [`Sink`], flushes it so it is visible before the pause, and then
//! sleeps for the given number of milliseconds.  The sink is the crate's
//! model of the process's output stream; an adapter outside the verified core
//! binds the same per-character loop to a real terminal.
//!
//! [`print`] and [`println`] use the fixed pause [`DEFAULT_PRINT_DELAY_MS`].

mod sink;

pub use sink::Sink;
pub use sink::WriteError;
pub use sink::advanced_by;
pub use sink::tick;
pub use sink::lemma_advanced_by_step;

use vstd::prelude::*;
use vstd::string::StrSliceExecFns;
use vstd::string::StringExecFns;

verus! {

/// Pause used by [`print`] and [`println`], in milliseconds.
pub const DEFAULT_PRINT_DELAY_MS: u64 = 100;

/// What a [`slow_print`] call with text `data` and pause `delay_ms` does to
/// the sink: it succeeds exactly when the sink is open or the text is empty;
/// on success it appends exactly the characters of `data`, in order, and
/// sleeps one `delay_ms` pause per character; on failure it emits nothing
/// and sleeps for no time.
pub open spec fn print_outcome(
    pre: Sink,
    post: Sink,
    r: Result<(), WriteError>,
    data: Seq<char>,
    delay_ms: u64,
) -> bool {
    &&& (r is Ok <==> (!pre.closed || data.len() == 0))
    &&& (r is Ok ==> post.out@ == pre.out@ + data && post.slept_ms == advanced_by(
        pre.slept_ms,
        delay_ms,
        data.len(),
    ))
    &&& (r is Err ==> post.out@ == pre.out@ && post.slept_ms == pre.slept_ms)
    &&& post.closed == pre.closed
}

/// What a [`slow_println`] call does to the sink: exactly what
/// [`slow_print`] does to it with one line terminator appended to the text,
/// spelled out.  It succeeds exactly when the sink is open (the terminator
/// is always written, so even empty text writes); on success it appends the
/// characters of `data` followed by one `'\n'`, and sleeps one pause per
/// character, the terminator included.
pub open spec fn println_outcome(
    pre: Sink,
    post: Sink,
    r: Result<(), WriteError>,
    data: Seq<char>,
    delay_ms: u64,
) -> bool {
    &&& (r is Ok <==> !pre.closed)
    &&& (r is Ok ==> post.out@ == pre.out@ + data + seq!['\n'] && post.slept_ms == advanced_by(
        pre.slept_ms,
        delay_ms,
        data.len() + 1,
    ))
    &&& (r is Err ==> post.out@ == pre.out@ && post.slept_ms == pre.slept_ms)
    &&& post.closed == pre.closed
}

/// Print `data` to `sink` slowly, pausing `delay_ms` milliseconds after each
/// character.
///
/// Each character is written and flushed before its pause, the last one
/// included.  Empty text succeeds at once, even on a closed sink, with
/// nothing written and no pause.  On a closed sink with non-empty text the
/// first write fails: the call returns [`WriteError`] and emits nothing.
pub fn slow_print(data: &str, delay_ms: u64, sink: &mut Sink) -> (r: Result<(), WriteError>)
    ensures
        print_outcome(*old(sink), *final(sink), r, data@, delay_ms),
{
    let n: usize = data.unicode_len();
    let mut i: usize = 0;
    while i < n
        invariant
            n == data@.len(),
            i <= n,
            sink.closed == old(sink).closed,
            sink.out@ == old(sink).out@ + data@.subrange(0, i as int),
            sink.slept_ms == advanced_by(old(sink).slept_ms, delay_ms, i as nat),
            i > 0 ==> !sink.closed,
        decreases n - i,
    {
        let c = data.get_char(i);
        match sink.write_char(c) {
            Ok(()) => {},
            Err(e) => {
                proof {
                    assert(old(sink).out@ + data@.subrange(0, 0) =~= old(sink).out@);
                    assert(delay_ms as int * 0int == 0) by (nonlinear_arith);
                }
                return Err(e);
            },
        }
        sink.sleep(delay_ms);
        proof {
            lemma_advanced_by_step(old(sink).slept_ms, delay_ms, i as nat);
            assert((old(sink).out@ + data@.subrange(0, i as int)).push(data@[i as int])
                =~= old(sink).out@ + data@.subrange(0, i as int + 1));
        }
        i = i + 1;
    }
    proof {
        assert(data@.subrange(0, n as int) =~= data@);
    }
    Ok(())
}

/// Print `data` to `sink` slowly as [`slow_print`] does, then a line
/// terminator, itself written, flushed and followed by its own pause.
pub fn slow_println(data: &str, delay_ms: u64, sink: &mut Sink) -> (r: Result<(), WriteError>)
    ensures
        println_outcome(*old(sink), *final(sink), r, data@, delay_ms),
{
    let mut line: String = String::from_str(data);
    line.append("\n");
    let r = slow_print(line.as_str(), delay_ms, sink);
    proof {
        reveal_strlit("\n");
        assert(line@ =~= data@.push('\n'));
        lemma_println_is_print_of_line(*old(sink), *final(sink), r, data@, delay_ms);
    }
    r
}

/// Print `data` slowly with the fixed pause [`DEFAULT_PRINT_DELAY_MS`];
/// otherwise exactly [`slow_print`].
pub fn print(data: &str, sink: &mut Sink) -> (r: Result<(), WriteError>)
    ensures
        print_outcome(*old(sink), *final(sink), r, data@, DEFAULT_PRINT_DELAY_MS),
{
    slow_print(data, DEFAULT_PRINT_DELAY_MS, sink)
}

/// Print `data` and a line terminator slowly with the fixed pause
/// [`DEFAULT_PRINT_DELAY_MS`]; otherwise exactly [`slow_println`].
pub fn println(data: &str, sink: &mut Sink) -> (r: Result<(), WriteError>)
    ensures
        println_outcome(*old(sink), *final(sink), r, data@, DEFAULT_PRINT_DELAY_MS),
{
    slow_println(data, DEFAULT_PRINT_DELAY_MS, sink)
}

/// Writing a line is writing the text with one line terminator appended:
/// a [`slow_println`] call and a [`slow_print`] call whose text carries a
/// trailing `'\n'` agree on success, on every character shown and on every
/// millisecond slept.
pub proof fn lemma_println_is_print_of_line(
    pre: Sink,
    post: Sink,
    r: Result<(), WriteError>,
    data: Seq<char>,
    delay_ms: u64,
)
    ensures
        println_outcome(pre, post, r, data, delay_ms) <==> print_outcome(
            pre,
            post,
            r,
            data.push('\n'),
            delay_ms,
        ),
{
    assert(data.push('\n') =~= data + seq!['\n']);
    assert(pre.out@ + data + seq!['\n'] =~= pre.out@ + (data + seq!['\n']));
}

/// A successful slow print sleeps for at least `delay_ms` milliseconds per
/// character of its text: while the sink's sleep clock does not saturate, it
/// advances by exactly `delay_ms × data.len()`.
pub proof fn lemma_print_elapsed(
    pre: Sink,
    post: Sink,
    r: Result<(), WriteError>,
    data: Seq<char>,
    delay_ms: u64,
)
    requires
        print_outcome(pre, post, r, data, delay_ms),
        r is Ok,
        pre.slept_ms as int + delay_ms as int * data.len() <= u128::MAX as int,
    ensures
        post.slept_ms as int - pre.slept_ms as int == delay_ms as int * data.len(),
        post.slept_ms as int - pre.slept_ms as int >= delay_ms as int * data.len(),
{
}

/// A successful line print sleeps for at least `delay_ms` milliseconds per
/// character, the appended terminator included: while the sleep clock does
/// not saturate, it advances by exactly `delay_ms × (data.len() + 1)`.
pub proof fn lemma_println_elapsed(
    pre: Sink,
    post: Sink,
    r: Result<(), WriteError>,
    data: Seq<char>,
    delay_ms: u64,
)
    requires
        println_outcome(pre, post, r, data, delay_ms),
        r is Ok,
        pre.slept_ms as int + delay_ms as int * (data.len() + 1) <= u128::MAX as int,
    ensures
        post.slept_ms as int - pre.slept_ms as int == delay_ms as int * (data.len() + 1),
{
}

} // verus!
