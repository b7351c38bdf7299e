use vstd::prelude::*;

use crate::program_log::{occurrences, ProgramLog};

verus! {

/// The line that each invocation writes to the log.
pub const GREETING: &'static str = "👋 Hello from CI Proof Core!";

/// The accounts that an invocation of [`say_hello`] requires: none.
pub struct SayHello {}

/// Declares `anchor_lang::error::Error`, the error of the framework's
/// instruction results, as an opaque type. Only its name is relied on, so that
/// [`say_hello`] returns what the framework's entry point returns; nothing in
/// this library builds or reads one.
#[verifier::external_type_specification]
#[verifier::external_body]
pub struct ExFrameworkError(anchor_lang::error::Error);

/// The log after one invocation that started on `log`.
pub open spec fn after_invocation(log: Seq<Seq<char>>) -> Seq<Seq<char>> {
    log.push(GREETING@)
}

/// The instruction: appends the greeting to `log`, the lines that the host is
/// to write to its log stream, and succeeds, whatever the log held before.
pub fn say_hello(_ctx: SayHello, log: &mut ProgramLog) -> (r: Result<(), anchor_lang::error::Error>)
    ensures
        r is Ok,
        final(log)@ == after_invocation(old(log)@),
{
    log.write(GREETING);
    Ok(())
}

/// Each invocation writes the greeting exactly once: the log gains one more
/// greeting, every other message keeps its count, and the lines already
/// written stay as they were.
pub proof fn lemma_greeting_written_once(log: Seq<Seq<char>>)
    ensures
        occurrences(after_invocation(log), GREETING@) == occurrences(log, GREETING@) + 1,
        forall|m: Seq<char>|
            m != GREETING@ ==> #[trigger] occurrences(after_invocation(log), m) == occurrences(
                log,
                m,
            ),
        after_invocation(log).subrange(0, log.len() as int) == log,
{
    assert forall|m: Seq<char>|
        #[trigger] occurrences(after_invocation(log), m) == occurrences(log, m) + if m
            == GREETING@ {
            1int
        } else {
            0int
        } by {
        lemma_filter_push(log, GREETING@, m);
    }
    lemma_filter_push(log, GREETING@, GREETING@);
    assert(after_invocation(log).subrange(0, log.len() as int) =~= log);
}

/// From an empty log, one invocation leaves exactly the greeting.
pub proof fn lemma_fresh_log_holds_greeting()
    ensures
        after_invocation(Seq::empty()) == seq![GREETING@],
        occurrences(after_invocation(Seq::empty()), GREETING@) == 1,
{
    lemma_greeting_written_once(Seq::empty());
    assert(after_invocation(Seq::empty()) =~= seq![GREETING@]);
    reveal_with_fuel(Seq::filter, 1);
}

/// Invoking twice writes the same output both times and nothing else: the
/// second invocation appends what the first did, and the earlier lines are
/// untouched.
pub proof fn lemma_invocation_repeatable(log: Seq<Seq<char>>)
    ensures
        ({
            let once = after_invocation(log);
            let twice = after_invocation(once);
            &&& twice.subrange(once.len() as int, twice.len() as int) == once.subrange(
                log.len() as int,
                once.len() as int,
            )
            &&& twice == log + seq![GREETING@, GREETING@]
            &&& occurrences(twice, GREETING@) == occurrences(log, GREETING@) + 2
        }),
{
    let once = after_invocation(log);
    let twice = after_invocation(once);
    lemma_greeting_written_once(log);
    lemma_greeting_written_once(once);
    assert(twice.subrange(once.len() as int, twice.len() as int) =~= once.subrange(
        log.len() as int,
        once.len() as int,
    ));
    assert(twice =~= log + seq![GREETING@, GREETING@]);
}

/// Filtering a log with one more line by equality to `m` keeps that line
/// exactly when it is `m`.
proof fn lemma_filter_push(log: Seq<Seq<char>>, line: Seq<char>, m: Seq<char>)
    ensures
        occurrences(log.push(line), m) == occurrences(log, m) + if line == m {
            1int
        } else {
            0int
        },
{
    reveal_with_fuel(Seq::filter, 1);
    assert(log.push(line).drop_last() =~= log);
}

} // verus!
