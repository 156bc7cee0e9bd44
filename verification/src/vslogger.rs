//! The logger that writes to the debugger's output.
//!
//! The debugger takes text as UTF-16. The logger decides which records are
//! written and composes the line for each; writing it is left to the caller.

use vstd::prelude::*;

verus! {

/// How grave a log record is, from the gravest down.
#[derive(Clone, Copy, Debug, PartialEq, Eq, Structural)]
pub enum Level {
    Error,
    Warn,
    Info,
    Debug,
    Trace,
}

/// The place of a level in the order from the gravest down.
pub open spec fn level_rank(level: Level) -> int {
    match level {
        Level::Error => 1,
        Level::Warn => 2,
        Level::Info => 3,
        Level::Debug => 4,
        Level::Trace => 5,
    }
}

/// The name under which a level appears in a line.
pub open spec fn spec_level_name(level: Level) -> Seq<char> {
    match level {
        Level::Error => "ERROR"@,
        Level::Warn => "WARN"@,
        Level::Info => "INFO"@,
        Level::Debug => "DEBUG"@,
        Level::Trace => "TRACE"@,
    }
}

/// The UTF-16 code units of one character: the character itself where it
/// fits in one unit, else a high and a low surrogate.
pub open spec fn wide_units(c: char) -> Seq<u16> {
    let code = c as u32;
    if code < 0x1_0000 {
        seq![code as u16]
    } else {
        let offset = (code - 0x1_0000) as int;
        seq![(0xd800 + offset / 0x400) as u16, (0xdc00 + offset % 0x400) as u16]
    }
}

/// The UTF-16 code units of a text.
pub open spec fn wide(text: Seq<char>) -> Seq<u16>
    decreases text.len(),
{
    if text.len() == 0 {
        Seq::empty()
    } else {
        wide(text.drop_last()) + wide_units(text.last())
    }
}

/// The line that is written for a record.
pub open spec fn log_line(level: Level, message: Seq<char>) -> Seq<char> {
    "RUST: "@ + spec_level_name(level) + " - "@ + message + "\r\n"@
}

/// The code units of two texts in a row are those of the joined text.
pub proof fn lemma_wide_concat(first: Seq<char>, second: Seq<char>)
    ensures
        wide(first + second) == wide(first) + wide(second),
    decreases second.len(),
{
    if second.len() == 0 {
        assert(first + second =~= first);
    } else {
        lemma_wide_concat(first, second.drop_last());
        assert((first + second).drop_last() =~= first + second.drop_last());
        assert((first + second).last() == second.last());
        assert(wide(first + second) =~= wide(first) + wide(second));
    }
}

/// The name under which a level appears in a line.
pub fn level_name(level: Level) -> (name: &'static str)
    ensures
        name@ == spec_level_name(level),
{
    match level {
        Level::Error => "ERROR",
        Level::Warn => "WARN",
        Level::Info => "INFO",
        Level::Debug => "DEBUG",
        Level::Trace => "TRACE",
    }
}

fn push_wide(out: &mut Vec<u16>, text: &str)
    ensures
        final(out)@ == old(out)@ + wide(text@),
{
    let ghost all = text@;
    proof {
        broadcast use vstd::string::axiom_spec_iter;
    }
    for c in it: text.chars()
        invariant
            it.seq() == all,
            out@ == old(out)@ + wide(all.take(it.index())),
    {
        proof {
            assert(all.take(it.index() + 1).drop_last() =~= all.take(it.index()));
            assert(all.take(it.index() + 1).last() == c);
        }
        let code: u32 = c as u32;
        if code < 0x1_0000 {
            out.push(code as u16);
        } else {
            let offset: u32 = code - 0x1_0000;
            out.push((0xd800 + offset / 0x400) as u16);
            out.push((0xdc00 + offset % 0x400) as u16);
        }
        proof {
            assert(out@ =~= old(out)@ + wide(all.take(it.index() + 1)));
        }
    }
    proof {
        assert(all.take(all.len() as int) =~= all);
    }
}

/// A logger that takes records down to the debug level.
#[derive(Clone, Copy, Debug)]
pub struct VSLogger;

impl VSLogger {
    /// Whether a record of this level is logged.
    pub fn enabled(&self, level: Level) -> (enabled: bool)
        ensures
            enabled == (level_rank(level) <= level_rank(Level::Debug)),
    {
        match level {
            Level::Trace => false,
            _ => true,
        }
    }

    /// The line for a record as the debugger takes it, or nothing for a
    /// record that is not logged.
    pub fn log(&self, level: Level, message: &str) -> (line: Option<Vec<u16>>)
        ensures
            match line {
                Some(units) => level_rank(level) <= level_rank(Level::Debug) && units@ == wide(
                    log_line(level, message@),
                ),
                None => level_rank(level) > level_rank(Level::Debug),
            },
    {
        if self.enabled(level) {
            let mut units: Vec<u16> = Vec::new();
            push_wide(&mut units, "RUST: ");
            push_wide(&mut units, level_name(level));
            push_wide(&mut units, " - ");
            push_wide(&mut units, message);
            push_wide(&mut units, "\r\n");
            proof {
                let a = "RUST: "@;
                let b = spec_level_name(level);
                let c = " - "@;
                let d = message@;
                let e = "\r\n"@;
                lemma_wide_concat(a, b);
                lemma_wide_concat(a + b, c);
                lemma_wide_concat(a + b + c, d);
                lemma_wide_concat(a + b + c + d, e);
                assert(units@ =~= wide(log_line(level, message@)));
            }
            Some(units)
        } else {
            None
        }
    }
}

} // verus!
