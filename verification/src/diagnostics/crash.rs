//! Crash records: one line per panic, in a log that stays bounded.

use vstd::prelude::*;
use vstd::string::*;
use vstd::utf8::*;

use crate::login_shell::table::{first_of, lemma_first_of, lemma_first_of_is};
use crate::text::{decimal, decimal_text, lines, lines_of, opt_view, texts, utf8_text};
use crate::tree::{
    json_list, json_object, json_opt, json_put, json_render, json_string, json_text, json_tree,
    json_u64, opt_tree, put_text, Tree,
};

verus! {

/// The bound of the log in bytes.
pub const MAX_LOG_BYTES: u64 = 1_048_576;

/// How many lines of a backtrace are kept.
pub const BACKTRACE_LINES: usize = 8;

/// A payload as a text.
pub fn panic_message(payload: Option<String>) -> (res: String)
    ensures
        res@ == (match payload {
            Some(message) => message@,
            None => "non-string panic payload"@,
        }),
{
    match payload {
        Some(message) => message,
        None => "non-string panic payload".to_owned(),
    }
}

/// A place in the code as it is recorded.
pub fn panic_location(file: &str, line: u32) -> (res: String)
    ensures
        res@ == file@ + ":"@ + decimal(line as nat),
{
    let number = decimal_text(line as u128);
    file.to_owned().concat(":").concat(number.as_str())
}

/// The first lines of a backtrace.
pub open spec fn summary_of(backtrace: Seq<char>) -> Seq<Seq<char>> {
    let all = lines_of(backtrace);
    if all.len() <= BACKTRACE_LINES {
        all
    } else {
        all.take(BACKTRACE_LINES as int)
    }
}

/// The first lines of a backtrace.
pub fn backtrace_summary(backtrace: &str) -> (res: Vec<String>)
    ensures
        texts(res@) == summary_of(backtrace@),
{
    let mut all = lines(backtrace);
    let ghost views = texts(all@);
    if all.len() > BACKTRACE_LINES {
        all.truncate(BACKTRACE_LINES);
        assert(texts(all@) =~= views.take(BACKTRACE_LINES as int));
    }
    all
}

/// One panic.
pub struct CrashReport {
    /// Milliseconds since 1970.
    pub ts: u64,
    pub version: String,
    pub pid: u32,
    pub panic: String,
    pub location: Option<String>,
    pub backtrace: Vec<String>,
}

/// A panic as a document.
pub open spec fn crash_document(report: CrashReport) -> Tree {
    Tree::Object(
        Map::empty().insert("ts"@, Tree::Int(report.ts as int)).insert(
            "version"@,
            Tree::Text(report.version@),
        ).insert("pid"@, Tree::Int(report.pid as int)).insert("panic"@, Tree::Text(report.panic@)).insert(
            "location"@,
            opt_tree(opt_view(report.location)),
        ).insert(
            "backtrace"@,
            Tree::List(
                Seq::new(report.backtrace@.len(), |i: int| Tree::Text(report.backtrace@[i]@)),
            ),
        ),
    )
}

/// A panic as a line of the log.
pub fn crash_line(report: &CrashReport) -> (res: String)
    ensures
        res@ == json_text(crash_document(*report)) + "\n"@,
{
    let mut frames: Vec<serde_json::Value> = Vec::new();
    let mut i: usize = 0;
    while i < report.backtrace.len()
        invariant
            i <= report.backtrace@.len(),
            frames@.len() == i,
            forall|j: int|
                0 <= j < i ==> json_tree(#[trigger] frames@[j]) == Tree::Text(
                    report.backtrace@[j]@,
                ),
        decreases report.backtrace@.len() - i,
    {
        frames.push(json_string(report.backtrace[i].as_str()));
        i = i + 1;
    }
    let list = json_list(frames);
    proof {
        let a = Seq::new(frames@.len(), |i: int| json_tree(frames@[i]));
        let b = Seq::new(report.backtrace@.len(), |i: int| Tree::Text(report.backtrace@[i]@));
        assert(a =~= b);
    }
    let mut out = json_object();
    json_put(&mut out, "ts", json_u64(report.ts));
    put_text(&mut out, "version", report.version.as_str());
    json_put(&mut out, "pid", json_u64(report.pid as u64));
    put_text(&mut out, "panic", report.panic.as_str());
    json_put(&mut out, "location", json_opt(&report.location));
    json_put(&mut out, "backtrace", list);
    json_render(&out).concat("\n")
}

/// Whether a log of this length has to shrink before a line is added.
pub fn must_shrink(current: u64, added: usize) -> (res: bool)
    ensures
        res == (current + added > MAX_LOG_BYTES),
{
    current > MAX_LOG_BYTES || added as u64 > MAX_LOG_BYTES - current
}

/// What is kept of a log that has to shrink: the whole lines of its second half.
/// Nothing is kept of a log that is no text.
pub open spec fn kept_tail(existing: Seq<u8>) -> Seq<u8> {
    let half = MAX_LOG_BYTES / 2;
    let start = if existing.len() > half {
        existing.len() - half
    } else {
        0
    };
    let rest = existing.skip(start);
    let n = first_of(rest, 10);
    if valid_utf8(existing) && n < rest.len() {
        rest.skip(n + 1)
    } else {
        Seq::empty()
    }
}

/// What is kept of a log that has to shrink.
pub fn keep_tail(existing: &Vec<u8>) -> (res: Vec<u8>)
    ensures
        res@ == kept_tail(existing@),
{
    if utf8_text(existing.as_slice()).is_none() {
        let none: Vec<u8> = Vec::new();
        assert(none@ =~= kept_tail(existing@));
        return none;
    }
    let half: usize = 524_288;
    let start: usize = if existing.len() > half {
        existing.len() - half
    } else {
        0
    };
    let ghost rest = existing@.skip(start as int);
    let mut at: usize = start;
    while at < existing.len() && existing[at] != 10
        invariant
            start <= at <= existing@.len(),
            rest == existing@.skip(start as int),
            forall|j: int| 0 <= j < at - start ==> rest[j] != 10,
        decreases existing@.len() - at,
    {
        assert(rest[at - start] == existing@[at as int]);
        at = at + 1;
    }
    proof {
        if at < existing@.len() {
            assert(rest[at - start] == existing@[at as int]);
        }
        lemma_first_of_is(rest, 10, at - start);
    }
    let mut out: Vec<u8> = Vec::new();
    if at < existing.len() {
        let mut i: usize = at + 1;
        while i < existing.len()
            invariant
                at + 1 <= i <= existing@.len(),
                out@ == existing@.subrange(at + 1, i as int),
            decreases existing@.len() - i,
        {
            out.push(existing[i]);
            i = i + 1;
            assert(out@ =~= existing@.subrange(at + 1, i as int));
        }
        assert(rest.skip(at - start + 1) =~= existing@.subrange(at + 1, existing@.len() as int));
        assert(out@ =~= existing@.subrange(at + 1, existing@.len() as int));
    }
    assert(out@ =~= kept_tail(existing@));
    out
}

/// The log after a line was added.
pub open spec fn log_after(existing: Seq<u8>, line: Seq<u8>) -> Seq<u8> {
    if existing.len() + line.len() > MAX_LOG_BYTES {
        kept_tail(existing) + line
    } else {
        existing + line
    }
}

/// The log after a line was added.
pub fn append_bounded(existing: &Vec<u8>, line: &Vec<u8>) -> (res: Vec<u8>)
    ensures
        res@ == log_after(existing@, line@),
{
    let mut out: Vec<u8> = if must_shrink(existing.len() as u64, line.len()) {
        keep_tail(existing)
    } else {
        existing.clone()
    };
    let ghost kept = out@;
    let mut i: usize = 0;
    while i < line.len()
        invariant
            i <= line@.len(),
            out@ == kept + line@.take(i as int),
        decreases line@.len() - i,
    {
        out.push(line[i]);
        i = i + 1;
        assert(out@ =~= kept + line@.take(i as int));
    }
    assert(line@.take(line@.len() as int) =~= line@);
    out
}

/// Whatever is logged, the log stays within its bound as long as no line is
/// longer than half of it, and ends with the newest line.
pub proof fn the_log_is_bounded(existing: Seq<u8>, line: Seq<u8>)
    requires
        line.len() <= MAX_LOG_BYTES / 2,
    ensures
        log_after(existing, line).len() <= MAX_LOG_BYTES,
        log_after(existing, line).skip(log_after(existing, line).len() - line.len()) == line,
{
    let half = MAX_LOG_BYTES / 2;
    let start = if existing.len() > half {
        existing.len() - half
    } else {
        0
    };
    lemma_first_of(existing.skip(start), 10);
    let all = log_after(existing, line);
    assert(all.skip(all.len() - line.len()) =~= line);
}

/// What is kept are whole lines from the end of the log: it is the end of the
/// log, and follows a line break.
pub proof fn whole_lines_are_kept(existing: Seq<u8>)
    ensures
        kept_tail(existing).len() <= existing.len(),
        existing.skip(existing.len() - kept_tail(existing).len()) == kept_tail(existing),
        kept_tail(existing).len() > 0 ==> existing[existing.len() - kept_tail(existing).len() - 1]
            == 10,
{
    let half = MAX_LOG_BYTES / 2;
    let start = if existing.len() > half {
        existing.len() - half
    } else {
        0
    };
    let rest = existing.skip(start);
    lemma_first_of(rest, 10);
    let n = first_of(rest, 10);
    let kept = kept_tail(existing);
    if valid_utf8(existing) && n < rest.len() {
        assert(rest[n] == existing[start + n]);
        assert(existing.skip(existing.len() - kept.len()) =~= kept);
    } else {
        assert(existing.skip(existing.len() as int) =~= Seq::empty());
    }
}

} // verus!
