//! Status lines in front of the prompts of one interactive shell session.
//!
//! When status lines are off, the bytes of the shell pass through as they are.
//! When they are on, a status line of its own stands before each prompt that
//! newly appears.

use vstd::prelude::*;

verus! {

/// The start of a prompt in the display, and whether it is a new prompt rather
/// than a repaint.
#[derive(Clone, Copy, Debug, PartialEq, Eq, Structural)]
pub struct PromptDisplayStart {
    pub position: usize,
    pub publish_status: bool,
}

/// The status line while input is assisted: a diamond, a space and a line break.
pub open spec fn assisted_status() -> Seq<u8> {
    seq![0xe2u8, 0x97u8, 0x87u8, 0x20u8, 0x0du8, 0x0au8]
}

/// The status line while input goes to the shell alone: a dotted circle, a
/// space and a line break.
pub open spec fn shell_only_status() -> Seq<u8> {
    seq![0xe2u8, 0x97u8, 0x8cu8, 0x20u8, 0x0du8, 0x0au8]
}

/// The positions go up.
pub open spec fn ascending(starts: Seq<PromptDisplayStart>) -> bool {
    forall|i: int, j: int|
        0 <= i < j < starts.len() ==> (#[trigger] starts[i]).position <= (#[trigger] starts[j]).position
}

/// The starts that are not before a position.
pub open spec fn starts_from(starts: Seq<PromptDisplayStart>, position: int) -> Seq<
    PromptDisplayStart,
>
    decreases starts.len(),
{
    if starts.len() > 0 && starts[0].position < position {
        starts_from(starts.skip(1), position)
    } else {
        starts
    }
}

/// The display from `start` to `end` with a status line at each new prompt in
/// it. `bytes` are the bytes of that range.
pub open spec fn woven(
    starts: Seq<PromptDisplayStart>,
    start: int,
    end: int,
    bytes: Seq<u8>,
    status: Seq<u8>,
) -> Seq<u8>
    decreases starts.len(),
{
    if starts.len() == 0 || starts[0].position >= end {
        bytes
    } else {
        let at = starts[0].position - start;
        bytes.take(at) + (if starts[0].publish_status {
            status
        } else {
            Seq::empty()
        }) + woven(starts.skip(1), starts[0].position as int, end, bytes.skip(at), status)
    }
}

/// Shows prompts for one session.
pub struct PromptPresentation {
    enabled: bool,
    assisted: bool,
    pending: Vec<PromptDisplayStart>,
}

/// What a [`PromptPresentation`] holds.
#[verifier::ext_equal]
pub struct PresentationView {
    pub enabled: bool,
    pub assisted: bool,
    pub pending: Seq<PromptDisplayStart>,
}

impl View for PromptPresentation {
    type V = PresentationView;

    closed spec fn view(&self) -> PresentationView {
        PresentationView {
            enabled: self.enabled,
            assisted: self.assisted,
            pending: self.pending@,
        }
    }
}

impl PresentationView {
    /// The starts are in order, and there are none while status lines are off.
    pub open spec fn wf(self) -> bool {
        ascending(self.pending) && (!self.enabled ==> self.pending.len() == 0)
    }

    /// The status line, empty while status lines are off.
    pub open spec fn status(self) -> Seq<u8> {
        if !self.enabled {
            Seq::empty()
        } else if self.assisted {
            assisted_status()
        } else {
            shell_only_status()
        }
    }

    /// A prompt that comes back, with its status line.
    pub open spec fn restored(self, prompt: Seq<u8>) -> Seq<u8> {
        if prompt.len() > 0 {
            self.status() + prompt
        } else {
            Seq::empty()
        }
    }

    /// Without the starts before a position.
    pub open spec fn from(self, position: int) -> PresentationView {
        PresentationView { pending: starts_from(self.pending, position), ..self }
    }
}

proof fn lemma_starts_from(starts: Seq<PromptDisplayStart>, position: int)
    requires
        ascending(starts),
    ensures
        ascending(starts_from(starts, position)),
        forall|i: int|
            0 <= i < starts_from(starts, position).len() ==> (#[trigger] starts_from(
                starts,
                position,
            )[i]).position >= position,
    decreases starts.len(),
{
    if starts.len() > 0 && starts[0].position < position {
        lemma_starts_from(starts.skip(1), position);
    } else if starts.len() > 0 {
        assert forall|i: int| 0 <= i < starts.len() implies (#[trigger] starts[i]).position
            >= position by {
            if i > 0 {
                assert(starts[0].position <= starts[i].position);
            }
        }
    }
}

fn append(output: &mut Vec<u8>, bytes: &Vec<u8>, from: usize, to: usize)
    requires
        from <= to <= bytes@.len(),
    ensures
        final(output)@ == old(output)@ + bytes@.subrange(from as int, to as int),
{
    let mut i: usize = from;
    while i < to
        invariant
            from <= i <= to <= bytes@.len(),
            output@ == old(output)@ + bytes@.subrange(from as int, i as int),
        decreases to - i,
    {
        output.push(bytes[i]);
        i = i + 1;
        assert(output@ =~= old(output)@ + bytes@.subrange(from as int, i as int));
    }
}

impl PromptPresentation {
    /// Nothing is pending, and input is assisted.
    pub fn new(enabled: bool) -> (res: PromptPresentation)
        ensures
            res@ == (PresentationView { enabled, assisted: true, pending: Seq::empty() }),
            res@.wf(),
    {
        PromptPresentation { enabled, assisted: true, pending: Vec::new() }
    }

    /// Takes note of whether input is assisted.
    pub fn set_assistance(&mut self, assisted: bool)
        ensures
            final(self)@ == (PresentationView { assisted, ..old(self)@ }),
    {
        self.assisted = assisted;
    }

    /// The status line, if there is one.
    fn status_line(&self) -> (res: Vec<u8>)
        ensures
            res@ == self@.status(),
    {
        let mut out: Vec<u8> = Vec::new();
        if !self.enabled {
            assert(out@ =~= self@.status());
            return out;
        }
        out.push(0xe2);
        out.push(0x97);
        if self.assisted {
            out.push(0x87);
        } else {
            out.push(0x8c);
        }
        out.push(0x20);
        out.push(0x0d);
        out.push(0x0a);
        assert(out@ =~= self@.status());
        out
    }

    /// Takes in prompt starts that the display has passed. While status lines
    /// are off they are forgotten at once.
    pub fn observe(&mut self, starts: &Vec<PromptDisplayStart>)
        requires
            old(self)@.wf(),
            ascending(old(self)@.pending + starts@),
        ensures
            final(self)@ == (PresentationView {
                pending: if old(self)@.enabled {
                    old(self)@.pending + starts@
                } else {
                    old(self)@.pending
                },
                ..old(self)@
            }),
            final(self)@.wf(),
    {
        if !self.enabled {
            return;
        }
        let mut i: usize = 0;
        while i < starts.len()
            invariant
                i <= starts@.len(),
                self@.enabled == old(self)@.enabled,
                self@.assisted == old(self)@.assisted,
                self@.pending == old(self)@.pending + starts@.take(i as int),
            decreases starts@.len() - i,
        {
            self.pending.push(starts[i]);
            i = i + 1;
            assert(self@.pending =~= old(self)@.pending + starts@.take(i as int));
        }
        assert(starts@.take(starts@.len() as int) =~= starts@);
    }

    /// Forgets the starts before a position.
    pub fn discard_before(&mut self, position: usize)
        requires
            old(self)@.wf(),
        ensures
            final(self)@ == old(self)@.from(position as int),
            final(self)@.wf(),
    {
        proof {
            lemma_starts_from(self.pending@, position as int);
        }
        while self.pending.len() > 0 && self.pending[0].position < position
            invariant
                self@.enabled == old(self)@.enabled,
                self@.assisted == old(self)@.assisted,
                starts_from(self@.pending, position as int) == starts_from(
                    old(self)@.pending,
                    position as int,
                ),
                !self@.enabled ==> self@.pending.len() == 0,
            decreases self@.pending.len(),
        {
            let ghost before = self@.pending;
            let _ = self.pending.remove(0);
            assert(self@.pending =~= before.skip(1));
        }
        assert(self@ =~= old(self)@.from(position as int));
    }

    /// Writes the bytes of a range, with a status line at each new prompt in it.
    pub fn write_range(&mut self, start: usize, end: usize, bytes: &Vec<u8>, output: &mut Vec<u8>)
        requires
            old(self)@.wf(),
            start <= end,
            bytes@.len() == end - start,
        ensures
            final(self)@ == old(self)@.from(start as int).from(end as int),
            final(self)@.wf(),
            final(output)@ == old(output)@ + woven(
                old(self)@.from(start as int).pending,
                start as int,
                end as int,
                bytes@,
                old(self)@.status(),
            ),
    {
        self.discard_before(start);
        let ghost first = self@;
        let status = self.status_line();
        let mut cursor: usize = start;
        proof {
            lemma_starts_from(old(self)@.pending, start as int);
            lemma_starts_from(first.pending, end as int);
            assert(bytes@.skip(0) =~= bytes@);
        }
        while self.pending.len() > 0 && self.pending[0].position < end
            invariant
                start <= cursor <= end,
                bytes@.len() == end - start,
                first == old(self)@.from(start as int),
                status@ == old(self)@.status(),
                self@.enabled == first.enabled,
                self@.assisted == first.assisted,
                ascending(self@.pending),
                !self@.enabled ==> self@.pending.len() == 0,
                forall|i: int|
                    0 <= i < self@.pending.len() ==> (#[trigger] self@.pending[i]).position
                        >= cursor,
                starts_from(self@.pending, end as int) == starts_from(first.pending, end as int),
                output@ + woven(
                    self@.pending,
                    cursor as int,
                    end as int,
                    bytes@.skip(cursor - start),
                    status@,
                ) == old(output)@ + woven(
                    first.pending,
                    start as int,
                    end as int,
                    bytes@,
                    status@,
                ),
            decreases self@.pending.len(),
        {
            let ghost pending = self@.pending;
            let ghost written = output@;
            let ghost rest = bytes@.skip(cursor - start);
            let boundary: PromptDisplayStart = self.pending[0];
            assert(pending[0].position >= cursor);
            append(output, bytes, cursor - start, boundary.position - start);
            if boundary.publish_status {
                append(output, &status, 0, status.len());
            }
            let _ = self.pending.remove(0);
            proof {
                let at = boundary.position - cursor;
                assert(self@.pending =~= pending.skip(1));
                assert(rest.take(at) =~= bytes@.subrange(
                    cursor - start,
                    boundary.position - start,
                ));
                assert(rest.skip(at) =~= bytes@.skip(boundary.position - start));
                assert(status@.subrange(0, status@.len() as int) =~= status@);
                let tail = woven(
                    pending.skip(1),
                    boundary.position as int,
                    end as int,
                    rest.skip(at),
                    status@,
                );
                let shown = if boundary.publish_status {
                    status@
                } else {
                    Seq::empty()
                };
                assert(output@ =~= written + rest.take(at) + shown);
                assert(output@ + tail =~= written + (rest.take(at) + shown + tail));
                assert forall|i: int| 0 <= i < self@.pending.len() implies (
                #[trigger] self@.pending[i]).position >= boundary.position by {
                    assert(self@.pending[i] == pending[i + 1]);
                    assert(pending[0].position <= pending[i + 1].position);
                }
                assert(ascending(self@.pending)) by {
                    assert forall|i: int, j: int| 0 <= i < j < self@.pending.len() implies (
                    #[trigger] self@.pending[i]).position <= (
                    #[trigger] self@.pending[j]).position by {
                        assert(pending[i + 1].position <= pending[j + 1].position);
                    }
                }
            }
            cursor = boundary.position;
        }
        append(output, bytes, cursor - start, bytes.len());
        proof {
            assert(bytes@.subrange(cursor - start, bytes@.len() as int) =~= bytes@.skip(
                cursor - start,
            ));
            assert(self@ =~= first.from(end as int));
        }
    }

    /// Writes bytes that stand for a range of the display. If they are as long
    /// as the range, it is as if they were its own; else the only start that
    /// counts is one right at the beginning of the range.
    pub fn write_transformed_range(
        &mut self,
        start: usize,
        end: usize,
        bytes: &Vec<u8>,
        output: &mut Vec<u8>,
    )
        requires
            old(self)@.wf(),
        ensures
            (final(self)@, final(output)@) == transformed(
                old(self)@,
                start as int,
                end as int,
                bytes@,
                old(output)@,
            ),
            final(self)@.wf(),
    {
        let length: usize = if end >= start {
            end - start
        } else {
            0
        };
        if bytes.len() == length {
            if end >= start {
                self.write_range(start, end, bytes, output);
            } else {
                self.discard_before(start);
                assert(output@ =~= old(output)@ + bytes@);
            }
            return;
        }
        self.discard_before(start);
        let ghost first = self@;
        let ghost written = output@;
        if self.pending.len() > 0 && self.pending[0].position == start && bytes.len() > 0 {
            let status = self.status_line();
            if self.pending[0].publish_status {
                append(output, &status, 0, status.len());
                assert(status@.subrange(0, status@.len() as int) =~= status@);
            }
            let _ = self.pending.remove(0);
            assert(self@.pending =~= first.pending.skip(1));
            assert(ascending(self@.pending)) by {
                assert forall|i: int, j: int| 0 <= i < j < self@.pending.len() implies (
                #[trigger] self@.pending[i]).position <= (#[trigger] self@.pending[j]).position by {
                    assert(first.pending[i + 1].position <= first.pending[j + 1].position);
                }
            }
        }
        let ghost second = self@;
        self.discard_before(end);
        let ghost shown = output@;
        append(output, bytes, 0, bytes.len());
        proof {
            assert(bytes@.subrange(0, bytes@.len() as int) =~= bytes@);
            let expected = transformed(old(self)@, start as int, end as int, bytes@, written);
            assert(output@ =~= expected.1);
            assert(self@ =~= expected.0);
        }
    }

    /// Writes a prompt that comes back, with the status line if there is a
    /// prompt at all.
    pub fn write_restored_prompt(&self, prompt: &Vec<u8>, output: &mut Vec<u8>)
        requires
            self@.wf(),
        ensures
            final(output)@ == old(output)@ + self@.restored(prompt@),
            final(output)@ == old(output)@ + (if prompt@.len() > 0 {
                self@.status() + prompt@
            } else {
                Seq::empty()
            }),
    {
        if prompt.len() > 0 {
            let status = self.status_line();
            append(output, &status, 0, status.len());
            assert(status@.subrange(0, status@.len() as int) =~= status@);
        }
        append(output, prompt, 0, prompt.len());
        proof {
            assert(prompt@.subrange(0, prompt@.len() as int) =~= prompt@);
            assert(output@ =~= old(output)@ + (if prompt@.len() > 0 {
                self@.status() + prompt@
            } else {
                Seq::empty()
            }));
        }
    }

    /// Repaints the prompt as it is.
    pub fn write_replayed_prompt(&self, prompt: &Vec<u8>, output: &mut Vec<u8>)
        ensures
            final(output)@ == old(output)@ + prompt@,
    {
        append(output, prompt, 0, prompt.len());
        assert(prompt@.subrange(0, prompt@.len() as int) =~= prompt@);
    }

    /// Writes a slice of the display whose first part was normalized: `stripped`
    /// bytes of it are left up to `prefix_end`, `normalized` stands for them,
    /// and `rest` is what follows.
    pub fn write_display_slice(
        &mut self,
        prefix_end: usize,
        end: usize,
        stripped: usize,
        normalized: &Vec<u8>,
        rest: &Vec<u8>,
        output: &mut Vec<u8>,
    )
        requires
            old(self)@.wf(),
            prefix_end <= end,
            rest@.len() == end - prefix_end,
        ensures
            (final(self)@, final(output)@) == sliced(
                old(self)@,
                prefix_end as int,
                end as int,
                stripped as int,
                normalized@,
                rest@,
                old(output)@,
            ),
            final(self)@.wf(),
    {
        let start: usize = if prefix_end >= stripped {
            prefix_end - stripped
        } else {
            0
        };
        self.discard_before(start);
        self.write_transformed_range(start, prefix_end, normalized, output);
        self.write_range(prefix_end, end, rest, output);
    }
}

/// What is left, and what is written, when `bytes` stand for a range.
pub open spec fn transformed(
    p: PresentationView,
    start: int,
    end: int,
    bytes: Seq<u8>,
    written: Seq<u8>,
) -> (PresentationView, Seq<u8>) {
    let first = p.from(start);
    let length = if end >= start {
        end - start
    } else {
        0
    };
    if bytes.len() == length {
        if end >= start {
            (
                first.from(end),
                written + woven(first.pending, start, end, bytes, p.status()),
            )
        } else {
            (first, written + bytes)
        }
    } else if first.pending.len() > 0 && first.pending[0].position == start && bytes.len() > 0 {
        (
            (PresentationView { pending: first.pending.skip(1), ..first }).from(end),
            written + (if first.pending[0].publish_status {
                p.status()
            } else {
                Seq::empty()
            }) + bytes,
        )
    } else {
        (first.from(end), written + bytes)
    }
}

/// What is left, and what is written, for a slice of the display.
pub open spec fn sliced(
    p: PresentationView,
    prefix_end: int,
    end: int,
    stripped: int,
    normalized: Seq<u8>,
    rest: Seq<u8>,
    written: Seq<u8>,
) -> (PresentationView, Seq<u8>) {
    let start = if prefix_end >= stripped {
        prefix_end - stripped
    } else {
        0
    };
    let head = transformed(p.from(start), start, prefix_end, normalized, written);
    let tail = head.0.from(prefix_end);
    (
        tail.from(end),
        head.1 + woven(tail.pending, prefix_end, end, rest, head.0.status()),
    )
}

/// How much of a slice is looked at for a replayed prompt: as long as the
/// prompt or what is still expected of it, at least one byte, and no more than
/// there is.
pub open spec fn prefix_length(start: int, end: int, prompt: int, expected: int) -> int {
    let length = if end >= start {
        end - start
    } else {
        0
    };
    let wanted = if prompt >= expected {
        prompt
    } else {
        expected
    };
    let least = if wanted >= 1 {
        wanted
    } else {
        1
    };
    if length <= least {
        length
    } else {
        least
    }
}

/// How much of a slice is looked at for a replayed prompt.
pub fn replay_prefix_len(start: usize, end: usize, prompt: usize, expected: usize) -> (res: usize)
    ensures
        res == prefix_length(start as int, end as int, prompt as int, expected as int),
{
    let length: usize = if end >= start {
        end - start
    } else {
        0
    };
    let wanted: usize = if prompt >= expected {
        prompt
    } else {
        expected
    };
    let least: usize = if wanted >= 1 {
        wanted
    } else {
        1
    };
    if length <= least {
        length
    } else {
        least
    }
}

/// While status lines are off, whatever is written is written as it is.
pub proof fn disabled_presentation_is_verbatim(
    p: PresentationView,
    start: int,
    end: int,
    bytes: Seq<u8>,
    written: Seq<u8>,
)
    requires
        p.wf(),
        !p.enabled,
    ensures
        transformed(p, start, end, bytes, written) == (p, written + bytes),
        woven(p.from(start).pending, start, end, bytes, p.status()) == bytes,
{
    assert(p.from(start) =~= p);
    assert(p.from(start).from(end) =~= p);
}

/// Status lines only add to the display: with an empty status line the display
/// is what the shell wrote.
pub proof fn nothing_of_the_display_is_lost(
    starts: Seq<PromptDisplayStart>,
    start: int,
    end: int,
    bytes: Seq<u8>,
)
    requires
        ascending(starts),
        starts.len() > 0 ==> starts[0].position >= start,
        start <= end,
        bytes.len() == end - start,
    ensures
        woven(starts, start, end, bytes, Seq::empty()) == bytes,
    decreases starts.len(),
{
    if starts.len() > 0 && starts[0].position < end {
        let at = starts[0].position - start;
        let rest = starts.skip(1);
        assert(ascending(rest)) by {
            assert forall|i: int, j: int| 0 <= i < j < rest.len() implies (
            #[trigger] rest[i]).position <= (#[trigger] rest[j]).position by {
                assert(starts[i + 1].position <= starts[j + 1].position);
            }
        }
        if rest.len() > 0 {
            assert(starts[0].position <= starts[1].position);
        }
        nothing_of_the_display_is_lost(rest, starts[0].position as int, end, bytes.skip(at));
        assert(bytes.take(at) + Seq::<u8>::empty() + bytes.skip(at) =~= bytes);
    }
}

/// A display that is written in two pieces looks as if it were written at once.
pub proof fn pieces_of_the_display_compose(
    starts: Seq<PromptDisplayStart>,
    start: int,
    middle: int,
    end: int,
    head: Seq<u8>,
    tail: Seq<u8>,
    status: Seq<u8>,
)
    requires
        ascending(starts),
        starts.len() > 0 ==> starts[0].position >= start,
        start <= middle <= end,
        head.len() == middle - start,
        tail.len() == end - middle,
    ensures
        woven(starts, start, end, head + tail, status) == woven(starts, start, middle, head, status)
            + woven(starts_from(starts, middle), middle, end, tail, status),
    decreases starts.len(),
{
    if starts.len() == 0 || starts[0].position >= end {
    } else if starts[0].position < middle {
        let at = starts[0].position - start;
        let rest = starts.skip(1);
        assert(ascending(rest)) by {
            assert forall|i: int, j: int| 0 <= i < j < rest.len() implies (
            #[trigger] rest[i]).position <= (#[trigger] rest[j]).position by {
                assert(starts[i + 1].position <= starts[j + 1].position);
            }
        }
        if rest.len() > 0 {
            assert(starts[0].position <= starts[1].position);
        }
        pieces_of_the_display_compose(
            rest,
            starts[0].position as int,
            middle,
            end,
            head.skip(at),
            tail,
            status,
        );
        assert((head + tail).take(at) =~= head.take(at));
        assert((head + tail).skip(at) =~= head.skip(at) + tail);
        let shown = if starts[0].publish_status {
            status
        } else {
            Seq::empty()
        };
        let a = woven(rest, starts[0].position as int, middle, head.skip(at), status);
        let b = woven(starts_from(rest, middle), middle, end, tail, status);
        assert(head.take(at) + shown + (a + b) =~= (head.take(at) + shown + a) + b);
    } else {
        let at = starts[0].position - start;
        let shown = if starts[0].publish_status {
            status
        } else {
            Seq::empty()
        };
        let inner = starts[0].position - middle;
        assert((head + tail).take(at) =~= head + tail.take(inner));
        assert((head + tail).skip(at) =~= tail.skip(inner));
        let rest = woven(
            starts.skip(1),
            starts[0].position as int,
            end,
            tail.skip(inner),
            status,
        );
        assert(starts_from(starts, middle) == starts);
        assert((head + tail.take(inner)) + shown + rest =~= head + (tail.take(inner) + shown
            + rest));
    }
}

} // verus!
