//! The output relay: a transparent tee from the child's output stream to
//! the host's logging sink.
//!
//! The child's stream yields discrete events tagged as standard output or
//! standard error (other event kinds carry no text). The relay forwards the
//! text of every tagged event to the sink in arrival order, with no
//! filtering and no buffering; the sink does not distinguish the stream of
//! origin. Because the whole arrival order is preserved, the order within
//! each stream is preserved in particular.

use vstd::prelude::*;

verus! {

/// One event from the child's output stream.
pub enum OutputEvent {
    /// A line the child wrote to standard output.
    Stdout(String),
    /// A line the child wrote to standard error.
    Stderr(String),
    /// Any other stream event; it carries no text to forward.
    Other,
}

/// The text an event contributes to the sink, if any.
pub open spec fn event_line(e: OutputEvent) -> Option<Seq<char>> {
    match e {
        OutputEvent::Stdout(l) => Some(l@),
        OutputEvent::Stderr(l) => Some(l@),
        OutputEvent::Other => None,
    }
}

/// The lines a sequence of events contributes to the sink, in arrival
/// order.
pub open spec fn relayed_lines(es: Seq<OutputEvent>) -> Seq<Seq<char>>
    decreases es.len(),
{
    if es.len() == 0 {
        Seq::empty()
    } else {
        match event_line(es[0]) {
            Some(l) => seq![l] + relayed_lines(es.drop_first()),
            None => relayed_lines(es.drop_first()),
        }
    }
}

/// The host's logging sink, recording every forwarded line in order.
pub struct LogSink {
    /// The forwarded lines, oldest first.
    pub lines: Vec<String>,
}

impl LogSink {
    /// The recorded lines as sequences of characters.
    pub open spec fn spec_lines(self) -> Seq<Seq<char>> {
        self.lines@.map_values(|s: String| s@)
    }

    /// An empty sink.
    pub fn new() -> (sink: LogSink)
        ensures
            sink.spec_lines() == Seq::<Seq<char>>::empty(),
    {
        let sink = LogSink { lines: Vec::new() };
        proof {
            assert(sink.spec_lines() =~= Seq::<Seq<char>>::empty());
        }
        sink
    }

    /// Forwards one event: an output or error line is appended to the sink
    /// and returned for display; any other event leaves the sink unchanged.
    pub fn relay_event<'a>(&mut self, e: &'a OutputEvent) -> (r: Option<&'a String>)
        ensures
            match event_line(*e) {
                Some(l) => (r matches Some(text) && text@ == l && final(self).spec_lines()
                    == old(self).spec_lines().push(l)),
                None => r is None && *final(self) == *old(self),
            },
    {
        match e {
            OutputEvent::Stdout(line) => {
                self.lines.push(line.clone());
                proof {
                    assert(self.spec_lines() =~= old(self).spec_lines().push(line@));
                }
                Some(line)
            },
            OutputEvent::Stderr(line) => {
                self.lines.push(line.clone());
                proof {
                    assert(self.spec_lines() =~= old(self).spec_lines().push(line@));
                }
                Some(line)
            },
            OutputEvent::Other => None,
        }
    }

    /// Forwards a whole sequence of events: the sink grows by exactly the
    /// lines of the tagged events, in arrival order.
    pub fn relay_all(&mut self, events: &Vec<OutputEvent>)
        ensures
            final(self).spec_lines() == old(self).spec_lines() + relayed_lines(events@),
    {
        let n: usize = events.len();
        let mut k: usize = 0;
        while k < n
            invariant
                n == events@.len(),
                0 <= k <= n,
                self.spec_lines() == old(self).spec_lines() + relayed_lines(events@.take(k as int)),
            decreases n - k,
        {
            proof {
                lemma_relayed_lines_push(events@.take(k as int), events@[k as int]);
                assert(events@.take(k as int).push(events@[k as int]) =~= events@.take(
                    k as int + 1));
            }
            let _ = self.relay_event(&events[k]);
            k = k + 1;
        }
        proof {
            assert(events@.take(n as int) =~= events@);
        }
    }
}

/// Appending one event to a sequence appends exactly that event's line (or
/// nothing) to the relayed lines.
pub proof fn lemma_relayed_lines_push(es: Seq<OutputEvent>, e: OutputEvent)
    ensures
        relayed_lines(es.push(e)) == match event_line(e) {
            Some(l) => relayed_lines(es).push(l),
            None => relayed_lines(es),
        },
    decreases es.len(),
{
    if es.len() == 0 {
        assert(es.push(e)[0] == e);
        assert(es.push(e).drop_first() =~= Seq::<OutputEvent>::empty());
        assert(relayed_lines(Seq::<OutputEvent>::empty()) == Seq::<Seq<char>>::empty());
        if event_line(e) is Some {
            let l = event_line(e)->Some_0;
            assert(relayed_lines(es.push(e)) == seq![l] + Seq::<Seq<char>>::empty());
            assert(seq![l] + Seq::<Seq<char>>::empty() =~= relayed_lines(es).push(l));
        } else {
            assert(relayed_lines(es.push(e)) == relayed_lines(es));
        }
    } else {
        assert(es.push(e)[0] == es[0]);
        assert(es.push(e).drop_first() =~= es.drop_first().push(e));
        lemma_relayed_lines_push(es.drop_first(), e);
        if event_line(e) is Some {
            let l = event_line(e)->Some_0;
            assert(relayed_lines(es.push(e)) =~= relayed_lines(es).push(l));
        }
    }
}

/// Relaying a concatenation relays the two parts one after the other.
pub proof fn lemma_relayed_lines_concat(a: Seq<OutputEvent>, b: Seq<OutputEvent>)
    ensures
        relayed_lines(a + b) == relayed_lines(a) + relayed_lines(b),
    decreases a.len(),
{
    if a.len() == 0 {
        assert(a + b =~= b);
        assert(relayed_lines(a) == Seq::<Seq<char>>::empty());
        assert(relayed_lines(a) + relayed_lines(b) =~= relayed_lines(b));
    } else {
        assert((a + b)[0] == a[0]);
        assert((a + b).drop_first() =~= a.drop_first() + b);
        lemma_relayed_lines_concat(a.drop_first(), b);
        if event_line(a[0]) is Some {
            let l = event_line(a[0])->Some_0;
            assert(relayed_lines(a + b) == seq![l] + (relayed_lines(a.drop_first())
                + relayed_lines(b)));
            assert(relayed_lines(a) == seq![l] + relayed_lines(a.drop_first()));
            assert(seq![l] + (relayed_lines(a.drop_first()) + relayed_lines(b)) =~= (seq![l]
                + relayed_lines(a.drop_first())) + relayed_lines(b));
        }
    }
}

/// The lines relayed for a single event.
proof fn lemma_relayed_lines_singleton(e: OutputEvent)
    ensures
        relayed_lines(seq![e]) == match event_line(e) {
            Some(l) => seq![l],
            None => Seq::<Seq<char>>::empty(),
        },
{
    assert(seq![e][0] == e);
    assert(seq![e].drop_first() =~= Seq::<OutputEvent>::empty());
    assert(relayed_lines(Seq::<OutputEvent>::empty()) == Seq::<Seq<char>>::empty());
    if event_line(e) is Some {
        let l = event_line(e)->Some_0;
        assert(relayed_lines(seq![e]) == seq![l] + Seq::<Seq<char>>::empty());
        assert(seq![l] + Seq::<Seq<char>>::empty() =~= seq![l]);
    }
}

/// Where in the sink the line of the event at index `i` lands: after
/// exactly the lines of the tagged events that arrived before it.
pub open spec fn sink_pos(es: Seq<OutputEvent>, i: int) -> int {
    relayed_lines(es.take(i)).len() as int
}

/// A tagged event's line really stands in the sink, at its position.
pub proof fn lemma_event_line_position(es: Seq<OutputEvent>, i: int)
    requires
        0 <= i < es.len(),
        event_line(es[i]) is Some,
    ensures
        0 <= sink_pos(es, i) < relayed_lines(es).len(),
        relayed_lines(es)[sink_pos(es, i)] == event_line(es[i])->Some_0,
{
    assert(es =~= es.take(i) + (seq![es[i]] + es.skip(i + 1)));
    lemma_relayed_lines_concat(es.take(i), seq![es[i]] + es.skip(i + 1));
    lemma_relayed_lines_concat(seq![es[i]], es.skip(i + 1));
    lemma_relayed_lines_singleton(es[i]);
    let l = event_line(es[i])->Some_0;
    assert(relayed_lines(es) == relayed_lines(es.take(i)) + (seq![l] + relayed_lines(es.skip(i
        + 1))));
}

/// Events are forwarded to the sink in arrival order: of two tagged events,
/// the one that arrived first appears at the earlier sink position, and each
/// position holds exactly that event's line. In particular, lines written to
/// standard output appear in the order they were produced, and so do lines
/// written to standard error.
pub proof fn lemma_relay_preserves_order(es: Seq<OutputEvent>, i: int, j: int)
    requires
        0 <= i < j < es.len(),
        event_line(es[i]) is Some,
        event_line(es[j]) is Some,
    ensures
        0 <= sink_pos(es, i) < sink_pos(es, j) < relayed_lines(es).len(),
        relayed_lines(es)[sink_pos(es, i)] == event_line(es[i])->Some_0,
        relayed_lines(es)[sink_pos(es, j)] == event_line(es[j])->Some_0,
{
    lemma_event_line_position(es, i);
    lemma_event_line_position(es, j);
    assert(es.take(j) =~= es.take(i) + (seq![es[i]] + es.subrange(i + 1, j)));
    lemma_relayed_lines_concat(es.take(i), seq![es[i]] + es.subrange(i + 1, j));
    lemma_relayed_lines_concat(seq![es[i]], es.subrange(i + 1, j));
    lemma_relayed_lines_singleton(es[i]);
}

} // verus!
