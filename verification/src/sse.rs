//! Incremental decoding of a streamed chat completion: the body arrives
//! as arbitrary byte chunks, carrying newline-terminated event lines of
//! the form `data: <json>`.  A payload of `[DONE]` ends the stream; any
//! other payload contributes the text found at its first choice's delta,
//! and a payload that does not decode is skipped.  A line split across
//! two chunks is carried over and decoded whole.

use vstd::prelude::*;
use vstd::string::StringExecFns;
use crate::json::json_str_of;
use crate::json::json_string_at;

verus! {

/// The bytes of the event-line prefix `data: `.
pub open spec fn data_prefix() -> Seq<u8> {
    seq![100u8, 97u8, 116u8, 97u8, 58u8, 32u8]
}

/// The bytes of the end-of-stream sentinel payload `[DONE]`.
pub open spec fn done_payload() -> Seq<u8> {
    seq![91u8, 68u8, 79u8, 78u8, 69u8, 93u8]
}

/// A line with its trailing carriage return, if any, removed.
pub open spec fn strip_cr(l: Seq<u8>) -> Seq<u8> {
    if l.len() > 0 && l.last() == 13u8 {
        l.drop_last()
    } else {
        l
    }
}

/// Whether a line carries an event: after stripping a trailing
/// carriage return it starts with the event prefix.
pub open spec fn is_data_line(l: Seq<u8>) -> bool {
    strip_cr(l).len() >= 6 && strip_cr(l).subrange(0, 6) == data_prefix()
}

/// The payload of an event line: what follows the prefix.
pub open spec fn payload_of(l: Seq<u8>) -> Seq<u8> {
    strip_cr(l).subrange(6, strip_cr(l).len() as int)
}

/// The text a stream event contributes: the string at
/// `choices[0].delta.content` of its JSON payload, if present.
pub open spec fn delta_content_of(p: Seq<u8>) -> Option<Seq<char>> {
    json_str_of(p, "/choices/0/delta/content"@)
}

/// The accumulated text after one complete line is decoded on top of
/// the text so far.
pub open spec fn line_text(t: Seq<char>, l: Seq<u8>) -> Seq<char> {
    if !is_data_line(l) {
        t
    } else if payload_of(l) == done_payload() {
        t
    } else {
        match delta_content_of(payload_of(l)) {
            Some(d) => t + d,
            None => t,
        }
    }
}

/// Whether one complete line ends the stream.
pub open spec fn line_done(l: Seq<u8>) -> bool {
    is_data_line(l) && payload_of(l) == done_payload()
}

/// The decoder state determined by the bytes read so far: the text of
/// the deltas decoded from complete lines, the bytes of the unfinished
/// last line, and whether the sentinel has arrived.
pub struct StreamState {
    pub text: Seq<char>,
    pub carry: Seq<u8>,
    pub done: bool,
}

/// What the decoder state is after any byte sequence: bytes are taken
/// one at a time; a newline closes the carried line and decodes it;
/// after the sentinel everything is ignored.
pub open spec fn stream_state(b: Seq<u8>) -> StreamState
    decreases b.len(),
{
    if b.len() == 0 {
        StreamState { text: Seq::empty(), carry: Seq::empty(), done: false }
    } else {
        let st = stream_state(b.drop_last());
        let x = b.last();
        if st.done {
            st
        } else if x == 10u8 {
            StreamState {
                text: line_text(st.text, st.carry),
                carry: Seq::empty(),
                done: line_done(st.carry),
            }
        } else {
            StreamState { text: st.text, carry: st.carry.push(x), done: false }
        }
    }
}

/// The final text of a whole body: if the stream never saw the
/// sentinel, the unfinished last line is decoded as a final line.
pub open spec fn finished_text(b: Seq<u8>) -> Seq<char> {
    let st = stream_state(b);
    if st.done {
        st.text
    } else {
        line_text(st.text, st.carry)
    }
}

/// The concatenation of a sequence of strings.
pub open spec fn concat_views(ss: Seq<String>) -> Seq<char>
    decreases ss.len(),
{
    if ss.len() == 0 {
        Seq::empty()
    } else {
        concat_views(ss.drop_last()) + ss.last()@
    }
}

/// Decodes one complete line on top of the accumulated text.  Returns
/// the delta it contributed, if any, and whether the line was the
/// end-of-stream sentinel.
fn apply_line(line: &Vec<u8>, text: &mut String) -> (r: (Option<String>, bool))
    ensures
        final(text)@ == line_text(old(text)@, line@),
        r.1 == line_done(line@),
        (match r.0 {
            Some(d) => final(text)@ == old(text)@ + d@ && !r.1,
            None => final(text)@ == old(text)@,
        }),
{
    let len = line.len();
    let m: usize = if len > 0 && line[len - 1] == 13u8 {
        len - 1
    } else {
        len
    };
    proof {
        assert(strip_cr(line@) =~= line@.subrange(0, m as int));
    }
    if m < 6 {
        return (None, false);
    }
    if !(line[0] == 100u8 && line[1] == 97u8 && line[2] == 116u8 && line[3] == 97u8 && line[4]
        == 58u8 && line[5] == 32u8) {
        proof {
            assert(!is_data_line(line@)) by {
                if is_data_line(line@) {
                    assert(forall|k: int|
                        0 <= k < 6 ==> strip_cr(line@).subrange(0, 6)[k] == line@[k]);
                    assert(data_prefix()[0] == 100u8 && data_prefix()[1] == 97u8 && data_prefix()[2]
                        == 116u8 && data_prefix()[3] == 97u8 && data_prefix()[4] == 58u8
                        && data_prefix()[5] == 32u8);
                }
            }
        }
        return (None, false);
    }
    proof {
        assert(strip_cr(line@).subrange(0, 6) =~= data_prefix());
        assert(is_data_line(line@));
    }
    let mut payload: Vec<u8> = Vec::new();
    let mut j: usize = 6;
    while j < m
        invariant
            6 <= j <= m <= line@.len(),
            payload@ == line@.subrange(6, j as int),
        decreases m - j,
    {
        payload.push(line[j]);
        proof {
            assert(payload@ =~= line@.subrange(6, j + 1 as int));
        }
        j += 1;
    }
    proof {
        assert(payload@ == payload_of(line@));
    }
    let is_done = payload.len() == 6 && payload[0] == 91u8 && payload[1] == 68u8 && payload[2]
        == 79u8 && payload[3] == 78u8 && payload[4] == 69u8 && payload[5] == 93u8;
    proof {
        if is_done {
            assert(payload@ =~= done_payload());
        } else if payload@ == done_payload() {
            assert(payload@.len() == 6);
            assert(payload@[0] == 91u8 && payload@[1] == 68u8 && payload@[2] == 79u8 && payload@[3]
                == 78u8 && payload@[4] == 69u8 && payload@[5] == 93u8);
        }
    }
    if is_done {
        return (None, true);
    }
    match json_string_at(payload.as_slice(), "/choices/0/delta/content") {
        Some(d) => {
            text.append(d.as_str());
            (Some(d), false)
        },
        None => (None, false),
    }
}

/// Decodes a streamed body incrementally, one byte chunk at a time,
/// carrying an unfinished line from one chunk to the next.
pub struct StreamAccumulator {
    pub text: String,
    pub carry: Vec<u8>,
    pub done: bool,
    pub fed: Ghost<Seq<u8>>,
}

impl StreamAccumulator {
    /// The decoder's fields agree with the state determined by the
    /// bytes fed so far.
    pub open spec fn wf(self) -> bool {
        stream_state(self.fed@) == (StreamState {
            text: self.text@,
            carry: self.carry@,
            done: self.done,
        })
    }

    /// The bytes fed so far.
    pub open spec fn fed_bytes(self) -> Seq<u8> {
        self.fed@
    }

    /// The text accumulated so far.
    pub open spec fn accumulated(self) -> Seq<char> {
        self.text@
    }

    /// An empty decoder.
    pub fn new() -> (r: Self)
        ensures
            r.wf(),
            r.fed_bytes() == Seq::<u8>::empty(),
            r.accumulated() == Seq::<char>::empty(),
    {
        StreamAccumulator { text: String::new(), carry: Vec::new(), done: false, fed: Ghost(
            Seq::empty(),
        ) }
    }

    /// Consumes one chunk of the body.  Returns the delta texts this
    /// chunk completed, in arrival order; the accumulated text grows by
    /// exactly their concatenation.
    pub fn feed(&mut self, chunk: &[u8]) -> (emitted: Vec<String>)
        requires
            old(self).wf(),
        ensures
            final(self).wf(),
            final(self).fed_bytes() == old(self).fed_bytes() + chunk@,
            final(self).accumulated() == old(self).accumulated() + concat_views(emitted@),
    {
        let ghost old_fed = self.fed@;
        let ghost old_text = self.text@;
        let mut emitted: Vec<String> = Vec::new();
        let n = chunk.len();
        let mut i: usize = 0;
        while i < n
            invariant
                i <= n,
                n == chunk@.len(),
                self.fed@ == old_fed + chunk@.take(i as int),
                stream_state(self.fed@) == (StreamState {
                    text: self.text@,
                    carry: self.carry@,
                    done: self.done,
                }),
                self.text@ == old_text + concat_views(emitted@),
            decreases n - i,
        {
            let x = chunk[i];
            let ghost fed_before = self.fed@;
            if !self.done {
                if x == 10u8 {
                    let ghost text_before = self.text@;
                    let (d, done_now) = apply_line(&self.carry, &mut self.text);
                    self.carry.clear();
                    self.done = done_now;
                    if let Some(dd) = d {
                        proof {
                            assert(concat_views(emitted@.push(dd)) == concat_views(
                                (emitted@.push(dd)).drop_last(),
                            ) + (emitted@.push(dd)).last()@);
                            assert((emitted@.push(dd)).drop_last() =~= emitted@);
                        }
                        emitted.push(dd);
                    }
                } else {
                    self.carry.push(x);
                }
            }
            proof {
                self.fed@ = fed_before.push(chunk@[i as int]);
                assert(self.fed@.drop_last() =~= fed_before);
                assert(old_fed + chunk@.take(i + 1 as int) =~= self.fed@);
            }
            i += 1;
        }
        proof {
            assert(old_fed + chunk@.take(n as int) =~= old_fed + chunk@);
        }
        emitted
    }

    /// Ends the body: an unfinished last line, if the sentinel never
    /// arrived, is decoded as a final line.  Returns the full text.
    pub fn finish(self) -> (r: String)
        requires
            self.wf(),
        ensures
            r@ == finished_text(self.fed_bytes()),
    {
        if self.done {
            self.text
        } else {
            let mut text = self.text;
            let (_d, _done) = apply_line(&self.carry, &mut text);
            text
        }
    }
}

// ---------------------------------------------------------------------------
// Laws of the stream model
// ---------------------------------------------------------------------------
/// One event line as bytes: the prefix, the payload, a newline.
pub open spec fn event_line_bytes(p: Seq<u8>) -> Seq<u8> {
    data_prefix() + p + seq![10u8]
}

/// A whole well-framed stream: one event line per payload, in order.
pub open spec fn events_bytes(ps: Seq<Seq<u8>>) -> Seq<u8>
    decreases ps.len(),
{
    if ps.len() == 0 {
        Seq::empty()
    } else {
        events_bytes(ps.drop_last()) + event_line_bytes(ps.last())
    }
}

/// A payload that frames cleanly as one event line: no newline inside,
/// no trailing carriage return, and not the sentinel itself.
pub open spec fn payload_ok(p: Seq<u8>) -> bool {
    (forall|i: int| 0 <= i < p.len() ==> p[i] != 10u8) && (p.len() > 0 ==> p.last() != 13u8) && p
        != done_payload()
}

/// The concatenation, in order, of the delta texts of those payloads
/// that decode; a payload that does not decode contributes nothing.
pub open spec fn deltas_of(ps: Seq<Seq<u8>>) -> Seq<char>
    decreases ps.len(),
{
    if ps.len() == 0 {
        Seq::empty()
    } else {
        deltas_of(ps.drop_last()) + (match delta_content_of(ps.last()) {
            Some(d) => d,
            None => Seq::empty(),
        })
    }
}

/// Feeding bytes that hold no newline only extends the carried line.
proof fn lemma_feed_no_newline(b: Seq<u8>, l: Seq<u8>)
    requires
        !stream_state(b).done,
        forall|i: int| 0 <= i < l.len() ==> l[i] != 10u8,
    ensures
        stream_state(b + l) == (StreamState {
            text: stream_state(b).text,
            carry: stream_state(b).carry + l,
            done: false,
        }),
    decreases l.len(),
{
    if l.len() == 0 {
        assert(b + l =~= b);
        assert(stream_state(b).carry + l =~= stream_state(b).carry);
    } else {
        lemma_feed_no_newline(b, l.drop_last());
        assert(b + l =~= (b + l.drop_last()).push(l.last()));
        assert(((b + l.drop_last()).push(l.last())).drop_last() =~= b + l.drop_last());
        assert(stream_state(b).carry + l =~= (stream_state(b).carry + l.drop_last()).push(
            l.last(),
        ));
    }
}

/// Feeding one whole line: the carried bytes plus the line are decoded
/// when the newline arrives.
proof fn lemma_feed_line(b: Seq<u8>, l: Seq<u8>)
    requires
        !stream_state(b).done,
        forall|i: int| 0 <= i < l.len() ==> l[i] != 10u8,
    ensures
        stream_state(b + l + seq![10u8]) == (StreamState {
            text: line_text(stream_state(b).text, stream_state(b).carry + l),
            carry: Seq::empty(),
            done: line_done(stream_state(b).carry + l),
        }),
{
    lemma_feed_no_newline(b, l);
    assert(b + l + seq![10u8] =~= (b + l).push(10u8));
    assert(((b + l).push(10u8)).drop_last() =~= b + l);
}

/// One event line with a clean payload, decoded from a state with
/// nothing carried: the payload's delta is appended, or the sentinel
/// ends the stream.
proof fn lemma_event_line(b: Seq<u8>, p: Seq<u8>)
    requires
        !stream_state(b).done,
        stream_state(b).carry == Seq::<u8>::empty(),
        forall|i: int| 0 <= i < p.len() ==> p[i] != 10u8,
        p.len() > 0 ==> p.last() != 13u8,
    ensures
        stream_state(b + event_line_bytes(p)) == (StreamState {
            text: (if p == done_payload() {
                stream_state(b).text
            } else {
                match delta_content_of(p) {
                    Some(d) => stream_state(b).text + d,
                    None => stream_state(b).text,
                }
            }),
            carry: Seq::empty(),
            done: p == done_payload(),
        }),
{
    let l = data_prefix() + p;
    assert(forall|i: int| 0 <= i < l.len() ==> l[i] != 10u8);
    lemma_feed_line(b, l);
    assert(b + l + seq![10u8] =~= b + event_line_bytes(p));
    let full = stream_state(b).carry + l;
    assert(full =~= l);
    assert(strip_cr(l) =~= l) by {
        if l.len() > 0 && l.last() == 13u8 {
            if p.len() == 0 {
                assert(l.last() == 32u8);
            } else {
                assert(l.last() == p.last());
            }
        }
    }
    assert(strip_cr(l).subrange(0, 6) =~= data_prefix());
    assert(is_data_line(l));
    assert(payload_of(l) =~= p);
}

/// A well-framed stream of events, decoded from the start: the text is
/// the concatenation of the deltas of the payloads that decode, in
/// order.
proof fn lemma_stream_events(ps: Seq<Seq<u8>>)
    requires
        forall|i: int| 0 <= i < ps.len() ==> payload_ok(#[trigger] ps[i]),
    ensures
        stream_state(events_bytes(ps)) == (StreamState {
            text: deltas_of(ps),
            carry: Seq::<u8>::empty(),
            done: false,
        }),
    decreases ps.len(),
{
    if ps.len() == 0 {
        assert(events_bytes(ps) =~= Seq::<u8>::empty());
    } else {
        lemma_stream_events(ps.drop_last());
        assert(payload_ok(ps.last()));
        lemma_event_line(events_bytes(ps.drop_last()), ps.last());
    }
}

/// For a stream of events followed by the `[DONE]` sentinel, the final
/// text is exactly the concatenation, in arrival order, of the deltas
/// of the events that decode; an event that does not decode is skipped
/// and never aborts the stream, and nothing after the sentinel counts.
pub proof fn lemma_stream_round(ps: Seq<Seq<u8>>, trailing: Seq<u8>)
    requires
        forall|i: int| 0 <= i < ps.len() ==> payload_ok(#[trigger] ps[i]),
    ensures
        ({
            let b = events_bytes(ps) + event_line_bytes(done_payload()) + trailing;
            stream_state(b).done && finished_text(b) == deltas_of(ps)
        }),
{
    lemma_stream_events(ps);
    assert(forall|i: int| 0 <= i < done_payload().len() ==> done_payload()[i] != 10u8);
    lemma_event_line(events_bytes(ps), done_payload());
    let b0 = events_bytes(ps) + event_line_bytes(done_payload());
    lemma_done_absorbs(b0, trailing);
}

/// The concatenation of a sequence of texts, in order.
pub open spec fn concat_contents(cs: Seq<Seq<char>>) -> Seq<char>
    decreases cs.len(),
{
    if cs.len() == 0 {
        Seq::empty()
    } else {
        concat_contents(cs.drop_last()) + cs.last()
    }
}

/// For a stream of events that all decode, followed by the sentinel,
/// the final text is exactly the concatenation of their delta
/// contents, in arrival order.
pub proof fn lemma_stream_delivers_all(ps: Seq<Seq<u8>>, cs: Seq<Seq<char>>, trailing: Seq<u8>)
    requires
        ps.len() == cs.len(),
        forall|i: int| 0 <= i < ps.len() ==> payload_ok(#[trigger] ps[i]),
        forall|i: int| 0 <= i < ps.len() ==> delta_content_of(#[trigger] ps[i]) == Some(cs[i]),
    ensures
        ({
            let b = events_bytes(ps) + event_line_bytes(done_payload()) + trailing;
            stream_state(b).done && finished_text(b) == concat_contents(cs)
        }),
{
    lemma_stream_round(ps, trailing);
    lemma_deltas_of_all_decoded(ps, cs);
}

/// When every payload decodes, the skipping concatenation is the plain
/// one.
proof fn lemma_deltas_of_all_decoded(ps: Seq<Seq<u8>>, cs: Seq<Seq<char>>)
    requires
        ps.len() == cs.len(),
        forall|i: int| 0 <= i < ps.len() ==> delta_content_of(#[trigger] ps[i]) == Some(cs[i]),
    ensures
        deltas_of(ps) == concat_contents(cs),
    decreases ps.len(),
{
    if ps.len() > 0 {
        lemma_deltas_of_all_decoded(ps.drop_last(), cs.drop_last());
        assert(delta_content_of(ps[ps.len() - 1]) == Some(cs[ps.len() - 1]));
    }
}

/// After the sentinel, further bytes change nothing.
proof fn lemma_done_absorbs(b: Seq<u8>, t: Seq<u8>)
    requires
        stream_state(b).done,
    ensures
        stream_state(b + t) == stream_state(b),
    decreases t.len(),
{
    if t.len() == 0 {
        assert(b + t =~= b);
    } else {
        lemma_done_absorbs(b, t.drop_last());
        assert(b + t =~= (b + t.drop_last()).push(t.last()));
        assert(((b + t.drop_last()).push(t.last())).drop_last() =~= b + t.drop_last());
    }
}

/// An event whose payload does not decode contributes nothing: the
/// stream's text is as if the event were absent.
pub proof fn lemma_malformed_event_skipped(ps1: Seq<Seq<u8>>, bad: Seq<u8>, ps2: Seq<Seq<u8>>)
    requires
        delta_content_of(bad) is None,
    ensures
        deltas_of(ps1 + seq![bad] + ps2) == deltas_of(ps1 + ps2),
    decreases ps2.len(),
{
    if ps2.len() == 0 {
        assert((ps1 + seq![bad] + ps2).drop_last() =~= ps1);
        assert((ps1 + seq![bad] + ps2).last() == bad);
        assert(ps1 + ps2 =~= ps1);
    } else {
        lemma_malformed_event_skipped(ps1, bad, ps2.drop_last());
        assert((ps1 + seq![bad] + ps2).drop_last() =~= ps1 + seq![bad] + ps2.drop_last());
        assert((ps1 + seq![bad] + ps2).last() == ps2.last());
        assert((ps1 + ps2).drop_last() =~= ps1 + ps2.drop_last());
        assert((ps1 + ps2).last() == ps2.last());
    }
}

} // verus!
