//! The playback engine: the state of the current song, the queue, the position
//! clock and the audio bytes that wait for the sink.
use vstd::prelude::*;

use crate::model::{Song, SongView, opt_string_view, songs_view};

verus! {

/// Where playback stands.
#[derive(Clone, Copy, Debug, PartialEq, Eq, Structural)]
pub enum PlaybackState {
    Idle,
    Resolving,
    Buffering,
    Playing,
    Paused,
    Draining,
    Failed,
}

impl Default for PlaybackState {
    fn default() -> (r: PlaybackState)
        ensures
            r == PlaybackState::Idle,
    {
        PlaybackState::Idle
    }
}

/// A call of the player on its sink.
#[derive(Clone, Copy, Debug, PartialEq, Eq, Structural)]
pub enum SinkCall {
    ConfigureMp3,
    Start,
    /// A write offered this many bytes and accepted that many (0 when it failed).
    Write(usize, usize),
    Pause,
    Resume,
    Stop,
    Drain,
    SetVolume(u8),
}

/// The audio output that the player drives.
///
/// Implementors report in `accepted` the bytes they have taken so far, and in
/// `calls` every call made on them with whether it succeeded; `write` may take
/// fewer bytes than it is given, but never more.
pub trait AudioSink {
    type Error;

    /// Every byte that `write` has accepted so far, in order. A verified sink
    /// defines it; the empty default only lets sinks written outside Verus,
    /// whose contracts nothing checks, leave it out.
    closed spec fn accepted(&self) -> Seq<u8> {
        Seq::empty()
    }

    /// Every call made on the sink so far, in order, each with whether it
    /// returned `Ok`. A verified sink defines it; the empty default only lets
    /// sinks written outside Verus, whose contracts nothing checks, leave it out.
    closed spec fn calls(&self) -> Seq<(SinkCall, bool)> {
        Seq::empty()
    }

    fn configure_mp3(&mut self) -> (r: Result<(), Self::Error>)
        ensures
            final(self).calls() == old(self).calls().push((SinkCall::ConfigureMp3, r is Ok)),
            final(self).accepted() == old(self).accepted(),
    ;

    fn start(&mut self) -> (r: Result<(), Self::Error>)
        ensures
            final(self).calls() == old(self).calls().push((SinkCall::Start, r is Ok)),
            final(self).accepted() == old(self).accepted(),
    ;

    fn write(&mut self, bytes: &[u8]) -> (r: Result<usize, Self::Error>)
        ensures
            final(self).calls() == old(self).calls().push(
                (
                    SinkCall::Write(
                        bytes@.len() as usize,
                        match r {
                            Ok(n) => n,
                            Err(_) => 0,
                        },
                    ),
                    r is Ok,
                ),
            ),
            r matches Ok(n) ==> n <= bytes@.len() && final(self).accepted() == old(
                self,
            ).accepted() + bytes@.take(n as int),
    ;

    fn pause(&mut self) -> (r: Result<(), Self::Error>)
        ensures
            final(self).calls() == old(self).calls().push((SinkCall::Pause, r is Ok)),
            final(self).accepted() == old(self).accepted(),
    ;

    fn resume(&mut self) -> (r: Result<(), Self::Error>)
        ensures
            final(self).calls() == old(self).calls().push((SinkCall::Resume, r is Ok)),
            final(self).accepted() == old(self).accepted(),
    ;

    fn stop(&mut self) -> (r: Result<(), Self::Error>)
        ensures
            final(self).calls() == old(self).calls().push((SinkCall::Stop, r is Ok)),
            final(self).accepted() == old(self).accepted(),
    ;

    fn drain(&mut self) -> (r: Result<(), Self::Error>)
        ensures
            final(self).calls() == old(self).calls().push((SinkCall::Drain, r is Ok)),
            final(self).accepted() == old(self).accepted(),
    ;

    fn set_volume(&mut self, percent: u8) -> (r: Result<(), Self::Error>)
        ensures
            final(self).calls() == old(self).calls().push((SinkCall::SetVolume(percent), r is Ok)),
            final(self).accepted() == old(self).accepted(),
    ;
}

/// The calls from `before` to `after` are `ops` made in turn until one fails:
/// `ok` exactly when all of them succeeded. With no `ops` nothing is called.
pub open spec fn made_calls(
    before: Seq<(SinkCall, bool)>,
    after: Seq<(SinkCall, bool)>,
    ops: Seq<SinkCall>,
    ok: bool,
) -> bool {
    if ops.len() == 0 {
        after == before && ok
    } else {
        &&& before.len() < after.len() <= before.len() + ops.len()
        &&& after.take(before.len() as int) == before
        &&& forall|j: int| before.len() <= j < after.len() ==> (#[trigger] after[j]).0 == ops[j
            - before.len()]
        &&& forall|j: int| before.len() <= j < after.len() - 1 ==> (#[trigger] after[j]).1
        &&& ok == after.last().1
        &&& ok ==> after.len() == before.len() + ops.len()
    }
}

/// A write that succeeded and accepted all the `offered` bytes.
pub open spec fn full_write(c: (SinkCall, bool), offered: nat) -> bool {
    c.1 && (c.0 matches SinkCall::Write(o, a) && o == offered && a == offered)
}

/// A write that succeeded but accepted fewer than the `offered` bytes.
pub open spec fn short_write(c: (SinkCall, bool), offered: nat) -> bool {
    c.1 && (c.0 matches SinkCall::Write(o, a) && o == offered && a < offered)
}

/// A write of `offered` bytes that failed.
pub open spec fn failed_write(c: (SinkCall, bool), offered: nat) -> bool {
    !c.1 && (c.0 matches SinkCall::Write(o, a) && o == offered && a == 0)
}

/// The calls from `before` to `after` are the writes of a flush of `pieces`:
/// the pieces are offered in order, each whole, and writing goes on while a
/// write takes all it was offered. `Some(true)`: every piece was taken whole;
/// `Some(false)`: the last write took less than it was offered; `None`: the
/// last write failed.
pub open spec fn flush_calls(
    before: Seq<(SinkCall, bool)>,
    after: Seq<(SinkCall, bool)>,
    pieces: Seq<Seq<u8>>,
    outcome: Option<bool>,
) -> bool {
    let b = before.len();
    let w = after.len() - b;
    &&& b <= after.len()
    &&& after.take(b as int) == before
    &&& w <= pieces.len()
    &&& forall|j: int| b <= j < after.len() - 1 ==> full_write(#[trigger] after[j], pieces[j - b].len())
    &&& match outcome {
        Some(true) => w == pieces.len() && (w > 0 ==> full_write(after.last(), pieces[w - 1].len())),
        Some(false) => w > 0 && short_write(after.last(), pieces[w - 1].len()),
        None => w > 0 && failed_write(after.last(), pieces[w - 1].len()),
    }
}

/// The pieces still waiting after a flush of `pieces` whose writes are the
/// calls of `after` from position `b` on: none when all were taken; after a
/// short write, the rest of the piece it was offered and the pieces behind it;
/// after a failed write, that piece whole and those behind it.
pub open spec fn pieces_left(
    pieces: Seq<Seq<u8>>,
    b: nat,
    after: Seq<(SinkCall, bool)>,
    outcome: Option<bool>,
) -> Seq<Seq<u8>> {
    let w = after.len() - b;
    match outcome {
        Some(true) => Seq::empty(),
        Some(false) => {
            let a = match after.last().0 {
                SinkCall::Write(_, a) => a as int,
                _ => 0,
            };
            pieces.skip(w - 1).update(0, pieces[w - 1].skip(a))
        },
        None => pieces.skip(w - 1),
    }
}

/// The pieces offered after `bytes` is queued behind `pieces`: an empty push
/// adds none.
pub open spec fn with_piece(pieces: Seq<Seq<u8>>, bytes: Seq<u8>) -> Seq<Seq<u8>> {
    if bytes.len() == 0 {
        pieces
    } else {
        pieces.push(bytes)
    }
}

/// Every call from `before` to `after` is a write offered at least one byte.
pub open spec fn writes_not_empty(before: Seq<(SinkCall, bool)>, after: Seq<(SinkCall, bool)>) -> bool {
    forall|j: int|
        before.len() <= j < after.len() ==> ((#[trigger] after[j]).0 matches SinkCall::Write(o, _)
            && o > 0)
}

/// One flush that returned: the sink took a prefix of what was pending and
/// the rest still waits, nothing lost, repeated or reordered.
pub open spec fn flush_step(
    accepted_before: Seq<u8>,
    pending_before: Seq<u8>,
    accepted_after: Seq<u8>,
    pending_after: Seq<u8>,
) -> bool {
    &&& is_suffix(pending_after, pending_before)
    &&& accepted_after + pending_after == accepted_before + pending_before
}

/// The writes of a flush of non-empty pieces are all writes of at least one byte.
pub proof fn lemma_flush_writes_nonempty(
    before: Seq<(SinkCall, bool)>,
    after: Seq<(SinkCall, bool)>,
    pieces: Seq<Seq<u8>>,
    outcome: Option<bool>,
)
    requires
        flush_calls(before, after, pieces, outcome),
        forall|i: int| 0 <= i < pieces.len() ==> #[trigger] pieces[i].len() > 0,
    ensures
        writes_not_empty(before, after),
{
    let b = before.len();
    assert forall|j: int| b <= j < after.len() implies ((#[trigger] after[j]).0 matches SinkCall::Write(
        o,
        _,
    ) && o > 0) by {
        assert(pieces[j - b].len() > 0);
        if j == after.len() - 1 {
            assert(after[j] == after.last());
        }
    }
}

/// Over a run of pushes and flushes that all returned, starting with nothing
/// pending, the bytes the sink took are a prefix of everything pushed, in
/// order, and the pending bytes are the rest: all of it exactly when nothing
/// is pending.
pub proof fn lemma_run_delivers_prefix(
    accepted: Seq<Seq<u8>>,
    pending: Seq<Seq<u8>>,
    pushed: Seq<Seq<u8>>,
)
    requires
        accepted.len() == pushed.len() + 1,
        pending.len() == pushed.len() + 1,
        pending[0].len() == 0,
        forall|i: int|
            0 <= i < pushed.len() ==> #[trigger] flush_step(
                accepted[i],
                pending[i] + pushed[i],
                accepted[i + 1],
                pending[i + 1],
            ),
    ensures
        ({
            let a0 = accepted[0];
            let an = accepted.last();
            let sent = an.skip(a0.len() as int);
            &&& a0.len() <= an.len()
            &&& an.take(a0.len() as int) == a0
            &&& sent + pending.last() == flatten(pushed)
            &&& sent.len() <= flatten(pushed).len()
            &&& flatten(pushed).take(sent.len() as int) == sent
            &&& (pending.last().len() == 0 <==> sent == flatten(pushed))
        }),
    decreases pushed.len(),
{
    let n = pushed.len() as int;
    let a0 = accepted[0];
    if n == 0 {
        assert(accepted.last() == a0);
        assert(a0.skip(a0.len() as int) =~= Seq::<u8>::empty());
        assert(a0.take(a0.len() as int) =~= a0);
        assert(pending.last() =~= Seq::<u8>::empty());
        assert(flatten(pushed) =~= Seq::<u8>::empty());
    } else {
        let acc = accepted.drop_last();
        let pen = pending.drop_last();
        let pu = pushed.drop_last();
        assert forall|i: int| 0 <= i < pu.len() implies #[trigger] flush_step(
            acc[i],
            pen[i] + pu[i],
            acc[i + 1],
            pen[i + 1],
        ) by {
            assert(flush_step(accepted[i], pending[i] + pushed[i], accepted[i + 1], pending[i + 1]));
        }
        lemma_run_delivers_prefix(acc, pen, pu);
        let ak = acc.last();
        let pk = pen.last();
        let sk = ak.skip(a0.len() as int);
        assert(ak == accepted[n - 1]);
        assert(pk == pending[n - 1]);
        assert(pushed == pu.push(pushed[n - 1]));
        lemma_flatten_push(pu, pushed[n - 1]);
        assert(flush_step(accepted[n - 1], pending[n - 1] + pushed[n - 1], accepted[n], pending[n]));
        let an = accepted.last();
        let pn = pending.last();
        let f = flatten(pushed);
        assert(ak =~= a0 + sk);
        assert(an + pn =~= a0 + (sk + pk + pushed[n - 1]));
        assert(sk + pk + pushed[n - 1] =~= f);
        assert(an + pn == a0 + f);
        assert(pn.len() <= pk.len() + pushed[n - 1].len());
        assert(an.len() >= ak.len());
        assert(an.take(a0.len() as int) =~= (an + pn).take(a0.len() as int));
        assert(an.take(a0.len() as int) =~= a0);
        let sent = an.skip(a0.len() as int);
        assert(an =~= a0 + sent);
        assert(a0 + (sent + pn) =~= an + pn);
        assert((a0 + (sent + pn)).skip(a0.len() as int) =~= sent + pn);
        assert((a0 + f).skip(a0.len() as int) =~= f);
        assert(sent + pn =~= f);
        assert(f.take(sent.len() as int) =~= sent);
        if pn.len() == 0 {
            assert(sent =~= f);
        }
    }
}

/// Pushing no bytes promises exactly what a flush promises.
pub proof fn lemma_push_nothing_is_flush(
    before: Player,
    calls_before: Seq<(SinkCall, bool)>,
    accepted_before: Seq<u8>,
    after: Player,
    calls_after: Seq<(SinkCall, bool)>,
    accepted_after: Seq<u8>,
    outcome: Option<bool>,
)
    ensures
        Player::flush_result(
            before,
            before.pending_bytes() + Seq::<u8>::empty(),
            with_piece(before.pending_pieces(), Seq::<u8>::empty()),
            calls_before,
            accepted_before,
            after,
            calls_after,
            accepted_after,
            outcome,
        ) == Player::flush_result(
            before,
            before.pending_bytes(),
            before.pending_pieces(),
            calls_before,
            accepted_before,
            after,
            calls_after,
            accepted_after,
            outcome,
        ),
{
    assert(before.pending_bytes() + Seq::<u8>::empty() =~= before.pending_bytes());
}

/// One call after others made in turn: `ops` extended by `op`.
pub proof fn lemma_made_calls_push(
    before: Seq<(SinkCall, bool)>,
    mid: Seq<(SinkCall, bool)>,
    ops: Seq<SinkCall>,
    op: SinkCall,
    ok: bool,
)
    requires
        made_calls(before, mid, ops, true),
    ensures
        made_calls(before, mid.push((op, ok)), ops.push(op), ok),
{
    let after = mid.push((op, ok));
    let all = ops.push(op);
    if ops.len() == 0 {
        assert(after.take(before.len() as int) =~= before);
    } else {
        assert(after.take(before.len() as int) =~= mid.take(before.len() as int));
        assert forall|j: int| before.len() <= j < after.len() implies (#[trigger] after[j]).0
            == all[j - before.len()] by {
            if j < mid.len() {
                assert(after[j] == mid[j]);
            }
        }
        assert forall|j: int| before.len() <= j < after.len() - 1 implies (#[trigger] after[j]).1 by {
            if j < mid.len() - 1 {
                assert(after[j] == mid[j]);
            } else {
                assert(after[j] == mid.last());
            }
        }
    }
}

/// The concatenation of a sequence of byte strings.
pub open spec fn flatten(chunks: Seq<Seq<u8>>) -> Seq<u8>
    decreases chunks.len(),
{
    if chunks.len() == 0 {
        Seq::empty()
    } else {
        chunks[0] + flatten(chunks.drop_first())
    }
}

/// Appending a chunk appends its bytes.
pub proof fn lemma_flatten_push(chunks: Seq<Seq<u8>>, x: Seq<u8>)
    ensures
        flatten(chunks.push(x)) == flatten(chunks) + x,
    decreases chunks.len(),
{
    if chunks.len() == 0 {
        reveal_with_fuel(flatten, 2);
        assert(chunks.push(x).drop_first() =~= Seq::<Seq<u8>>::empty());
        assert(flatten(chunks.push(x)) =~= x + Seq::<u8>::empty());
    } else {
        lemma_flatten_push(chunks.drop_first(), x);
        assert(chunks.push(x).drop_first() =~= chunks.drop_first().push(x));
        assert(flatten(chunks.push(x)) =~= chunks[0] + (flatten(chunks.drop_first()) + x));
    }
}

/// `tail` is what is left of `whole` after some prefix.
pub open spec fn is_suffix(tail: Seq<u8>, whole: Seq<u8>) -> bool {
    tail.len() <= whole.len() && whole.skip(whole.len() - tail.len()) == tail
}

/// A sequence is a suffix of itself after any prefix.
pub proof fn lemma_suffix(prefix: Seq<u8>, tail: Seq<u8>)
    ensures
        is_suffix(tail, prefix + tail),
{
    assert((prefix + tail).skip(prefix.len() as int) =~= tail);
}

/// The views of a sequence of byte vectors.
pub open spec fn chunk_views(q: Seq<Vec<u8>>) -> Seq<Seq<u8>> {
    q.map_values(|v: Vec<u8>| v@)
}

/// Audio bytes that wait for the sink: whole chunks, and how far into the
/// first chunk the sink has already read.
#[derive(Clone, Debug)]
pub struct PendingAudio {
    chunks: std::collections::VecDeque<Vec<u8>>,
    offset: usize,
}

impl PendingAudio {
    /// Chunks are never empty, and the offset lies inside the first chunk.
    pub closed spec fn wf(&self) -> bool {
        &&& forall|i: int|
            0 <= i < self.chunks@.len() ==> #[trigger] self.chunks@[i]@.len() > 0
        &&& if self.chunks@.len() == 0 {
            self.offset == 0
        } else {
            self.offset < self.chunks@[0]@.len()
        }
    }

    /// The bytes that wait, in order.
    pub closed spec fn bytes(&self) -> Seq<u8> {
        flatten(chunk_views(self.chunks@)).skip(self.offset as int)
    }

    /// The waiting bytes as they are offered to the sink: the rest of the
    /// first chunk, then each later chunk whole.
    pub closed spec fn pieces(&self) -> Seq<Seq<u8>> {
        if self.chunks@.len() == 0 {
            Seq::empty()
        } else {
            chunk_views(self.chunks@).update(0, self.chunks@[0]@.skip(self.offset as int))
        }
    }

    /// No piece is empty, the pieces make up the waiting bytes, and there are
    /// pieces exactly when bytes wait.
    pub proof fn lemma_pieces(&self)
        requires
            self.wf(),
        ensures
            forall|i: int| 0 <= i < self.pieces().len() ==> #[trigger] self.pieces()[i].len() > 0,
            flatten(self.pieces()) == self.bytes(),
            self.bytes().len() == 0 <==> self.pieces().len() == 0,
    {
        let c = chunk_views(self.chunks@);
        if self.chunks@.len() > 0 {
            let p = self.pieces();
            assert(flatten(c) == c[0] + flatten(c.drop_first()));
            assert(flatten(p) == p[0] + flatten(p.drop_first()));
            assert(p.drop_first() =~= c.drop_first());
            assert(c[0] == self.chunks@[0]@);
            assert(self.bytes() =~= p[0] + flatten(c.drop_first()));
            assert forall|i: int| 0 <= i < p.len() implies #[trigger] p[i].len() > 0 by {
                if i > 0 {
                    assert(p[i] == self.chunks@[i]@);
                }
            }
        } else {
            assert(c =~= Seq::<Seq<u8>>::empty());
            assert(self.pieces() =~= Seq::<Seq<u8>>::empty());
        }
    }

    /// How many bytes wait in the first chunk.
    pub closed spec fn front_len(&self) -> nat {
        if self.chunks@.len() == 0 {
            0
        } else {
            (self.chunks@[0]@.len() - self.offset) as nat
        }
    }

    proof fn lemma_front(&self)
        requires
            self.wf(),
        ensures
            self.front_len() <= self.bytes().len(),
            self.bytes().len() == 0 <==> self.front_len() == 0,
            self.chunks@.len() > 0 ==> self.bytes() =~= self.chunks@[0]@.skip(self.offset as int)
                + flatten(chunk_views(self.chunks@).drop_first()),
    {
        if self.chunks@.len() > 0 {
            let c = chunk_views(self.chunks@);
            assert(flatten(c) == c[0] + flatten(c.drop_first()));
            assert(c[0] == self.chunks@[0]@);
        } else {
            assert(chunk_views(self.chunks@) =~= Seq::<Seq<u8>>::empty());
        }
    }

    /// Nothing waits.
    pub fn new() -> (p: PendingAudio)
        ensures
            p.wf(),
            p.bytes().len() == 0,
    {
        let p = PendingAudio { chunks: std::collections::VecDeque::new(), offset: 0 };
        assert(chunk_views(p.chunks@) =~= Seq::<Seq<u8>>::empty());
        p
    }

    /// Drops every waiting byte.
    pub fn clear(&mut self)
        ensures
            final(self).wf(),
            final(self).bytes().len() == 0,
    {
        self.offset = 0;
        self.chunks.clear();
        assert(chunk_views(self.chunks@) =~= Seq::<Seq<u8>>::empty());
    }

    /// Appends `bytes` after the waiting ones.
    pub fn push(&mut self, bytes: Vec<u8>)
        requires
            old(self).wf(),
        ensures
            final(self).wf(),
            final(self).bytes() == old(self).bytes() + bytes@,
            final(self).pieces() == (if bytes@.len() == 0 {
                old(self).pieces()
            } else {
                old(self).pieces().push(bytes@)
            }),
    {
        if bytes.len() == 0 {
            assert(old(self).bytes() + bytes@ =~= old(self).bytes());
            return ;
        }
        let ghost before = self.chunks@;
        let ghost b = bytes@;
        self.chunks.push_back(bytes);
        proof {
            assert(chunk_views(self.chunks@) =~= chunk_views(before).push(b));
            lemma_flatten_push(chunk_views(before), b);
            if before.len() == 0 {
                assert(chunk_views(before) =~= Seq::<Seq<u8>>::empty());
            }
            assert(self.bytes() =~= old(self).bytes() + b);
            assert(self.pieces() =~= old(self).pieces().push(b));
        }
    }

    /// Whether nothing waits.
    pub fn is_empty(&self) -> (r: bool)
        requires
            self.wf(),
        ensures
            r == (self.bytes().len() == 0),
    {
        proof {
            self.lemma_front();
        }
        self.chunks.len() == 0
    }

    /// The waiting bytes of the first chunk: a non-empty prefix of what waits.
    pub fn front(&self) -> (r: &[u8])
        requires
            self.wf(),
            self.bytes().len() > 0,
        ensures
            r@.len() == self.front_len(),
            r@.len() > 0,
            r@ == self.bytes().take(r@.len() as int),
            self.pieces().len() > 0,
            r@ == self.pieces()[0],
    {
        proof {
            self.lemma_front();
        }
        let len = self.chunks[0].len();
        let r = &self.chunks[0].as_slice()[self.offset..len];
        assert(r@ =~= self.chunks@[0]@.skip(self.offset as int));
        assert(self.bytes().take(r@.len() as int) =~= r@);
        r
    }

    /// Marks the first `n` waiting bytes, all in the first chunk, as taken;
    /// true when that finished the chunk.
    pub fn consume(&mut self, n: usize) -> (finished: bool)
        requires
            old(self).wf(),
            0 < n <= old(self).front_len(),
        ensures
            final(self).wf(),
            final(self).bytes() == old(self).bytes().skip(n as int),
            finished == (n == old(self).front_len()),
            !finished ==> final(self).front_len() == old(self).front_len() - n,
            finished ==> final(self).pieces() == old(self).pieces().drop_first(),
            !finished ==> final(self).pieces() == old(self).pieces().update(
                0,
                old(self).pieces()[0].skip(n as int),
            ),
    {
        proof {
            self.lemma_front();
        }
        let ghost c = chunk_views(self.chunks@);
        let len = self.chunks[0].len();
        if self.offset + n < len {
            self.offset = self.offset + n;
            proof {
                self.lemma_front();
                assert(self.bytes() =~= old(self).bytes().skip(n as int));
                assert(self.chunks@ == old(self).chunks@);
                assert(self.chunks@[0]@.skip(self.offset as int) =~= old(self).chunks@[0]@.skip(
                    old(self).offset as int,
                ).skip(n as int));
                assert(self.pieces() =~= old(self).pieces().update(
                    0,
                    old(self).pieces()[0].skip(n as int),
                ));
            }
            false
        } else {
            self.offset = 0;
            let ghost before = self.chunks@;
            self.chunks.pop_front();
            proof {
                assert(chunk_views(self.chunks@) =~= c.drop_first());
                assert(self.bytes() =~= old(self).bytes().skip(n as int));
                let p = old(self).pieces();
                if self.chunks@.len() > 0 {
                    assert(self.chunks@[0]@.skip(0) =~= self.chunks@[0]@);
                    assert(self.chunks@[0] == before[1]);
                }
                assert forall|i: int| 0 <= i < self.pieces().len() implies #[trigger] self.pieces()[i]
                    == p.drop_first()[i] by {
                    assert(self.chunks@[i] == before[i + 1]);
                }
                assert(self.pieces() =~= p.drop_first());
            }
            true
        }
    }
}

/// The playback engine.
#[derive(Clone, Debug)]
pub struct Player {
    pub state: PlaybackState,
    pub current: Option<Song>,
    pub queue: std::collections::VecDeque<Song>,
    pub position_ms: u32,
    pub duration_ms: u32,
    pub volume_percent: u8,
    pub stream_id: Option<String>,
    pub error: Option<String>,
    pub pending_audio: PendingAudio,
}

/// The view of an optional song.
pub open spec fn opt_song_view(s: Option<Song>) -> Option<SongView> {
    match s {
        Some(s) => Some(s@),
        None => None,
    }
}

/// The queue without the songs that carry `id`, in order.
pub open spec fn without_id(q: Seq<SongView>, id: u64) -> Seq<SongView>
    decreases q.len(),
{
    if q.len() == 0 {
        Seq::empty()
    } else if q.last().id == id {
        without_id(q.drop_last(), id)
    } else {
        without_id(q.drop_last(), id).push(q.last())
    }
}

/// The position after `elapsed` milliseconds of play, held at the duration when it is known.
pub open spec fn advanced_position(position: u32, duration: u32, elapsed: u32) -> u32 {
    let sum = if position + elapsed > u32::MAX {
        u32::MAX as int
    } else {
        position + elapsed
    };
    if duration == 0 {
        sum as u32
    } else if sum < duration {
        sum as u32
    } else {
        duration
    }
}

/// The clock never runs past a known duration: with a duration, a position
/// advanced by `elapsed` milliseconds is the smaller of the sum and the
/// duration; without one it is the sum, held at the largest `u32`.
pub proof fn lemma_position_held_at_duration(position: u32, duration: u32, elapsed: u32)
    ensures
        duration > 0 ==> advanced_position(position, duration, elapsed) <= duration,
        duration > 0 ==> advanced_position(position, duration, elapsed) == (if position + elapsed
            >= duration {
            duration as int
        } else {
            position + elapsed
        }),
        duration == 0 ==> advanced_position(position, duration, elapsed) == (if position + elapsed
            > u32::MAX {
            u32::MAX as int
        } else {
            position + elapsed
        }),
        advanced_position(position, duration, elapsed) >= position || (duration > 0 && position
            > duration),
{
}

/// A position reported by the driver, held at the duration when it is known.
pub open spec fn clamped_position(position: u32, duration: u32) -> u32 {
    if duration == 0 || position <= duration {
        position
    } else {
        duration
    }
}

/// A volume, held at 100 percent.
pub open spec fn clamped_volume(percent: u8) -> u8 {
    if percent <= 100 {
        percent
    } else {
        100
    }
}

impl Player {
    /// The bytes that wait for the sink, in order.
    pub open spec fn pending_bytes(&self) -> Seq<u8> {
        self.pending_audio.bytes()
    }

    /// The waiting audio as it is offered to the sink, one piece per write.
    pub open spec fn pending_pieces(&self) -> Seq<Seq<u8>> {
        self.pending_audio.pieces()
    }

    /// The waiting audio is well formed.
    pub open spec fn wf(&self) -> bool {
        self.pending_audio.wf()
    }

    /// The fields that the caller can see, other than the pending audio.
    pub open spec fn same_public(&self, other: &Player) -> bool {
        &&& self.state == other.state
        &&& self.current == other.current
        &&& self.queue == other.queue
        &&& self.position_ms == other.position_ms
        &&& self.duration_ms == other.duration_ms
        &&& self.volume_percent == other.volume_percent
        &&& self.stream_id == other.stream_id
        &&& self.error == other.error
    }

    /// An idle player at full volume with nothing queued.
    fn new() -> (p: Player)
        ensures
            p.wf(),
            p.state == PlaybackState::Idle,
            p.current is None,
            p.queue@.len() == 0,
            p.position_ms == 0,
            p.duration_ms == 0,
            p.volume_percent == 100,
            p.stream_id is None,
            p.error is None,
            p.pending_bytes().len() == 0,
    {
        let p = Player {
            state: PlaybackState::Idle,
            current: None,
            queue: std::collections::VecDeque::new(),
            position_ms: 0,
            duration_ms: 0,
            volume_percent: 100,
            stream_id: None,
            error: None,
            pending_audio: PendingAudio::new(),
        };
        p
    }

    /// Drops the pending audio.
    fn clear_pending(&mut self)
        ensures
            final(self).wf(),
            final(self).same_public(old(self)),
            final(self).pending_bytes().len() == 0,
    {
        self.pending_audio.clear();
    }

    /// Makes `song` current and queues the other songs of `queue`, in order.
    pub fn select(&mut self, song: Song, queue: Vec<Song>)
        ensures
            final(self).wf(),
            opt_song_view(final(self).current) == Some(song@),
            final(self).duration_ms == song.duration_ms,
            final(self).position_ms == 0,
            songs_view(final(self).queue@) == without_id(songs_view(queue@), song.id),
            final(self).stream_id is None,
            final(self).error is None,
            final(self).pending_bytes().len() == 0,
            final(self).state == PlaybackState::Resolving,
            final(self).volume_percent == old(self).volume_percent,
    {
        let id = song.id;
        let mut kept: std::collections::VecDeque<Song> = std::collections::VecDeque::new();
        let mut i: usize = 0;
        while i < queue.len()
            invariant
                i <= queue@.len(),
                songs_view(kept@) == without_id(songs_view(queue@).take(i as int), id),
            decreases queue@.len() - i,
        {
            assert(songs_view(queue@).take(i as int + 1).drop_last() == songs_view(queue@).take(
                i as int,
            ));
            if queue[i].id != id {
                let ghost before = kept@;
                kept.push_back(queue[i].duplicate());
                assert(songs_view(kept@) =~= songs_view(before).push(queue@[i as int]@));
            }
            i = i + 1;
        }
        assert(songs_view(queue@).take(queue@.len() as int) == songs_view(queue@));
        self.duration_ms = song.duration_ms;
        self.current = Some(song);
        self.position_ms = 0;
        self.queue = kept;
        self.stream_id = None;
        self.clear_pending();
        self.error = None;
        self.state = PlaybackState::Resolving;
    }

    /// Restarts the sink for a new stream, then marks the stream as buffering.
    pub fn stream_opened<S: AudioSink>(&mut self, id: String, sink: &mut S) -> (r: Result<
        (),
        S::Error,
    >)
        ensures
            made_calls(
                old(sink).calls(),
                final(sink).calls(),
                seq![SinkCall::Stop, SinkCall::ConfigureMp3, SinkCall::Start],
                r is Ok,
            ),
            final(sink).accepted() == old(sink).accepted(),
            r is Err ==> *final(self) == *old(self),
            r is Ok ==> {
                &&& final(self).wf()
                &&& opt_string_view(final(self).stream_id) == Some(id@)
                &&& final(self).pending_bytes().len() == 0
                &&& final(self).position_ms == 0
                &&& final(self).state == PlaybackState::Buffering
                &&& final(self).current == old(self).current
                &&& final(self).queue == old(self).queue
                &&& final(self).duration_ms == old(self).duration_ms
                &&& final(self).volume_percent == old(self).volume_percent
                &&& final(self).error == old(self).error
            },
    {
        let ghost c0 = sink.calls();
        assert(made_calls(c0, c0, Seq::empty(), true));
        let stopped = sink.stop();
        proof {
            lemma_made_calls_push(c0, c0, Seq::empty(), SinkCall::Stop, stopped is Ok);
            assert(Seq::<SinkCall>::empty().push(SinkCall::Stop) =~= seq![SinkCall::Stop]);
        }
        match stopped {
            Ok(()) => {},
            Err(e) => {
                proof {
                    assert(made_calls(c0, sink.calls(), seq![SinkCall::Stop, SinkCall::ConfigureMp3, SinkCall::Start], false));
                }
                return Err(e);
            },
        }
        let ghost c1 = sink.calls();
        let configured = sink.configure_mp3();
        proof {
            lemma_made_calls_push(c0, c1, seq![SinkCall::Stop], SinkCall::ConfigureMp3, configured is Ok);
            assert(seq![SinkCall::Stop].push(SinkCall::ConfigureMp3) =~= seq![SinkCall::Stop, SinkCall::ConfigureMp3]);
        }
        match configured {
            Ok(()) => {},
            Err(e) => {
                proof {
                    assert(made_calls(c0, sink.calls(), seq![SinkCall::Stop, SinkCall::ConfigureMp3, SinkCall::Start], false));
                }
                return Err(e);
            },
        }
        let ghost c2 = sink.calls();
        let started = sink.start();
        proof {
            lemma_made_calls_push(c0, c2, seq![SinkCall::Stop, SinkCall::ConfigureMp3], SinkCall::Start, started is Ok);
            assert(seq![SinkCall::Stop, SinkCall::ConfigureMp3].push(SinkCall::Start) =~= seq![SinkCall::Stop, SinkCall::ConfigureMp3, SinkCall::Start]);
        }
        match started {
            Ok(()) => {},
            Err(e) => return Err(e),
        }
        self.prebuffered_stream_started(id);
        Ok(())
    }

    /// Marks a stream whose first bytes are already buffered as started at position 0.
    pub fn prebuffered_stream_started(&mut self, id: String)
        ensures
            final(self).wf(),
            opt_string_view(final(self).stream_id) == Some(id@),
            final(self).pending_bytes().len() == 0,
            final(self).position_ms == 0,
            final(self).state == PlaybackState::Buffering,
            final(self).current == old(self).current,
            final(self).queue == old(self).queue,
            final(self).duration_ms == old(self).duration_ms,
            final(self).volume_percent == old(self).volume_percent,
            final(self).error == old(self).error,
    {
        self.prebuffered_stream_started_at(id, 0);
    }

    /// Marks a stream as started at `position_ms`.
    pub fn prebuffered_stream_started_at(&mut self, id: String, position_ms: u32)
        ensures
            final(self).wf(),
            opt_string_view(final(self).stream_id) == Some(id@),
            final(self).pending_bytes().len() == 0,
            final(self).position_ms == position_ms,
            final(self).state == PlaybackState::Buffering,
            final(self).current == old(self).current,
            final(self).queue == old(self).queue,
            final(self).duration_ms == old(self).duration_ms,
            final(self).volume_percent == old(self).volume_percent,
            final(self).error == old(self).error,
    {
        self.stream_id = Some(id);
        self.clear_pending();
        self.position_ms = position_ms;
        self.state = PlaybackState::Buffering;
    }

    /// Queues `bytes` after the pending audio and flushes: with no bytes this is
    /// a flush, otherwise a flush of the longer queue.
    pub fn push_audio<S: AudioSink>(&mut self, bytes: Vec<u8>, sink: &mut S) -> (r: Result<
        bool,
        S::Error,
    >)
        requires
            old(self).wf(),
        ensures
            Self::flush_result(
                *old(self),
                old(self).pending_bytes() + bytes@,
                with_piece(old(self).pending_pieces(), bytes@),
                old(sink).calls(),
                old(sink).accepted(),
                *final(self),
                final(sink).calls(),
                final(sink).accepted(),
                Self::outcome(r),
            ),
    {
        self.pending_audio.push(bytes);
        self.flush_audio(sink)
    }

    /// What a flush promises: the bytes that left the queue are exactly those the
    /// sink took, `true` exactly when nothing is left, and a buffering stream that
    /// drained its queue is playing.
    pub open spec fn flushed(
        before: Player,
        pending_before: Seq<u8>,
        accepted_before: Seq<u8>,
        after: Player,
        accepted_after: Seq<u8>,
        outcome: Option<bool>,
    ) -> bool {
        &&& after.current == before.current
        &&& after.queue == before.queue
        &&& after.position_ms == before.position_ms
        &&& after.duration_ms == before.duration_ms
        &&& after.volume_percent == before.volume_percent
        &&& after.stream_id == before.stream_id
        &&& after.error == before.error
        &&& is_suffix(after.pending_bytes(), pending_before)
        &&& match outcome {
            Some(done) => {
                &&& accepted_after + after.pending_bytes() == accepted_before + pending_before
                &&& done == (after.pending_bytes().len() == 0)
                &&& after.state == (if done && before.state == PlaybackState::Buffering {
                    PlaybackState::Playing
                } else {
                    before.state
                })
            },
            None => after.state == before.state,
        }
    }

    /// Everything a flush of `pending`, offered as `pieces`, promises: the player
    /// is well formed, the bytes and state moved as `flushed` says, the sink
    /// saw the writes `flush_calls` describes and none of them empty, what is
    /// left is `pieces_left`, and a flush that returned took a prefix of the
    /// pending bytes.
    pub open spec fn flush_result(
        before: Player,
        pending: Seq<u8>,
        pieces: Seq<Seq<u8>>,
        calls_before: Seq<(SinkCall, bool)>,
        accepted_before: Seq<u8>,
        after: Player,
        calls_after: Seq<(SinkCall, bool)>,
        accepted_after: Seq<u8>,
        outcome: Option<bool>,
    ) -> bool {
        &&& after.wf()
        &&& Self::flushed(before, pending, accepted_before, after, accepted_after, outcome)
        &&& flush_calls(calls_before, calls_after, pieces, outcome)
        &&& writes_not_empty(calls_before, calls_after)
        &&& after.pending_pieces() =~~= pieces_left(pieces, calls_before.len(), calls_after, outcome)
        &&& outcome is Some ==> flush_step(accepted_before, pending, accepted_after, after.pending_bytes())
    }

    /// The outcome of a flush, without the sink's error.
    pub open spec fn outcome<E>(r: Result<bool, E>) -> Option<bool> {
        match r {
            Ok(done) => Some(done),
            Err(_) => None,
        }
    }

    /// Hands pending audio to the sink, piece by piece, until it is empty or a
    /// write takes less than it was offered.
    pub fn flush_audio<S: AudioSink>(&mut self, sink: &mut S) -> (r: Result<bool, S::Error>)
        requires
            old(self).wf(),
        ensures
            Self::flush_result(
                *old(self),
                old(self).pending_bytes(),
                old(self).pending_pieces(),
                old(sink).calls(),
                old(sink).accepted(),
                *final(self),
                final(sink).calls(),
                final(sink).accepted(),
                Self::outcome(r),
            ),
    {
        proof {
            self.pending_audio.lemma_pieces();
        }
        let ghost p0 = self.pending_pieces();
        let ghost c0 = sink.calls();
        let r = self.flush_pending(sink);
        proof {
            lemma_flush_writes_nonempty(c0, sink.calls(), p0, Self::outcome(r));
        }
        r
    }

    /// The flush loop.
    fn flush_pending<S: AudioSink>(&mut self, sink: &mut S) -> (r: Result<bool, S::Error>)
        requires
            old(self).wf(),
        ensures
            final(self).wf(),
            Self::flushed(*old(self), old(self).pending_bytes(), old(sink).accepted(), *final(self), final(sink).accepted(), Self::outcome(r)),
            flush_calls(old(sink).calls(), final(sink).calls(), old(self).pending_pieces(), Self::outcome(r)),
            final(self).pending_pieces() =~~= pieces_left(
                old(self).pending_pieces(),
                old(sink).calls().len(),
                final(sink).calls(),
                Self::outcome(r),
            ),
    {
        let ghost calls0 = sink.calls();
        let ghost b = calls0.len();
        let ghost p0 = self.pending_pieces();
        assert(calls0.take(b as int) =~= calls0);
        assert(p0.skip(0) =~= p0);
        let ghost acc0 = sink.accepted();
        let ghost pend0 = self.pending_bytes();
        assert(sink.accepted().skip(acc0.len() as int) =~= Seq::<u8>::empty());
        assert(pend0 =~= Seq::<u8>::empty() + pend0);
        loop
            invariant
                pend0 == old(self).pending_bytes(),
                acc0 == old(sink).accepted(),
                self.wf(),
                self.same_public(old(self)),
                sink.accepted().len() >= acc0.len(),
                sink.accepted().take(acc0.len() as int) == acc0,
                pend0 == sink.accepted().skip(acc0.len() as int) + self.pending_bytes(),
                calls0 == old(sink).calls(),
                p0 == old(self).pending_pieces(),
                b == calls0.len(),
                b <= sink.calls().len(),
                sink.calls().take(b as int) == calls0,
                sink.calls().len() - b <= p0.len(),
                self.pending_pieces() == p0.skip(sink.calls().len() - b),
                forall|j: int|
                    b <= j < sink.calls().len() ==> full_write(
                        #[trigger] sink.calls()[j],
                        p0[j - b].len(),
                    ),
            ensures
                pend0 == old(self).pending_bytes(),
                acc0 == old(sink).accepted(),
                self.wf(),
                self.same_public(old(self)),
                sink.accepted().len() >= acc0.len(),
                sink.accepted().take(acc0.len() as int) == acc0,
                pend0 == sink.accepted().skip(acc0.len() as int) + self.pending_bytes(),
                self.pending_bytes().len() == 0,
                calls0 == old(sink).calls(),
                p0 == old(self).pending_pieces(),
                b == calls0.len(),
                b <= sink.calls().len(),
                sink.calls().take(b as int) == calls0,
                sink.calls().len() - b == p0.len(),
                forall|j: int|
                    b <= j < sink.calls().len() ==> full_write(
                        #[trigger] sink.calls()[j],
                        p0[j - b].len(),
                    ),
            decreases self.pending_bytes().len(),
        {
            proof {
                self.pending_audio.lemma_pieces();
            }
            if self.pending_audio.is_empty() {
                break ;
            }
            let ghost acc1 = sink.accepted();
            let ghost pend1 = self.pending_bytes();
            let ghost calls1 = sink.calls();
            let ghost w = calls1.len() - b;
            let front = self.pending_audio.front();
            let offered = front.len();
            let written = sink.write(front);
            proof {
                assert(p0[w] == self.pending_pieces()[0]);
                assert(offered == p0[w].len());
                assert(sink.calls().last().0 == SinkCall::Write(
                    offered,
                    match written {
                        Ok(n) => n,
                        Err(_) => 0,
                    },
                ));
                assert(sink.calls().last().1 == written is Ok);
                assert(sink.calls().take(b as int) =~= calls0);
                assert(sink.calls().len() - 1 == calls1.len());
                assert forall|j: int| b <= j < sink.calls().len() - 1 implies full_write(
                    #[trigger] sink.calls()[j],
                    p0[j - b].len(),
                ) by {
                    assert(sink.calls()[j] == calls1[j]);
                }
            }
            let accepted = match written {
                Ok(n) => n,
                Err(e) => {
                    proof {
                        let sent = acc1.skip(acc0.len() as int);
                        assert(pend0 == sent + self.pending_bytes());
                        lemma_suffix(sent, self.pending_bytes());
                        assert(sink.calls().len() - b - 1 == w);
                    }
                    return Err(e);
                },
            };
            if accepted == 0 {
                proof {
                    assert(sink.accepted() =~= acc1);
                    let sent = sink.accepted().skip(acc0.len() as int);
                    assert(sink.accepted() =~= acc0 + sent);
                    assert(pend0 == sent + self.pending_bytes());
                    lemma_suffix(sent, self.pending_bytes());
                    assert(sink.accepted() + self.pending_bytes() =~= acc0 + pend0);
                    assert(sink.calls().len() - b - 1 == w);
                    assert(p0[w].skip(0) =~= p0[w]);
                    assert(self.pending_pieces() =~~= p0.skip(w).update(0, p0[w].skip(0)));
                }
                return Ok(false);
            }
            let ghost taken = pend1.take(accepted as int);
            let ghost pieces1 = self.pending_pieces();
            let finished = self.pending_audio.consume(accepted);
            proof {
                assert(sink.accepted() == acc1 + taken);
                assert(pend1 =~= taken + self.pending_bytes());
                assert(sink.accepted().skip(acc0.len() as int) =~= acc1.skip(acc0.len() as int)
                    + taken);
                assert(sink.accepted().take(acc0.len() as int) =~= acc0);
            }
            if !finished {
                proof {
                    let sent = sink.accepted().skip(acc0.len() as int);
                    assert(sink.accepted() =~= acc0 + sent);
                    assert(pend0 =~= sent + self.pending_bytes());
                    lemma_suffix(sent, self.pending_bytes());
                    assert(sink.accepted() + self.pending_bytes() =~= acc0 + pend0);
                    assert(sink.calls().len() - b - 1 == w);
                    assert(pieces1 == p0.skip(w));
                }
                return Ok(false);
            }
            proof {
                assert(self.pending_pieces() =~= p0.skip(w + 1));
            }
        }
        if self.state == PlaybackState::Buffering {
            self.state = PlaybackState::Playing;
        }
        proof {
            let sent = sink.accepted().skip(acc0.len() as int);
            assert(sink.accepted() =~= acc0 + sent);
            lemma_suffix(sent, self.pending_bytes());
            self.pending_audio.lemma_pieces();
            assert(self.pending_pieces() =~= Seq::<Seq<u8>>::empty());
        }
        Ok(true)
    }

    /// Flushes, and once nothing is left asks the sink to drain and marks the stream as draining.
    pub fn stream_ended<S: AudioSink>(&mut self, sink: &mut S) -> (r: Result<bool, S::Error>)
        requires
            old(self).wf(),
        ensures
            final(self).wf(),
            ({
                let c0 = old(sink).calls();
                let c1 = final(sink).calls();
                let drained = c1.len() > c0.len() && c1.last().0 == SinkCall::Drain;
                let p0 = old(self).pending_pieces();
                let before = *old(self);
                let after = *final(self);
                &&& r matches Ok(false) ==> flush_calls(c0, c1, p0, Some(false))
                    && after.pending_pieces() =~~= pieces_left(p0, c0.len(), c1, Some(false))
                &&& r matches Ok(true) ==> drained && c1.last().1 && flush_calls(
                    c0,
                    c1.drop_last(),
                    p0,
                    Some(true),
                )
                &&& r is Err ==> {
                    ||| flush_calls(c0, c1, p0, None) && after.pending_pieces() =~~= pieces_left(
                        p0,
                        c0.len(),
                        c1,
                        None,
                    ) && after.state == before.state
                    ||| drained && !c1.last().1 && flush_calls(c0, c1.drop_last(), p0, Some(true))
                        && after.pending_bytes().len() == 0 && after.state == (if before.state
                        == PlaybackState::Buffering {
                        PlaybackState::Playing
                    } else {
                        before.state
                    })
                }
            }),
            r is Ok ==> final(sink).accepted() + final(self).pending_bytes() == old(sink).accepted()
                + old(self).pending_bytes(),
            r matches Ok(true) ==> final(self).state == PlaybackState::Draining
                && final(self).pending_bytes().len() == 0,
            r matches Ok(false) ==> final(self).pending_bytes().len() > 0 && final(self).state
                == old(self).state && final(sink).accepted() + final(self).pending_bytes() == old(
                sink,
            ).accepted() + old(self).pending_bytes(),
            final(self).current == old(self).current,
            final(self).queue == old(self).queue,
            final(self).position_ms == old(self).position_ms,
            final(self).duration_ms == old(self).duration_ms,
            final(self).volume_percent == old(self).volume_percent,
            final(self).stream_id == old(self).stream_id,
            final(self).error == old(self).error,
    {
        match self.flush_audio(sink) {
            Ok(true) => {},
            Ok(false) => return Ok(false),
            Err(e) => return Err(e),
        }
        let ghost mid = sink.calls();
        let drained = sink.drain();
        assert(sink.calls().drop_last() =~= mid);
        match drained {
            Ok(()) => {},
            Err(e) => return Err(e),
        }
        self.state = PlaybackState::Draining;
        Ok(true)
    }

    /// Pauses a playing or buffering stream, resumes a paused one, and leaves any other state alone.
    pub fn toggle<S: AudioSink>(&mut self, sink: &mut S) -> (r: Result<(), S::Error>)
        ensures
            final(sink).calls() == (match old(self).state {
                PlaybackState::Playing | PlaybackState::Buffering => old(sink).calls().push(
                    (SinkCall::Pause, r is Ok),
                ),
                PlaybackState::Paused => old(sink).calls().push((SinkCall::Resume, r is Ok)),
                _ => old(sink).calls(),
            }),
            !(old(self).state is Playing || old(self).state is Buffering || old(self).state is Paused)
                ==> r is Ok,
            final(sink).accepted() == old(sink).accepted(),
            final(self).pending_audio == old(self).pending_audio,
            final(self).current == old(self).current,
            final(self).queue == old(self).queue,
            final(self).position_ms == old(self).position_ms,
            final(self).duration_ms == old(self).duration_ms,
            final(self).volume_percent == old(self).volume_percent,
            final(self).stream_id == old(self).stream_id,
            final(self).error == old(self).error,
            final(self).state == (match r {
                Err(_) => old(self).state,
                Ok(()) => Self::toggled(old(self).state),
            }),
    {
        match self.state {
            PlaybackState::Playing | PlaybackState::Buffering => {
                match sink.pause() {
                    Ok(()) => {},
                    Err(e) => return Err(e),
                }
                self.state = PlaybackState::Paused;
            },
            PlaybackState::Paused => {
                match sink.resume() {
                    Ok(()) => {},
                    Err(e) => return Err(e),
                }
                self.state = PlaybackState::Playing;
            },
            _ => {},
        }
        Ok(())
    }

    /// The state after a successful toggle.
    pub open spec fn toggled(state: PlaybackState) -> PlaybackState {
        match state {
            PlaybackState::Playing | PlaybackState::Buffering => PlaybackState::Paused,
            PlaybackState::Paused => PlaybackState::Playing,
            other => other,
        }
    }

    /// Stops the sink and forgets the stream.
    pub fn stop<S: AudioSink>(&mut self, sink: &mut S) -> (r: Result<(), S::Error>)
        ensures
            final(sink).calls() == old(sink).calls().push((SinkCall::Stop, r is Ok)),
            final(sink).accepted() == old(sink).accepted(),
            r is Err ==> *final(self) == *old(self),
            r is Ok ==> {
                &&& final(self).wf()
                &&& final(self).stream_id is None
                &&& final(self).pending_bytes().len() == 0
                &&& final(self).state == PlaybackState::Idle
                &&& final(self).current == old(self).current
                &&& final(self).queue == old(self).queue
                &&& final(self).position_ms == old(self).position_ms
                &&& final(self).duration_ms == old(self).duration_ms
                &&& final(self).volume_percent == old(self).volume_percent
                &&& final(self).error == old(self).error
            },
    {
        match sink.stop() {
            Ok(()) => {},
            Err(e) => return Err(e),
        }
        self.stream_id = None;
        self.clear_pending();
        self.state = PlaybackState::Idle;
        Ok(())
    }

    /// Advances the position clock while playing.
    pub fn tick(&mut self, elapsed_ms: u32)
        ensures
            final(self).position_ms == (if old(self).state == PlaybackState::Playing {
                advanced_position(old(self).position_ms, old(self).duration_ms, elapsed_ms)
            } else {
                old(self).position_ms
            }),
            final(self).state == old(self).state,
            final(self).current == old(self).current,
            final(self).queue == old(self).queue,
            final(self).duration_ms == old(self).duration_ms,
            final(self).volume_percent == old(self).volume_percent,
            final(self).stream_id == old(self).stream_id,
            final(self).error == old(self).error,
            final(self).pending_audio == old(self).pending_audio,
            old(self).state == PlaybackState::Playing && old(self).duration_ms > 0 ==> {
                &&& final(self).position_ms <= final(self).duration_ms
                &&& final(self).position_ms == (if old(self).position_ms + elapsed_ms
                    >= old(self).duration_ms {
                    old(self).duration_ms as int
                } else {
                    old(self).position_ms + elapsed_ms
                })
            },
    {
        if self.state == PlaybackState::Playing {
            let sum = self.position_ms.saturating_add(elapsed_ms);
            self.position_ms = if self.duration_ms == 0 {
                sum
            } else if sum < self.duration_ms {
                sum
            } else {
                self.duration_ms
            };
        }
    }

    /// Takes the position that the driver reports; true when the shown half-second changes.
    pub fn sync_position(&mut self, position_ms: u32) -> (changed: bool)
        ensures
            final(self).position_ms == clamped_position(position_ms, old(self).duration_ms),
            changed == (old(self).position_ms / 500 != final(self).position_ms / 500),
            final(self).state == old(self).state,
            final(self).current == old(self).current,
            final(self).queue == old(self).queue,
            final(self).duration_ms == old(self).duration_ms,
            final(self).volume_percent == old(self).volume_percent,
            final(self).stream_id == old(self).stream_id,
            final(self).error == old(self).error,
            final(self).pending_audio == old(self).pending_audio,
    {
        let position_ms = if self.duration_ms == 0 || position_ms <= self.duration_ms {
            position_ms
        } else {
            self.duration_ms
        };
        let visible_changed = self.position_ms / 500 != position_ms / 500;
        self.position_ms = position_ms;
        visible_changed
    }

    /// Takes a duration discovered while playing, for the player and the current song.
    pub fn set_duration(&mut self, duration_ms: u32)
        ensures
            final(self).duration_ms == duration_ms,
            final(self).position_ms == (if old(self).position_ms <= duration_ms {
                old(self).position_ms
            } else {
                duration_ms
            }),
            match old(self).current {
                None => final(self).current is None,
                Some(song) => opt_song_view(final(self).current) == Some(
                    SongView { duration_ms, ..song@ },
                ),
            },
            final(self).state == old(self).state,
            final(self).queue == old(self).queue,
            final(self).volume_percent == old(self).volume_percent,
            final(self).stream_id == old(self).stream_id,
            final(self).error == old(self).error,
            final(self).pending_audio == old(self).pending_audio,
    {
        self.duration_ms = duration_ms;
        match &mut self.current {
            Some(current) => {
                current.duration_ms = duration_ms;
            },
            None => {},
        }
        if self.position_ms > duration_ms {
            self.position_ms = duration_ms;
        }
    }

    /// Takes a volume reported by the system; true when it differs from the shown one.
    pub fn sync_volume(&mut self, percent: u8) -> (changed: bool)
        ensures
            final(self).volume_percent == clamped_volume(percent),
            changed == (old(self).volume_percent != clamped_volume(percent)),
            final(self).state == old(self).state,
            final(self).current == old(self).current,
            final(self).queue == old(self).queue,
            final(self).position_ms == old(self).position_ms,
            final(self).duration_ms == old(self).duration_ms,
            final(self).stream_id == old(self).stream_id,
            final(self).error == old(self).error,
            final(self).pending_audio == old(self).pending_audio,
    {
        let percent = if percent <= 100 {
            percent
        } else {
            100
        };
        if self.volume_percent == percent {
            return false;
        }
        self.volume_percent = percent;
        true
    }

    /// Sets the sink's volume, held at 100 percent, and remembers it.
    pub fn set_volume<S: AudioSink>(&mut self, percent: u8, sink: &mut S) -> (r: Result<
        (),
        S::Error,
    >)
        ensures
            final(sink).calls() == old(sink).calls().push(
                (SinkCall::SetVolume(clamped_volume(percent)), r is Ok),
            ),
            final(sink).accepted() == old(sink).accepted(),
            final(self).volume_percent == (if r is Ok {
                clamped_volume(percent)
            } else {
                old(self).volume_percent
            }),
            final(self).state == old(self).state,
            final(self).current == old(self).current,
            final(self).queue == old(self).queue,
            final(self).position_ms == old(self).position_ms,
            final(self).duration_ms == old(self).duration_ms,
            final(self).stream_id == old(self).stream_id,
            final(self).error == old(self).error,
            final(self).pending_audio == old(self).pending_audio,
    {
        let percent = if percent <= 100 {
            percent
        } else {
            100
        };
        match sink.set_volume(percent) {
            Ok(()) => {},
            Err(e) => return Err(e),
        }
        self.volume_percent = percent;
        Ok(())
    }

    /// Forgets the song, the queue, the stream and any error.
    pub fn clear(&mut self)
        ensures
            final(self).wf(),
            final(self).state == PlaybackState::Idle,
            final(self).current is None,
            final(self).queue@.len() == 0,
            final(self).position_ms == 0,
            final(self).duration_ms == 0,
            final(self).stream_id is None,
            final(self).error is None,
            final(self).pending_bytes().len() == 0,
            final(self).volume_percent == old(self).volume_percent,
    {
        self.state = PlaybackState::Idle;
        self.current = None;
        self.queue.clear();
        self.position_ms = 0;
        self.duration_ms = 0;
        self.stream_id = None;
        self.error = None;
        self.clear_pending();
    }

    /// Takes the first queued song.
    pub fn take_next(&mut self) -> (r: Option<Song>)
        ensures
            match r {
                Some(song) => old(self).queue@.len() > 0 && song == old(self).queue@[0]
                    && final(self).queue@ == old(self).queue@.drop_first(),
                None => old(self).queue@.len() == 0 && final(self).queue@ == old(self).queue@,
            },
            final(self).state == old(self).state,
            final(self).current == old(self).current,
            final(self).position_ms == old(self).position_ms,
            final(self).duration_ms == old(self).duration_ms,
            final(self).volume_percent == old(self).volume_percent,
            final(self).stream_id == old(self).stream_id,
            final(self).error == old(self).error,
            final(self).pending_audio == old(self).pending_audio,
    {
        let r = self.queue.pop_front();
        proof {
            if r is Some {
                assert(old(self).queue@.drop_first() =~= self.queue@);
            }
        }
        r
    }
}

impl Default for Player {
    fn default() -> (p: Player)
        ensures
            p.wf(),
            p.state == PlaybackState::Idle,
            p.current is None,
            p.queue@.len() == 0,
            p.position_ms == 0,
            p.duration_ms == 0,
            p.volume_percent == 100,
            p.stream_id is None,
            p.error is None,
            p.pending_bytes().len() == 0,
    {
        Player::new()
    }
}

} // verus!
