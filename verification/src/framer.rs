//! Cutting the bytes that arrive from the serial line into records, one per
//! newline.

use vstd::prelude::*;

verus! {

/// The byte that ends a record.
pub const NEWLINE: u8 = 10;

/// The first position at or after `from` that holds a newline, or the length
/// where none does.
pub open spec fn next_break(data: Seq<u8>, from: int) -> int
    decreases data.len() - from,
{
    if from < 0 || from >= data.len() {
        data.len() as int
    } else if data[from] == NEWLINE {
        from
    } else {
        next_break(data, from + 1)
    }
}

/// The complete records in some bytes, in the order of arrival, each with
/// the newline that ends it.
pub open spec fn records(data: Seq<u8>) -> Seq<Seq<u8>>
    decreases data.len(),
{
    let at = next_break(data, 0);
    if 0 <= at < data.len() {
        seq![data.take(at + 1)] + records(data.skip(at + 1))
    } else {
        Seq::empty()
    }
}

/// What is left of some bytes after their complete records: the start of a
/// record whose end has not arrived.
pub open spec fn leftover(data: Seq<u8>) -> Seq<u8>
    decreases data.len(),
{
    let at = next_break(data, 0);
    if 0 <= at < data.len() {
        leftover(data.skip(at + 1))
    } else {
        data
    }
}

/// Whether some bytes are one record: a newline at the end and nowhere else.
pub open spec fn is_record(line: Seq<u8>) -> bool {
    &&& line.len() > 0
    &&& line.last() == NEWLINE
    &&& forall|i: int| 0 <= i < line.len() - 1 ==> line[i] != NEWLINE
}

/// Whether some bytes hold no newline.
pub open spec fn is_plain(bytes: Seq<u8>) -> bool {
    forall|i: int| 0 <= i < bytes.len() ==> bytes[i] != NEWLINE
}

/// The bytes of each record of a list.
pub open spec fn records_view(list: Seq<Vec<u8>>) -> Seq<Seq<u8>> {
    Seq::new(list.len(), |i: int| list[i]@)
}

/// Where no newline stands between two positions, the next newline is the
/// same from both.
pub proof fn next_break_skips_plain_bytes(data: Seq<u8>, from: int, to: int)
    requires
        0 <= from <= to <= data.len(),
        forall|i: int| from <= i < to ==> data[i] != NEWLINE,
    ensures
        next_break(data, from) == next_break(data, to),
    decreases to - from,
{
    if from < to {
        next_break_skips_plain_bytes(data, from + 1, to);
    }
}

/// The next newline is a position at or after the start, and no newline
/// stands before it.
pub proof fn next_break_is_first(data: Seq<u8>, from: int)
    requires
        0 <= from <= data.len(),
    ensures
        from <= next_break(data, from) <= data.len(),
        next_break(data, from) < data.len() ==> data[next_break(data, from)] == NEWLINE,
        forall|i: int| from <= i < next_break(data, from) ==> data[i] != NEWLINE,
    decreases data.len() - from,
{
    if from < data.len() && data[from] != NEWLINE {
        next_break_is_first(data, from + 1);
    }
}

/// The bytes left over hold no newline.
pub proof fn leftover_is_plain(data: Seq<u8>)
    ensures
        is_plain(leftover(data)),
    decreases data.len(),
{
    let at = next_break(data, 0);
    next_break_is_first(data, 0);
    if 0 <= at < data.len() {
        leftover_is_plain(data.skip(at + 1));
        assert(leftover(data) == leftover(data.skip(at + 1)));
    } else {
        assert(leftover(data) == data);
        assert(at == data.len());
    }
}

/// A record followed by more bytes is cut off as it is, and the rest is cut
/// as if it had arrived alone.
pub proof fn record_then_rest(line: Seq<u8>, rest: Seq<u8>)
    requires
        is_record(line),
    ensures
        records(line + rest) == seq![line] + records(rest),
        leftover(line + rest) == leftover(rest),
{
    let data = line + rest;
    let end = line.len() - 1;
    assert forall|i: int| 0 <= i < end implies data[i] != NEWLINE by {
        assert(data[i] == line[i]);
    }
    next_break_skips_plain_bytes(data, 0, end);
    assert(data[end] == line[end]);
    assert(next_break(data, 0) == end);
    assert(data.take(end + 1) =~= line);
    assert(data.skip(end + 1) =~= rest);
}

/// Every record that is cut off is one: it ends in a newline and holds no
/// other.
pub proof fn records_are_records(data: Seq<u8>)
    ensures
        forall|i: int| 0 <= i < records(data).len() ==> is_record(#[trigger] records(data)[i]),
    decreases data.len(),
{
    let at = next_break(data, 0);
    next_break_is_first(data, 0);
    if 0 <= at < data.len() {
        let line = data.take(at + 1);
        let rest = records(data.skip(at + 1));
        records_are_records(data.skip(at + 1));
        assert(is_record(line));
        assert forall|i: int| 0 <= i < records(data).len() implies is_record(
            #[trigger] records(data)[i],
        ) by {
            if i > 0 {
                assert(records(data)[i] == rest[i - 1]);
            }
        }
    }
}

/// A record that arrives alone is cut off as it is, and nothing is left
/// over.
pub proof fn record_frames_as_itself(line: Seq<u8>)
    requires
        is_record(line),
    ensures
        records(line) == seq![line],
        leftover(line) == Seq::<u8>::empty(),
{
    record_then_rest(line, Seq::empty());
    assert(line + Seq::<u8>::empty() =~= line);
    assert(records(Seq::<u8>::empty()) =~= Seq::<Seq<u8>>::empty());
    assert(seq![line] + Seq::<Seq<u8>>::empty() =~= seq![line]);
}

/// Two records that arrive in one chunk are both cut off, in the order of
/// arrival, and nothing is left over.
pub proof fn two_records_in_one_chunk(first: Seq<u8>, second: Seq<u8>)
    requires
        is_record(first),
        is_record(second),
    ensures
        records(first + second) == seq![first, second],
        leftover(first + second) == Seq::<u8>::empty(),
{
    record_then_rest(first, second);
    record_then_rest(second, Seq::empty());
    assert(second + Seq::<u8>::empty() =~= second);
    assert(records(Seq::<u8>::empty()) =~= Seq::<Seq<u8>>::empty());
    assert(seq![first] + (seq![second] + Seq::<Seq<u8>>::empty()) =~= seq![first, second]);
}

/// The bytes of a record that has begun and not yet ended.
pub struct LineFramer {
    buffer: Vec<u8>,
}

impl View for LineFramer {
    type V = Seq<u8>;

    closed spec fn view(&self) -> Seq<u8> {
        self.buffer@
    }
}

impl LineFramer {
    /// A framer that holds nothing.
    pub fn new() -> (f: LineFramer)
        ensures
            f@ == Seq::<u8>::empty(),
    {
        LineFramer { buffer: Vec::new() }
    }

    /// How many bytes of an unfinished record are held.
    pub fn pending(&self) -> (n: usize)
        ensures
            n == self@.len(),
    {
        self.buffer.len()
    }

    /// Takes a chunk of bytes as it arrived. Returns every record that is
    /// now complete, in the order of arrival and each with its newline, and
    /// keeps what follows the last of them for the next chunk.
    pub fn feed(&mut self, chunk: &[u8]) -> (out: Vec<Vec<u8>>)
        ensures
            records_view(out@) == records(old(self)@ + chunk@),
            final(self)@ == leftover(old(self)@ + chunk@),
            is_plain(final(self)@),
            forall|i: int| 0 <= i < out@.len() ==> is_record(#[trigger] out@[i]@),
    {
        let mut all: Vec<u8> = Vec::new();
        all.extend_from_slice(self.buffer.as_slice());
        all.extend_from_slice(chunk);
        let ghost data = all@;
        let mut out: Vec<Vec<u8>> = Vec::new();
        let mut pending: Vec<u8> = Vec::new();
        let ghost mut start: int = 0;
        proof {
            assert(data =~= old(self)@ + chunk@);
            assert(data.skip(0) =~= data);
            assert(records_view(out@) + records(data.skip(0)) =~= records(data));
        }
        // The bytes held from before are scanned again with the chunk: a
        // newline among them would end a record as any other does.
        let mut k: usize = 0;
        while k < all.len()
            invariant
                k <= all.len(),
                all@ == data,
                0 <= start <= k,
                pending@ == data.subrange(start, k as int),
                forall|j: int| start <= j < k ==> data[j] != NEWLINE,
                records_view(out@) + records(data.skip(start)) == records(data),
                leftover(data.skip(start)) == leftover(data),
            decreases all.len() - k,
        {
            let byte = all[k];
            pending.push(byte);
            assert(pending@ =~= data.subrange(start, k + 1));
            if byte == NEWLINE {
                proof {
                    cut_at(data, start, k as int);
                    assert(records_view(out@.push(pending)) =~= records_view(out@) + seq![
                        pending@,
                    ]);
                }
                out.push(pending);
                pending = Vec::new();
                proof {
                    start = k + 1;
                    assert(pending@ =~= data.subrange(start, k + 1));
                }
            }
            k += 1;
        }
        proof {
            let tail = data.skip(start);
            assert forall|j: int| 0 <= j < tail.len() implies tail[j] != NEWLINE by {
                assert(tail[j] == data[start + j]);
            }
            next_break_skips_plain_bytes(tail, 0, tail.len() as int);
            assert(next_break(tail, 0) == tail.len());
            assert(records(tail) =~= Seq::<Seq<u8>>::empty());
            assert(leftover(tail) == tail);
            assert(pending@ =~= tail);
            assert(records_view(out@) + Seq::<Seq<u8>>::empty() =~= records_view(out@));
            leftover_is_plain(data);
            records_are_records(data);
            assert forall|i: int| 0 <= i < out@.len() implies is_record(#[trigger] out@[i]@) by {
                assert(records_view(out@)[i] == out@[i]@);
            }
        }
        self.buffer = pending;
        out
    }
}

/// Where a newline stands at `at` and none between `start` and `at`, the
/// bytes from `start` begin with the record that ends at `at`.
proof fn cut_at(data: Seq<u8>, start: int, at: int)
    requires
        0 <= start <= at < data.len(),
        data[at] == NEWLINE,
        forall|j: int| start <= j < at ==> data[j] != NEWLINE,
    ensures
        records(data.skip(start)) == seq![data.subrange(start, at + 1)] + records(
            data.skip(at + 1),
        ),
        leftover(data.skip(start)) == leftover(data.skip(at + 1)),
{
    let tail = data.skip(start);
    let line = data.subrange(start, at + 1);
    assert(is_record(line)) by {
        assert forall|i: int| 0 <= i < line.len() - 1 implies line[i] != NEWLINE by {
            assert(line[i] == data[start + i]);
        }
    }
    assert(line + data.skip(at + 1) =~= tail);
    record_then_rest(line, data.skip(at + 1));
}

} // verus!
