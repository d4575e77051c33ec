//! Runs of reads: what a consumer collects from a stream whose foreign
//! reader keeps to its protocol.
//!
//! A read asks the foreign reader to fill a buffer; the reader reports how
//! many bytes it stored, or the end of its stream. The items below model a
//! whole run of such reads against a reader that holds a finite content,
//! and state what the adapter's rule for the count,
//! [`spec_bytes_written`](crate::stream::spec_bytes_written), makes of it.
//! What a buffer holds after each copy is part of the model: no contract of
//! the adapter states it.

use vstd::prelude::*;
use crate::envelope::{Envelope, JStringResult};
use crate::stream::{spec_bytes_written, END_OF_STREAM, MAX_REQUEST};

verus! {

/// One read, as the adapter sees it.
pub struct Exchange {
    /// Length of the caller's buffer.
    pub capacity: usize,
    /// What the foreign reader reported.
    pub reported: i32,
    /// What the caller's buffer held after the copy.
    pub buffer: Seq<u8>,
}

/// True if `run` is a run of reads against a well-behaved reader that
/// still holds `content`: every buffer has room for at least one byte and
/// is no longer than a foreign array can be; a reader with nothing left
/// reports the end of its stream; a reader with something left stores some
/// of its leading bytes, at least one and no more than the buffer takes, at
/// the front of the buffer, reports how many, and goes on behind them.
pub open spec fn well_behaved(content: Seq<u8>, run: Seq<Exchange>) -> bool
    decreases run.len(),
{
    if run.len() == 0 {
        true
    } else {
        let x = run.first();
        &&& 1 <= x.capacity <= MAX_REQUEST
        &&& x.buffer.len() == x.capacity
        &&& if content.len() == 0 {
            &&& x.reported == END_OF_STREAM
            &&& well_behaved(content, run.drop_first())
        } else {
            &&& 1 <= x.reported <= x.capacity
            &&& x.reported <= content.len()
            &&& x.buffer.take(x.reported as int) == content.take(x.reported as int)
            &&& well_behaved(content.skip(x.reported as int), run.drop_first())
        }
    }
}

/// The bytes that the caller of one read takes from its buffer: as many of
/// the leading ones as the read reports written, none if the read fails.
pub open spec fn handed_out(x: Exchange) -> Seq<u8> {
    match spec_bytes_written(x.reported, x.capacity) {
        Ok(n) => x.buffer.take(n as int),
        Err(_) => Seq::empty(),
    }
}

/// The bytes that a consumer collects over a run of reads, in order.
pub open spec fn collected(run: Seq<Exchange>) -> Seq<u8>
    decreases run.len(),
{
    if run.len() == 0 {
        Seq::empty()
    } else {
        handed_out(run.first()) + collected(run.drop_first())
    }
}

/// True if some read of the run signalled the end of the stream: it
/// reported zero bytes written.
pub open spec fn reaches_end(run: Seq<Exchange>) -> bool {
    exists|i: int|
        0 <= i < run.len() && #[trigger] spec_bytes_written(run[i].reported, run[i].capacity)
            == Ok::<usize, crate::errors::ExtractError>(0usize)
}

/// Against a well-behaved reader no read fails, and what a consumer
/// collects is a leading part of the reader's content, with nothing
/// dropped, repeated or padded; once a read has signalled the end of the
/// stream, it is the whole content.
pub proof fn lemma_reads_concatenate(content: Seq<u8>, run: Seq<Exchange>)
    requires
        well_behaved(content, run),
    ensures
        forall|i: int|
            0 <= i < run.len() ==> (#[trigger] spec_bytes_written(
                run[i].reported,
                run[i].capacity,
            )) is Ok,
        collected(run).len() <= content.len(),
        collected(run) == content.take(collected(run).len() as int),
        reaches_end(run) ==> collected(run) == content,
    decreases run.len(),
{
    if run.len() == 0 {
        assert(collected(run) =~= content.take(0));
    } else {
        let x = run.first();
        let rest = run.drop_first();
        assert forall|i: int| 1 <= i < run.len() implies run[i] == #[trigger] rest[i - 1] by {}
        if content.len() == 0 {
            lemma_reads_concatenate(content, rest);
            assert(handed_out(x) =~= Seq::<u8>::empty());
            assert(collected(run) =~= collected(rest));
            assert(collected(run) =~= content);
            assert forall|i: int| 0 <= i < run.len() implies (#[trigger] spec_bytes_written(
                run[i].reported,
                run[i].capacity,
            )) is Ok by {
                if i > 0 {
                    assert(run[i] == rest[i - 1]);
                }
            }
        } else {
            let k = x.reported as int;
            let behind = content.skip(k);
            lemma_reads_concatenate(behind, rest);
            let m = collected(rest).len() as int;
            assert(handed_out(x) == content.take(k));
            assert(collected(run) =~= content.take(k) + behind.take(m));
            assert(content.take(k) + behind.take(m) =~= content.take(k + m));
            assert forall|i: int| 0 <= i < run.len() implies (#[trigger] spec_bytes_written(
                run[i].reported,
                run[i].capacity,
            )) is Ok by {
                if i > 0 {
                    assert(run[i] == rest[i - 1]);
                }
            }
            if reaches_end(run) {
                let i = choose|i: int|
                    0 <= i < run.len() && #[trigger] spec_bytes_written(
                        run[i].reported,
                        run[i].capacity,
                    ) == Ok::<usize, crate::errors::ExtractError>(0usize);
                assert(i > 0);
                assert(run[i] == rest[i - 1]);
                assert(spec_bytes_written(rest[i - 1].reported, rest[i - 1].capacity) == Ok::<
                    usize,
                    crate::errors::ExtractError,
                >(0usize));
                assert(reaches_end(rest));
                assert(collected(rest) == behind);
                assert(content.take(k) + behind =~= content);
            }
        }
    }
}

/// The sizes of the buffers do not matter: two consumers that read the same
/// content to its end, each with buffers of its own choosing, collect the
/// same bytes. A single read into a buffer as long as the content, which
/// the reader fills, hands out those bytes too.
pub proof fn lemma_buffer_sizes_do_not_matter(content: Seq<u8>, a: Seq<Exchange>, b: Seq<Exchange>)
    requires
        well_behaved(content, a),
        well_behaved(content, b),
        reaches_end(a),
        reaches_end(b),
    ensures
        collected(a) == collected(b),
        collected(a) == content,
        1 <= content.len() <= MAX_REQUEST ==> handed_out(
            Exchange {
                capacity: content.len() as usize,
                reported: content.len() as i32,
                buffer: content,
            },
        ) == content,
{
    lemma_reads_concatenate(content, a);
    lemma_reads_concatenate(content, b);
    if 1 <= content.len() <= MAX_REQUEST {
        assert(content.take(content.len() as int) =~= content);
    }
}

/// The one-shot path and the streaming path give the same bytes: where a
/// string-bearing envelope unwraps to a text, and a well-behaved reader
/// over the encoded bytes of that text is read to its end, the bytes
/// collected are the encoded bytes of the unwrapped text.
pub proof fn lemma_string_path_equals_stream_path(text: String, run: Seq<Exchange>)
    requires
        well_behaved(vstd::utf8::encode_utf8(text@), run),
        reaches_end(run),
    ensures
        JStringResult::unwrapped(Envelope::Success(text)) matches Ok(result) && collected(run)
            == vstd::utf8::encode_utf8(result.content@),
{
    lemma_reads_concatenate(vstd::utf8::encode_utf8(text@), run);
}

} // verus!
