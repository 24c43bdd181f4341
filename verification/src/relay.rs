//! The relay: what reaches the output while a claimed session streams.
//!
//! The session sees each transfer only as a number of bytes. These laws follow
//! the bytes themselves, through a caller that does what each step asks: it
//! reports every transfer, writes the part of the buffer that a `Write` names,
//! and stops on an `Abort`.

use crate::descriptor::BUFFER_SIZE;
use crate::error::{Fatal, UsbError};
use crate::session::{delivered, Action, Event, Session};
use vstd::prelude::*;

verus! {

/// What the session is told of a transfer: the number of bytes received, or
/// the error.
pub open spec fn report(transfer: Result<Seq<u8>, UsbError>) -> Event {
    match transfer {
        Ok(bytes) => Event::Transferred(Ok(bytes.len() as usize)),
        Err(error) => Event::Transferred(Err(error)),
    }
}

/// The state that a run of transfers leaves the session in, and the bytes
/// that it sends to the output.
///
/// `transfers` holds what the successive transfer calls return: the bytes
/// received, or an error. Each is reported to the session. Where the session
/// answers with a `Write`, the named part of the received bytes is written,
/// the write is reported as done, and the run goes on; any other answer ends
/// it.
pub open spec fn relayed(session: Session, transfers: Seq<Result<Seq<u8>, UsbError>>) -> (
    Session,
    Seq<u8>,
)
    decreases transfers.len(),
{
    if transfers.len() == 0 {
        (session, Seq::empty())
    } else {
        let (next, step) = session.spec_step(report(transfers.first()));
        match (transfers.first(), step.action) {
            (Ok(bytes), Action::Write { len }) => {
                let resumed = next.spec_step(Event::Written(Ok(()))).0;
                let (last, rest) = relayed(resumed, transfers.drop_first());
                (last, delivered(bytes, len).unwrap() + rest)
            },
            _ => (next, Seq::empty()),
        }
    }
}

/// The bytes of the transfers that come before the first failed one, joined in
/// call order.
pub open spec fn received_before_failure(transfers: Seq<Result<Seq<u8>, UsbError>>) -> Seq<u8>
    decreases transfers.len(),
{
    if transfers.len() == 0 {
        Seq::empty()
    } else {
        match transfers.first() {
            Ok(bytes) => bytes + received_before_failure(transfers.drop_first()),
            Err(_) => Seq::empty(),
        }
    }
}

/// The error of the first failed transfer, if one fails.
pub open spec fn first_failure(transfers: Seq<Result<Seq<u8>, UsbError>>) -> Option<UsbError>
    decreases transfers.len(),
{
    if transfers.len() == 0 {
        None
    } else {
        match transfers.first() {
            Ok(_) => first_failure(transfers.drop_first()),
            Err(error) => Some(error),
        }
    }
}

/// A run of transfers in which each of `chunks` arrives in turn and the next
/// call fails with `error`.
pub open spec fn chunks_then_failure(chunks: Seq<Seq<u8>>, error: UsbError) -> Seq<
    Result<Seq<u8>, UsbError>,
> {
    Seq::new(
        chunks.len() + 1,
        |k: int|
            if k < chunks.len() {
                Ok(chunks[k])
            } else {
                Err(error)
            },
    )
}

/// The output is exactly the bytes that the successful transfers returned,
/// joined in call order: nothing is dropped, repeated or reordered. The
/// first failed transfer ends the session with its error; until then the
/// session keeps streaming.
///
/// No transfer returns more bytes than the buffer holds.
pub proof fn law_output_is_what_was_received(
    session: Session,
    transfers: Seq<Result<Seq<u8>, UsbError>>,
)
    requires
        session is Claimed,
        forall|k: int|
            0 <= k < transfers.len() ==> ((#[trigger] transfers[k]) matches Ok(bytes)
                ==> bytes.len() <= BUFFER_SIZE),
    ensures
        relayed(session, transfers).1 == received_before_failure(transfers),
        relayed(session, transfers).0 == match first_failure(transfers) {
            Some(error) => Session::Failed { fatal: Fatal::Transfer(error) },
            None => session,
        },
    decreases transfers.len(),
{
    if transfers.len() > 0 {
        let rest = transfers.drop_first();
        assert forall|k: int| 0 <= k < rest.len() implies ((#[trigger] rest[k]) matches Ok(bytes)
            ==> bytes.len() <= BUFFER_SIZE) by {
            assert(rest[k] == transfers[k + 1]);
        }
        match transfers.first() {
            Ok(bytes) => {
                assert(transfers[0] == transfers.first());
                assert(bytes.take(bytes.len() as int) =~= bytes);
                law_output_is_what_was_received(session, rest);
            },
            Err(_) => {},
        }
    }
}

/// Where the transfers return the chunks `b1, ..., bn` and the next call then
/// fails, the output is `b1` through `bn`, in that order and byte for byte,
/// and the session ends with that error.
pub proof fn law_chunks_then_failure(session: Session, chunks: Seq<Seq<u8>>, error: UsbError)
    requires
        session is Claimed,
        forall|k: int| 0 <= k < chunks.len() ==> (#[trigger] chunks[k]).len() <= BUFFER_SIZE,
    ensures
        relayed(session, chunks_then_failure(chunks, error)) == (
            Session::Failed { fatal: Fatal::Transfer(error) },
            chunks.flatten(),
        ),
{
    let transfers = chunks_then_failure(chunks, error);
    law_output_is_what_was_received(session, transfers);
    lemma_chunks_then_failure(chunks, error);
}

/// What the two summaries of a run make of chunks followed by a failure.
proof fn lemma_chunks_then_failure(chunks: Seq<Seq<u8>>, error: UsbError)
    ensures
        received_before_failure(chunks_then_failure(chunks, error)) == chunks.flatten(),
        first_failure(chunks_then_failure(chunks, error)) == Some(error),
    decreases chunks.len(),
{
    let transfers = chunks_then_failure(chunks, error);
    if chunks.len() > 0 {
        assert(transfers.drop_first() =~= chunks_then_failure(chunks.drop_first(), error));
        lemma_chunks_then_failure(chunks.drop_first(), error);
    }
}

} // verus!
