//! Downloading under a byte cap. The transport is driven from outside: this
//! module decides, on the response head and on every event of the body, what
//! is kept and how the download goes on.

use crate::error::Error;
use vstd::prelude::*;

verus! {

/// The cap on the body of a remote image: 16 MiB.
pub const MAX_IMAGE_SIZE: u64 = 16777216;

/// What a failed download reports as its cause where the server answered
/// with a status outside 200 to 299.
pub open spec fn bad_status_cause() -> Seq<char> {
    "the remote server answered with a status that is not a success"@
}

/// Whether `status` is one of the success codes, 200 to 299.
pub open spec fn is_success(status: u16) -> bool {
    200 <= status <= 299
}

/// The first `cap` bytes of `stream`, or all of it where it is shorter.
pub open spec fn truncated(stream: Seq<u8>, cap: nat) -> Seq<u8> {
    if stream.len() <= cap {
        stream
    } else {
        stream.take(cap as int)
    }
}

/// The part of `chunk` that still fits when `held` bytes are kept already.
pub open spec fn accepted(held: nat, chunk: Seq<u8>, cap: nat) -> Seq<u8> {
    if held >= cap {
        Seq::empty()
    } else {
        truncated(chunk, (cap - held) as nat)
    }
}

/// The growable byte buffer of the `bytes` crate, in which a body accumulates.
#[verifier::external_type_specification]
#[verifier::external_body]
pub struct ExBytesMut(bytes::BytesMut);

/// The bytes that a buffer holds, in order.
pub uninterp spec fn buffered(buffer: bytes::BytesMut) -> Seq<u8>;

/// `BytesMut::new`: the new buffer holds nothing.
pub assume_specification[ bytes::BytesMut::new ]() -> (buffer: bytes::BytesMut)
    ensures
        buffered(buffer) == Seq::<u8>::empty(),
;

/// `BytesMut::len`: the number of bytes that the buffer holds.
pub assume_specification[ bytes::BytesMut::len ](buffer: &bytes::BytesMut) -> (len: usize)
    ensures
        len == buffered(*buffer).len(),
;

/// `BytesMut::extend_from_slice`: the slice is appended to what the buffer
/// holds. It reserves room first, which panics where the new length is more
/// than an allocation can have; the `requires` keeps that away.
pub assume_specification[ bytes::BytesMut::extend_from_slice ](
    buffer: &mut bytes::BytesMut,
    extend: &[u8],
)
    requires
        buffered(*old(buffer)).len() + extend@.len() <= isize::MAX,
    ensures
        buffered(*final(buffer)) == buffered(*old(buffer)) + extend@,
;

/// Borrows what the buffer holds, through its `AsRef<[u8]>`.
#[verifier::external_body]
fn as_slice(buffer: &bytes::BytesMut) -> (bytes: &[u8])
    ensures
        bytes@ == buffered(*buffer),
{
    buffer.as_ref()
}

/// Turns the buffer into a vector of what it holds, through the crate's
/// `From<BytesMut> for Vec<u8>`.
#[verifier::external_body]
fn into_vec(buffer: bytes::BytesMut) -> (bytes: Vec<u8>)
    ensures
        bytes@ == buffered(buffer),
{
    Vec::from(buffer)
}

/// The mathematical content of a download in progress.
pub struct FetchView {
    /// The most bytes that are ever kept.
    pub cap: nat,
    /// Every byte of the body that the transport has delivered so far.
    pub received: Seq<u8>,
}

impl FetchView {
    /// The bytes that are kept: the body so far, cut off at the cap.
    pub open spec fn kept(self) -> Seq<u8> {
        truncated(self.received, self.cap)
    }
}

/// A download in progress: the body accumulated so far, never longer than
/// the cap.
pub struct BoundedFetch {
    cap: u64,
    body: bytes::BytesMut,
    received: Ghost<Seq<u8>>,
}

impl View for BoundedFetch {
    type V = FetchView;

    closed spec fn view(&self) -> FetchView {
        FetchView { cap: self.cap as nat, received: self.received@ }
    }
}

/// What the transport reports once the request has been sent.
pub enum FetchHead {
    /// The head of the response: its status code and the length it
    /// announces for the body, if it announces one.
    Response { status: u16, content_length: Option<u64> },
    /// The transport failed before any response; the text says why.
    Failed(String),
}

/// What the transport reports while the body is read.
pub enum FetchEvent<'a> {
    /// The next chunk of the body.
    Chunk(&'a [u8]),
    /// The body has ended.
    End,
    /// The transport failed; the text says why.
    Failed(String),
}

/// How a download goes on.
pub enum FetchStep {
    /// Read the next event and hand it to this state.
    Continue(BoundedFetch),
    /// The download is over: these are the bytes of the image.
    Complete(Vec<u8>),
    /// The download is over and has failed.
    Failed(Error),
}

/// Cutting a stream off at the cap keeps a prefix of it, as long as the
/// stream where that is within the cap and exactly as long as the cap where
/// it is not.
pub proof fn lemma_truncated(stream: Seq<u8>, cap: nat)
    ensures
        truncated(stream, cap).is_prefix_of(stream),
        stream.len() <= cap ==> truncated(stream, cap) == stream,
        stream.len() > cap ==> truncated(stream, cap).len() == cap,
{
}

/// Keeping what fits of each chunk as it arrives amounts to cutting the
/// whole stream off at the cap.
pub proof fn lemma_truncated_append(stream: Seq<u8>, chunk: Seq<u8>, cap: nat)
    ensures
        truncated(stream + chunk, cap) == truncated(stream, cap) + accepted(
            truncated(stream, cap).len(),
            chunk,
            cap,
        ),
{
    assert(truncated(stream + chunk, cap) =~= truncated(stream, cap) + accepted(
        truncated(stream, cap).len(),
        chunk,
        cap,
    ));
}

impl BoundedFetch {
    #[verifier::type_invariant]
    closed spec fn inv(self) -> bool {
        &&& self.cap <= isize::MAX
        &&& buffered(self.body) == truncated(self.received@, self.cap as nat)
    }

    /// Decides on the head of the response, before any byte of the body is
    /// read. A transport failure fails the download with its cause; a status
    /// that is not a success fails it as a transport failure too; an announced
    /// length over the cap fails it as too large; any other response starts a
    /// download with nothing kept yet.
    pub fn begin(head: FetchHead, cap: u64) -> (step: FetchStep)
        requires
            cap <= isize::MAX,
        ensures
            match head {
                FetchHead::Failed(cause) => step == FetchStep::Failed(Error::InternalError(cause)),
                FetchHead::Response { status, content_length } => {
                    if !is_success(status) {
                        step matches FetchStep::Failed(Error::InternalError(cause)) && cause@
                            == bad_status_cause()
                    } else if content_length matches Some(length) && length > cap {
                        step == FetchStep::Failed(Error::RequestedImageToLarge)
                    } else {
                        step matches FetchStep::Continue(fetch) && fetch@ == (FetchView {
                            cap: cap as nat,
                            received: Seq::empty(),
                        })
                    }
                },
            },
    {
        match head {
            FetchHead::Failed(cause) => FetchStep::Failed(Error::InternalError(cause)),
            FetchHead::Response { status, content_length } => {
                if status < 200 || status > 299 {
                    return FetchStep::Failed(
                        Error::InternalError(
                            "the remote server answered with a status that is not a success".to_owned(),
                        ),
                    );
                }
                if let Some(length) = content_length {
                    if length > cap {
                        return FetchStep::Failed(Error::RequestedImageToLarge);
                    }
                }
                FetchStep::Continue(
                    BoundedFetch {
                        cap,
                        body: bytes::BytesMut::new(),
                        received: Ghost(Seq::empty()),
                    },
                )
            },
        }
    }

    /// The bytes kept so far.
    pub fn kept(&self) -> (bytes: &[u8])
        ensures
            bytes@ == self@.kept(),
    {
        proof {
            use_type_invariant(self);
        }
        as_slice(&self.body)
    }

    /// Takes one event of the body. A chunk is kept as far as it fits under
    /// the cap, the rest of it is dropped, and the download goes on whether or
    /// not anything still fits. At the end of the body the kept bytes are handed
    /// out. A transport failure fails the download with its cause.
    pub fn step(self, event: FetchEvent) -> (step: FetchStep)
        ensures
            match event {
                FetchEvent::Chunk(chunk) => {
                    &&& step matches FetchStep::Continue(next)
                    &&& next@ == (FetchView {
                        cap: self@.cap,
                        received: self@.received + chunk@,
                    })
                    &&& next@.kept() == self@.kept() + accepted(self@.kept().len(), chunk@, self@.cap)
                },
                FetchEvent::End => {
                    &&& step matches FetchStep::Complete(body)
                    &&& body@ == self@.kept()
                },
                FetchEvent::Failed(cause) => step == FetchStep::Failed(Error::InternalError(cause)),
            },
    {
        proof {
            use_type_invariant(&self);
        }
        match event {
            FetchEvent::Chunk(chunk) => {
                let held: u64 = self.body.len() as u64;
                let room: u64 = if self.cap > held {
                    self.cap - held
                } else {
                    0
                };
                let take: usize = if chunk.len() as u64 <= room {
                    chunk.len()
                } else {
                    room as usize
                };
                let ghost before = buffered(self.body);
                let mut body = self.body;
                body.extend_from_slice(&chunk[0..take]);
                proof {
                    lemma_truncated_append(self.received@, chunk@, self.cap as nat);
                    assert(chunk@.subrange(0, take as int) =~= accepted(
                        before.len(),
                        chunk@,
                        self.cap as nat,
                    ));
                }
                FetchStep::Continue(
                    BoundedFetch { cap: self.cap, body, received: Ghost(self.received@ + chunk@) },
                )
            },
            FetchEvent::End => FetchStep::Complete(into_vec(self.body)),
            FetchEvent::Failed(cause) => FetchStep::Failed(Error::InternalError(cause)),
        }
    }
}

} // verus!
