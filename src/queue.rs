use vstd::prelude::*;

verus! {

/// The producer side of the shared request queue, from tokio.
#[verifier::external_type_specification]
#[verifier::external_body]
#[verifier::reject_recursive_types(T)]
pub struct ExQueueSender<T>(tokio::sync::mpsc::Sender<T>);

/// The writer end of a single-use reply signal, from tokio.
#[verifier::external_type_specification]
#[verifier::external_body]
#[verifier::reject_recursive_types(T)]
pub struct ExReplySender<T>(tokio::sync::oneshot::Sender<T>);

/// The reader end of a single-use reply signal, from tokio.
#[verifier::external_type_specification]
#[verifier::external_body]
#[verifier::reject_recursive_types(T)]
pub struct ExReplyReceiver<T>(tokio::sync::oneshot::Receiver<T>);

/// Why the reader end of a reply signal yielded nothing, from tokio.
#[verifier::external_type_specification]
#[verifier::external_body]
pub struct ExReplyRecvError(tokio::sync::oneshot::error::RecvError);

/// Relies on tokio::sync::oneshot::channel: it makes a fresh writer and
/// reader pair and never fails.
pub assume_specification<T>[ tokio::sync::oneshot::channel::<T> ]() -> (
    tokio::sync::oneshot::Sender<T>,
    tokio::sync::oneshot::Receiver<T>,
);

/// Relies on tokio's Clone for mpsc::Sender: the copy is one more handle on
/// the same queue; nothing about it is stated.
pub assume_specification<T>[ <tokio::sync::mpsc::Sender<T> as Clone>::clone ](
    sender: &tokio::sync::mpsc::Sender<T>,
) -> tokio::sync::mpsc::Sender<T>;

} // verus!
