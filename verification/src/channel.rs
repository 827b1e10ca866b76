//! What the adapter has from outside: the unbounded channel of the `futures`
//! crate, which is its inbound queue, and the two types of `core::task`
//! through which a reader polls.
//!
//! Nothing here is proved. `Poll` is known with its two variants; the other
//! types are opaque, and what a channel holds is known only through the two
//! functions below and through what the adapter's wrappers of the channel's
//! methods say in terms of them.

use core::task::Context;
use core::task::Poll;
use futures::channel::mpsc::UnboundedReceiver;
use futures::channel::mpsc::UnboundedSender;
use vstd::prelude::*;

verus! {

/// `core::task::Context`, which is only ever handed on to the channel.
#[verifier::external_type_specification]
#[verifier::external_body]
pub struct ExContext<'a>(Context<'a>);

/// `core::task::Poll`, with its two variants.
#[verifier::external_type_specification]
#[verifier::reject_recursive_types(T)]
pub struct ExPoll<T>(Poll<T>);

/// The sending half of an unbounded channel of `futures`.
#[verifier::external_type_specification]
#[verifier::external_body]
#[verifier::reject_recursive_types(T)]
pub struct ExUnboundedSender<T>(UnboundedSender<T>);

/// The receiving half of an unbounded channel of `futures`.
#[verifier::external_type_specification]
#[verifier::external_body]
#[verifier::reject_recursive_types(T)]
pub struct ExUnboundedReceiver<T>(UnboundedReceiver<T>);

/// The payloads that the channel of `receiver` holds, oldest first.
pub uninterp spec fn channel_pending(receiver: UnboundedReceiver<Vec<u8>>) -> Seq<Seq<u8>>;

/// Whether the channel of `receiver` has been closed from the sending side.
pub uninterp spec fn channel_closed(receiver: UnboundedReceiver<Vec<u8>>) -> bool;

/// The most payloads that a channel can count. An open channel takes
/// another one only while it holds fewer.
pub const CAPACITY: usize = usize::MAX / 2;

} // verus!
