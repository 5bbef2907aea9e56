//! The channel ends that the library carries, and the two channel calls that it makes.
use crate::listing::Listing;
use vstd::prelude::*;

verus! {

/// `flume::Sender`, carried as an opaque handle on a channel.
#[verifier::external_type_specification]
#[verifier::external_body]
#[verifier::reject_recursive_types(T)]
pub struct ExSender<T>(flume::Sender<T>);

/// `flume::Receiver`, carried as an opaque handle on a channel.
#[verifier::external_type_specification]
#[verifier::external_body]
#[verifier::reject_recursive_types(T)]
pub struct ExReceiver<T>(flume::Receiver<T>);

/// `flume::Sender::clone`: the clone is a handle on the same channel, and nothing tells the two
/// apart.
pub assume_specification<T>[ <flume::Sender<T> as Clone>::clone ](tx: &flume::Sender<T>) -> (r:
    flume::Sender<T>)
    ensures
        r == *tx,
;

/// `flume::bounded`: the two ends of a new channel that holds up to `capacity` listings. No clause is
/// believed of them; that one call returned both is what `ends_of_one` says.
#[verifier::external_body]
fn listing_channel(capacity: usize) -> (ends: (flume::Sender<Listing>, flume::Receiver<Listing>)) {
    flume::bounded(capacity)
}

/// `tx` and `rx` are the two ends of one channel that holds up to `capacity` listings: they are among
/// what one call for such a channel may return.
pub closed spec fn ends_of_one(
    capacity: usize,
    tx: flume::Sender<Listing>,
    rx: flume::Receiver<Listing>,
) -> bool {
    call_ensures(listing_channel, (capacity,), (tx, rx))
}

/// Makes a channel that holds up to `capacity` listings, and returns its two ends.
pub(crate) fn new_channel(capacity: usize) -> (ends: (
    flume::Sender<Listing>,
    flume::Receiver<Listing>,
))
    ensures
        ends_of_one(capacity, ends.0, ends.1),
{
    listing_channel(capacity)
}

/// `flume::Receiver::try_recv`: a listing that has arrived, or the receiver itself, unchanged, while
/// there is none. It does not wait. Whether one has arrived, and which, depends on what other threads
/// have sent, so nothing is stated of that. The receiver is given away with the listing that comes
/// out of it, so that it can be looked at again only where nothing came.
#[verifier::external_body]
fn try_receive(rx: flume::Receiver<Listing>) -> (r: Result<Listing, flume::Receiver<Listing>>)
    ensures
        r matches Err(back) ==> back == rx,
{
    match rx.try_recv() {
        Ok(listing) => Ok(listing),
        Err(_) => Err(rx),
    }
}

/// A look at `rx` can come back with `arrived`: it is among what the call may return.
pub closed spec fn came_back(rx: flume::Receiver<Listing>, arrived: Option<Listing>) -> bool {
    match arrived {
        Some(listing) => call_ensures(try_receive, (rx,), Ok(listing)),
        None => call_ensures(try_receive, (rx,), Err(rx)),
    }
}

/// Looks once at `rx`, and returns the listing that came out, or `rx` again where none came.
pub(crate) fn look_for_listing(rx: flume::Receiver<Listing>) -> (r: Result<
    Listing,
    flume::Receiver<Listing>,
>)
    ensures
        match r {
            Ok(listing) => came_back(rx, Some(listing)),
            Err(back) => back == rx && came_back(rx, None),
        },
{
    try_receive(rx)
}

/// A look hands on what the call returned, unchanged: what came back is what `try_recv` gave.
proof fn law_looks_hand_on_what_came(
    rx: flume::Receiver<Listing>,
    r: Result<Listing, flume::Receiver<Listing>>,
    listing: Listing,
)
    requires
        call_ensures(look_for_listing, (rx,), r),
    ensures
        call_ensures(try_receive, (rx,), r),
        r matches Err(back) ==> back == rx,
        came_back(rx, Some(listing)) ==> call_ensures(try_receive, (rx,), Ok(listing)),
        came_back(rx, None) ==> call_ensures(try_receive, (rx,), Err(rx)),
{
}

/// The ends of a new channel are those that one call returned together, with the capacity that was
/// asked for.
proof fn law_new_channels_are_whole(
    capacity: usize,
    ends: (flume::Sender<Listing>, flume::Receiver<Listing>),
    tx: flume::Sender<Listing>,
    rx: flume::Receiver<Listing>,
)
    requires
        call_ensures(new_channel, (capacity,), ends),
    ensures
        call_ensures(listing_channel, (capacity,), ends),
        ends_of_one(capacity, tx, rx) ==> call_ensures(listing_channel, (capacity,), (tx, rx)),
{
}

} // verus!
