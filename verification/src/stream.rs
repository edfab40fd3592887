//! The stream channel: what the socket hands over, message by message, and
//! what each message delivers to the session.

use vstd::prelude::*;
use crate::control::{SessionError, SessionErrorView};
use crate::frame::{FrameView, TranscriptFrame};
use crate::wire::{decode_frame, decoded, DecodeError};

verus! {

/// One thing that the socket hands over.
#[derive(Clone, Debug, PartialEq, Eq)]
pub enum StreamItem {
    /// A text message.
    Text(String),
    /// The service closed the socket.
    Close,
    /// The transport failed; the text says how.
    Failure(String),
    /// A message of a kind that carries no frame.
    Other,
}

/// The mathematical value of a [`StreamItem`].
pub enum StreamItemView {
    Text(Seq<char>),
    Close,
    Failure(Seq<char>),
    Other,
}

impl View for StreamItem {
    type V = StreamItemView;

    open spec fn view(&self) -> StreamItemView {
        match self {
            StreamItem::Text(text) => StreamItemView::Text(text@),
            StreamItem::Close => StreamItemView::Close,
            StreamItem::Failure(reason) => StreamItemView::Failure(reason@),
            StreamItem::Other => StreamItemView::Other,
        }
    }
}

/// What one item of the socket delivers to the session.
#[derive(Clone, Debug, PartialEq, Eq)]
pub enum Delivery {
    /// A frame.
    Frame(TranscriptFrame),
    /// A text that is no frame; the stream goes on.
    Malformed(DecodeError),
    /// The end of the stream, with its cause.
    Ended(SessionError),
    /// Nothing.
    Nothing,
}

/// The mathematical value of a [`Delivery`].
pub enum DeliveryView {
    Frame(FrameView),
    Malformed(DecodeError),
    Ended(SessionErrorView),
    Nothing,
}

impl View for Delivery {
    type V = DeliveryView;

    open spec fn view(&self) -> DeliveryView {
        match self {
            Delivery::Frame(frame) => DeliveryView::Frame(frame@),
            Delivery::Malformed(fault) => DeliveryView::Malformed(*fault),
            Delivery::Ended(cause) => DeliveryView::Ended(cause@),
            Delivery::Nothing => DeliveryView::Nothing,
        }
    }
}

/// What a text message delivers, given what its text decodes to.
pub open spec fn delivered_text(decoding: Result<FrameView, DecodeError>) -> DeliveryView {
    match decoding {
        Ok(frame) => DeliveryView::Frame(frame),
        Err(fault) => DeliveryView::Malformed(fault),
    }
}

/// What an item delivers: a text its frame or its fault, a close or a
/// failure the end of the stream, anything else nothing.
pub open spec fn delivered(item: StreamItemView) -> DeliveryView {
    match item {
        StreamItemView::Text(text) => delivered_text(decoded(text)),
        StreamItemView::Close => DeliveryView::Ended(SessionErrorView::StreamClosed),
        StreamItemView::Failure(reason) => DeliveryView::Ended(
            SessionErrorView::Transport(reason),
        ),
        StreamItemView::Other => DeliveryView::Nothing,
    }
}

/// What the stream yields for a run of items: the delivery of each in turn,
/// up to and with the first that ends the stream. Whatever the socket hands
/// over after that is not looked at.
pub open spec fn yielded(items: Seq<StreamItemView>) -> Seq<DeliveryView>
    decreases items.len(),
{
    if items.len() == 0 {
        Seq::empty()
    } else {
        let before = yielded(items.drop_last());
        if before.len() > 0 && before.last() is Ended {
            before
        } else {
            before.push(delivered(items.last()))
        }
    }
}

/// The values of a run of items.
pub open spec fn item_views(items: Seq<StreamItem>) -> Seq<StreamItemView> {
    items.map_values(|item: StreamItem| item@)
}

/// The values of a run of deliveries.
pub open spec fn delivery_views(deliveries: Seq<Delivery>) -> Seq<DeliveryView> {
    deliveries.map_values(|delivery: Delivery| delivery@)
}

/// What one item of the socket delivers.
pub fn deliver(item: &StreamItem) -> (delivery: Delivery)
    ensures
        delivery@ == delivered(item@),
{
    match item {
        StreamItem::Text(text) => match decode_frame(text.as_str()) {
            Ok(frame) => Delivery::Frame(frame),
            Err(fault) => Delivery::Malformed(fault),
        },
        StreamItem::Close => Delivery::Ended(SessionError::StreamClosed),
        StreamItem::Failure(reason) => Delivery::Ended(SessionError::Transport(reason.clone())),
        StreamItem::Other => Delivery::Nothing,
    }
}

/// What the stream yields for a run of items. A text that is no frame is
/// yielded as a fault and the stream goes on; a close or a failure is
/// yielded as the end, and nothing after it.
pub fn take_stream(items: &Vec<StreamItem>) -> (deliveries: Vec<Delivery>)
    ensures
        delivery_views(deliveries@) == yielded(item_views(items@)),
{
    let ghost views = item_views(items@);
    let mut deliveries: Vec<Delivery> = Vec::new();
    let mut ended: bool = false;
    let mut at: usize = 0;
    assert(views.take(0) =~= Seq::<StreamItemView>::empty());
    assert(delivery_views(deliveries@) =~= yielded(views.take(0)));
    while at < items.len() && !ended
        invariant
            at <= items.len(),
            views == item_views(items@),
            delivery_views(deliveries@) == yielded(views.take(at as int)),
            ended == (deliveries@.len() > 0 && deliveries@.last()@ is Ended),
            ended ==> yielded(views) == yielded(views.take(at as int)),
        decreases items.len() - at,
    {
        let delivery = deliver(&items[at]);
        let ghost before = deliveries@;
        proof {
            assert(views.take(at + 1).drop_last() =~= views.take(at as int));
            assert(views.take(at + 1).last() == items@[at as int]@);
            let shown = delivery_views(before);
            assert(shown.len() > 0 ==> shown.last() == before.last()@);
        }
        ended = match delivery {
            Delivery::Ended(_) => true,
            _ => false,
        };
        deliveries.push(delivery);
        at = at + 1;
        proof {
            assert(delivery_views(deliveries@) =~= delivery_views(before).push(delivery@));
            if ended {
                lemma_nothing_after_the_end(views, at as int);
            }
        }
    }
    assert(!ended ==> views.take(at as int) =~= views);
    deliveries
}

/// Once a run of items has ended the stream, items after it add nothing.
pub proof fn lemma_nothing_after_the_end(items: Seq<StreamItemView>, upto: int)
    requires
        0 <= upto <= items.len(),
        yielded(items.take(upto)).len() > 0,
        yielded(items.take(upto)).last() is Ended,
    ensures
        yielded(items) == yielded(items.take(upto)),
    decreases items.len() - upto,
{
    if upto == items.len() {
        assert(items.take(upto) =~= items);
    } else {
        assert(items.take(upto + 1).drop_last() =~= items.take(upto));
        lemma_nothing_after_the_end(items, upto + 1);
    }
}

/// A text that is no frame does not end the stream: the items after it are
/// still delivered.
pub proof fn lemma_fault_does_not_end(items: Seq<StreamItemView>, next: StreamItemView)
    requires
        items.len() > 0,
        items.last() is Text,
        decoded(items.last()->Text_0) is Err,
        yielded(items.drop_last()).len() > 0 ==> !(yielded(items.drop_last()).last() is Ended),
    ensures
        yielded(items).last() is Malformed,
        yielded(items.push(next)) == yielded(items).push(delivered(next)),
{
    assert(items.push(next).drop_last() =~= items);
}

} // verus!
