//! Lists that come in pages: following a list's cursor until its last page.
use vstd::prelude::*;
use vstd::string::*;

use crate::client::{RestBroker, V1};
use crate::error::EventBrokerError;
use crate::exchange::{bare_request, send_json, Method, OutgoingRequest, SecurityContext, Sent};
use crate::wire::{EventTypeWire, PageWire, SubscriptionWire, TopicWire};

verus! {

/// A list that is being fetched: where it is, what came so far, and the cursor of the page to
/// ask for next.
pub struct Listing<T> {
    pub path: String,
    pub items: Vec<T>,
    pub cursor: Option<String>,
}

/// What became of a list after a page of it was asked for.
pub enum ListStep<T> {
    /// There is another page to ask for.
    More(Listing<T>),
    /// That was all.
    Done(Vec<T>),
    /// The list cannot be had.
    Failed(EventBrokerError),
}

/// The path of the page that a listing asks for next. A cursor goes in as the broker gave it.
pub open spec fn page_path(path: Seq<char>, cursor: Option<Seq<char>>) -> Seq<char> {
    match cursor {
        Some(cursor) => path + "?cursor="@ + cursor,
        None => path,
    }
}

/// `step` is what becomes of `listing` once `sent` came back.
pub open spec fn list_stepped<T>(
    listing: Listing<T>,
    sent: Sent<PageWire<T>>,
    step: ListStep<T>,
) -> bool {
    match crate::exchange::payload_of(sent) {
        Some(page) => match page.page_info.next_cursor {
            Some(_) => step is More && followed_by(listing, page, step->More_0),
            None => step is Done && step->Done_0@ == listing.items@ + page.items@,
        },
        None => step is Failed && crate::exchange::payload_missing(sent, step->Failed_0),
    }
}

/// `next` is `listing` with one page more, about to ask for the page after it.
pub open spec fn followed_by<T>(listing: Listing<T>, page: PageWire<T>, next: Listing<T>) -> bool {
    &&& next.path == listing.path
    &&& next.items@ == listing.items@ + page.items@
    &&& next.cursor == page.page_info.next_cursor
}

/// Starts to list what is at `path`.
pub fn list_all<T>(path: String) -> (r: Listing<T>)
    ensures
        r.path == path,
        r.items@.len() == 0,
        r.cursor is None,
{
    Listing { path, items: Vec::new(), cursor: None }
}

/// `listing` is about to ask for the first page of what is at `path`.
pub open spec fn listing_begins<T>(listing: Listing<T>, path: Seq<char>) -> bool {
    &&& listing.path@ == path
    &&& listing.items@.len() == 0
    &&& listing.cursor is None
}

impl<H> RestBroker<H> {
    /// Starts to list the caller's subscriptions.
    pub fn list_subscriptions(&self) -> (r: Listing<SubscriptionWire>)
        ensures
            listing_begins(r, V1@ + "/subscriptions"@),
    {
        list_all(V1.to_owned().concat("/subscriptions"))
    }

    /// Starts to list the topics.
    pub fn list_topics(&self) -> (r: Listing<TopicWire>)
        ensures
            listing_begins(r, V1@ + "/topics"@),
    {
        list_all(V1.to_owned().concat("/topics"))
    }

    /// Starts to list the event types. There is no route to a single one: it is selected from
    /// this list.
    pub fn list_event_types(&self) -> (r: Listing<EventTypeWire>)
        ensures
            listing_begins(r, V1@ + "/event-types"@),
    {
        list_all(V1.to_owned().concat("/event-types"))
    }

    /// The request for a listing's next page.
    pub fn list_page<'a, S, T>(&self, ctx: &'a SecurityContext<S>, listing: &Listing<T>) -> (r:
        OutgoingRequest<'a, S, ()>)
        ensures
            crate::endpoints::plain_request(
                r,
                Method::Get,
                crate::client::address(
                    self.base(),
                    page_path(listing.path@, crate::query::optional_text(listing.cursor)),
                ),
                *ctx,
                (),
            ),
    {
        let url = match &listing.cursor {
            Some(cursor) => {
                let path = listing.path.clone().concat("?cursor=").concat(cursor.as_str());
                self.url(path.as_str())
            },
            None => self.url(listing.path.as_str()),
        };
        self.authed(bare_request(Method::Get, url, ()), ctx)
    }
}

/// Takes a page into a listing: another page follows where it names a cursor, and the list is
/// done where it names none.
pub fn list_step<T>(listing: Listing<T>, sent: Sent<PageWire<T>>) -> (r: ListStep<T>)
    requires
        crate::exchange::sent_wf(sent),
    ensures
        list_stepped(listing, sent, r),
        r matches ListStep::More(next) ==> {
            &&& next.path == listing.path
            &&& next.items@ == listing.items@ + sent->Ok_0.body->Payload_0->Ok_0.items@
            &&& next.cursor == sent->Ok_0.body->Payload_0->Ok_0.page_info.next_cursor
        },
        r matches ListStep::Done(items) ==> items@ == listing.items@
            + sent->Ok_0.body->Payload_0->Ok_0.items@,
{
    match send_json(sent) {
        Err(e) => ListStep::Failed(e),
        Ok(page) => {
            let mut items = listing.items;
            let mut more = page.items;
            items.append(&mut more);
            match page.page_info.next_cursor {
                Some(next) => {
                    ListStep::More(Listing { path: listing.path, items, cursor: Some(next) })
                },
                None => ListStep::Done(items),
            }
        },
    }
}

/// The items of several pages, in order.
pub open spec fn items_of<T>(pages: Seq<PageWire<T>>) -> Seq<T>
    decreases pages.len(),
{
    if pages.len() == 0 {
        Seq::empty()
    } else {
        items_of(pages.drop_last()) + pages.last().items@
    }
}

/// `listings` is how a listing went over `pages`: it began empty, and each page led to the
/// next listing.
pub open spec fn list_trace<T>(
    path: String,
    pages: Seq<PageWire<T>>,
    listings: Seq<Listing<T>>,
) -> bool {
    &&& listings.len() == pages.len() + 1
    &&& listings[0].path == path
    &&& listings[0].items@.len() == 0
    &&& listings[0].cursor is None
    &&& forall|i: int|
        0 <= i < pages.len() ==> followed_by(listings[i], #[trigger] pages[i], listings[i + 1])
}

/// A listing holds every item of every page that came, in order and each once; it stays at its
/// path, and the page it asks for next is the one that the last page named.
pub proof fn law_listing_gathers_every_page<T>(
    path: String,
    pages: Seq<PageWire<T>>,
    listings: Seq<Listing<T>>,
)
    requires
        list_trace(path, pages, listings),
    ensures
        listings.last().path == path,
        listings.last().items@ == items_of(pages),
        pages.len() > 0 ==> listings.last().cursor == pages.last().page_info.next_cursor,
    decreases pages.len(),
{
    if pages.len() == 0 {
        assert(listings.last().items@ =~= Seq::<T>::empty());
    } else {
        let before = pages.drop_last();
        assert forall|i: int| 0 <= i < before.len() implies followed_by(
            listings.drop_last()[i],
            #[trigger] before[i],
            listings.drop_last()[i + 1],
        ) by {
            assert(before[i] == pages[i]);
        }
        law_listing_gathers_every_page(path, before, listings.drop_last());
        let k = pages.len() - 1;
        assert(followed_by(listings[k], pages[k], listings[k + 1]));
    }
}

/// A list that ends gives exactly the items of all its pages, in order.
pub proof fn law_finished_list_is_all_pages<T>(
    path: String,
    pages: Seq<PageWire<T>>,
    listings: Seq<Listing<T>>,
    last: PageWire<T>,
    sent: Sent<PageWire<T>>,
    items: Vec<T>,
)
    requires
        list_trace(path, pages, listings),
        crate::exchange::payload_of(sent) == Some(last),
        list_stepped(listings.last(), sent, ListStep::Done(items)),
    ensures
        items@ == items_of(pages.push(last)),
        last.page_info.next_cursor is None,
{
    law_listing_gathers_every_page(path, pages, listings);
    assert(pages.push(last).drop_last() =~= pages);
}

/// Whatever a page's cursors are, its items follow those that the list had before: nothing is
/// lost, nothing is added, and the list goes on exactly where the page names a page after it.
pub proof fn law_every_page_is_added<T>(
    listing: Listing<T>,
    page: PageWire<T>,
    status: u16,
    status_text: String,
    step: ListStep<T>,
)
    requires
        list_stepped(
            listing,
            Ok(
                crate::exchange::Reply {
                    status,
                    status_text,
                    body: crate::exchange::ReplyBody::Payload(Ok(page)),
                },
            ),
            step,
        ),
    ensures
        step is More <==> page.page_info.next_cursor is Some,
        step is Done <==> page.page_info.next_cursor is None,
        step matches ListStep::More(next) ==> {
            &&& next.path == listing.path
            &&& next.cursor == page.page_info.next_cursor
            &&& next.items@.len() == listing.items@.len() + page.items@.len()
            &&& forall|i: int|
                0 <= i < listing.items@.len() ==> #[trigger] next.items@[i] == listing.items@[i]
            &&& forall|i: int|
                0 <= i < page.items@.len() ==> next.items@[listing.items@.len() + i]
                    == #[trigger] page.items@[i]
        },
        step matches ListStep::Done(items) ==> {
            &&& items@.len() == listing.items@.len() + page.items@.len()
            &&& forall|i: int|
                0 <= i < listing.items@.len() ==> #[trigger] items@[i] == listing.items@[i]
            &&& forall|i: int|
                0 <= i < page.items@.len() ==> items@[listing.items@.len() + i]
                    == #[trigger] page.items@[i]
        },
{
}

/// A page that did not come ends the list, and says why.
pub proof fn law_missing_pages_fail_the_list<T>(
    listing: Listing<T>,
    sent: Sent<PageWire<T>>,
    step: ListStep<T>,
)
    requires
        list_stepped(listing, sent, step),
    ensures
        step is Failed <==> !(sent is Ok && sent->Ok_0.body is Payload
            && sent->Ok_0.body->Payload_0 is Ok),
        sent is Err ==> step->Failed_0 is Transport && step->Failed_0->Transport_0 == sent->Err_0,
        sent is Ok && sent->Ok_0.body is Payload && step is Failed ==> step->Failed_0 is Transport
            && step->Failed_0->Transport_0 == sent->Ok_0.body->Payload_0->Err_0,
{
}

/// `listings` is how a list went while `replies` came: each listing is what the step made of the
/// one before it and the reply.
pub open spec fn list_ran<T>(listings: Seq<Listing<T>>, replies: Seq<Sent<PageWire<T>>>) -> bool {
    &&& listings.len() == replies.len() + 1
    &&& forall|i: int|
        0 <= i < replies.len() ==> list_stepped(
            listings[i],
            #[trigger] replies[i],
            ListStep::More(listings[i + 1]),
        )
}

/// The items that each reply brought.
pub open spec fn brought<T>(replies: Seq<Sent<PageWire<T>>>) -> Seq<Seq<T>> {
    replies.map_values(|sent: Sent<PageWire<T>>| sent->Ok_0.body->Payload_0->Ok_0.items@)
}

/// A list that began empty and ran to its end gives the items of all its pages, in order and each
/// once, and stayed at its path all the time.
pub proof fn law_list_gives_every_item_of_every_page<T>(
    listings: Seq<Listing<T>>,
    replies: Seq<Sent<PageWire<T>>>,
    last: Sent<PageWire<T>>,
    items: Vec<T>,
)
    requires
        list_ran(listings, replies),
        listings[0].items@.len() == 0,
        list_stepped(listings.last(), last, ListStep::Done(items)),
    ensures
        items@ == brought(replies.push(last)).flatten(),
        listings.last().path == listings[0].path,
        forall|i: int|
            0 <= i < replies.len() ==> (#[trigger] listings[i + 1]).cursor
                == replies[i]->Ok_0.body->Payload_0->Ok_0.page_info.next_cursor,
{
    lemma_listing_holds_what_came(listings, replies);
    let all = brought(replies);
    let page = last->Ok_0.body->Payload_0->Ok_0.items@;
    assert(brought(replies.push(last)) =~= all.push(page));
    all.lemma_flatten_push(page);
    assert(items@ =~= all.flatten() + page);
    assert forall|i: int| 0 <= i < replies.len() implies (#[trigger] listings[i + 1]).cursor
        == replies[i]->Ok_0.body->Payload_0->Ok_0.page_info.next_cursor by {
        assert(list_stepped(listings[i], replies[i], ListStep::More(listings[i + 1])));
    }
}

/// A listing that began empty holds what came.
proof fn lemma_listing_holds_what_came<T>(
    listings: Seq<Listing<T>>,
    replies: Seq<Sent<PageWire<T>>>,
)
    requires
        list_ran(listings, replies),
        listings[0].items@.len() == 0,
    ensures
        listings.last().items@ == brought(replies).flatten(),
        listings.last().path == listings[0].path,
    decreases replies.len(),
{
    if replies.len() == 0 {
        assert(brought(replies) =~= Seq::<Seq<T>>::empty());
        assert(listings.last().items@ =~= brought(replies).flatten());
    } else {
        let k = replies.len() - 1;
        let earlier = replies.drop_last();
        let before = listings.drop_last();
        assert forall|i: int| 0 <= i < earlier.len() implies list_stepped(
            before[i],
            #[trigger] earlier[i],
            ListStep::More(before[i + 1]),
        ) by {
            assert(earlier[i] == replies[i]);
        }
        lemma_listing_holds_what_came(before, earlier);
        assert(list_stepped(listings[k], replies[k], ListStep::More(listings[k + 1])));
        let page = replies[k]->Ok_0.body->Payload_0->Ok_0.items@;
        assert(brought(replies) =~= brought(earlier).push(page));
        brought(earlier).lemma_flatten_push(page);
    }
}

/// The first page is asked for at the path of the list, and every other with the cursor that was
/// named, as it was named.
pub proof fn law_pages_are_asked_for_by_their_cursor(path: Seq<char>, cursor: Seq<char>)
    ensures
        page_path(path, None) == path,
        page_path(path, Some(cursor)) == path + "?cursor="@ + cursor,
{
}

/// A list begins at its path, with nothing in it and no cursor.
pub proof fn law_lists_begin_empty<T>(listing: Listing<T>, path: Seq<char>)
    requires
        listing_begins(listing, path),
    ensures
        listing.path@ == path,
        listing.items@.len() == 0,
        listing.cursor is None,
{
}

/// Every list begins at the path of its own resource, and its pages are asked for there.
pub proof fn law_lists_are_asked_for_at_their_paths<H, S>(
    broker: RestBroker<H>,
    ctx: SecurityContext<S>,
    subscriptions: Listing<SubscriptionWire>,
    topics: Listing<TopicWire>,
    event_types: Listing<EventTypeWire>,
    page: OutgoingRequest<S, ()>,
)
    requires
        call_ensures(RestBroker::<H>::list_subscriptions, (&broker,), subscriptions),
        call_ensures(RestBroker::<H>::list_topics, (&broker,), topics),
        call_ensures(RestBroker::<H>::list_event_types, (&broker,), event_types),
        call_ensures(
            RestBroker::<H>::list_page::<S, SubscriptionWire>,
            (&broker, &ctx, &subscriptions),
            page,
        ),
    ensures
        subscriptions.path@ == "/event-broker/v1"@ + "/subscriptions"@,
        topics.path@ == "/event-broker/v1"@ + "/topics"@,
        event_types.path@ == "/event-broker/v1"@ + "/event-types"@,
        subscriptions.items@.len() == 0 && topics.items@.len() == 0 && event_types.items@.len()
            == 0,
        page.method is Get,
        page.url@ == crate::client::address(
            broker.base(),
            "/event-broker/v1"@ + "/subscriptions"@,
        ),
        page.bearer == ctx.bearer(),
{
}

/// A page is asked for at the path of its list, with the cursor that the list has.
pub proof fn law_next_page_is_asked_for_with_the_cursor<H, S, T>(
    broker: RestBroker<H>,
    ctx: SecurityContext<S>,
    listing: Listing<T>,
    page: OutgoingRequest<S, ()>,
)
    requires
        call_ensures(RestBroker::<H>::list_page::<S, T>, (&broker, &ctx, &listing), page),
    ensures
        page.method is Get,
        listing.cursor is None ==> page.url@ == crate::client::address(
            broker.base(),
            listing.path@,
        ),
        listing.cursor is Some ==> page.url@ == crate::client::address(
            broker.base(),
            listing.path@ + "?cursor="@ + listing.cursor->0@,
        ),
        page.bearer == ctx.bearer(),
        page.headers@.len() == 0,
{
}

} // verus!
