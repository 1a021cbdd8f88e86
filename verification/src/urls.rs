//! The URLs that an application is asked to open. Those that come before it listens wait.

use vstd::prelude::*;

verus! {

/// URLs on their way to the application's callback.
#[derive(Debug)]
pub struct UrlQueue {
    /// Whether the callback is registered and not running.
    pub listening: bool,
    pub queued: Vec<String>,
}

#[verifier::ext_equal]
pub struct UrlQueueView {
    pub listening: bool,
    pub queued: Seq<String>,
}

impl View for UrlQueue {
    type V = UrlQueueView;

    open spec fn view(&self) -> UrlQueueView {
        UrlQueueView { listening: self.listening, queued: self.queued@ }
    }
}

impl UrlQueueView {
    /// What the callback gets at once when URLs arrive.
    pub open spec fn handed(self, urls: Seq<String>) -> Seq<String> {
        if self.listening {
            urls
        } else {
            seq![]
        }
    }

    pub open spec fn delivered(self, urls: Seq<String>) -> UrlQueueView {
        UrlQueueView {
            listening: false,
            queued: if self.listening {
                self.queued
            } else {
                self.queued + urls
            },
        }
    }

    pub open spec fn listened(self) -> UrlQueueView {
        UrlQueueView { listening: self.queued.len() == 0, queued: seq![] }
    }

    /// Several deliveries, one after the other.
    pub open spec fn delivered_all(self, batches: Seq<Seq<String>>) -> UrlQueueView
        decreases batches.len(),
    {
        if batches.len() == 0 {
            self
        } else {
            self.delivered_all(batches.drop_last()).delivered(batches.last())
        }
    }
}

impl UrlQueue {
    pub fn new() -> (queue: UrlQueue)
        ensures
            queue@ == (UrlQueueView { listening: false, queued: seq![] }),
    {
        UrlQueue { listening: false, queued: Vec::new() }
    }

    /// URLs arrive: they go to the callback at once where it listens, and wait otherwise.
    /// While the callback runs it does not listen.
    pub fn deliver(&mut self, urls: Vec<String>) -> (now: Option<Vec<String>>)
        ensures
            final(self)@ == old(self)@.delivered(urls@),
            match now {
                Some(now) => old(self)@.listening && now@ == old(self)@.handed(urls@),
                None => !old(self)@.listening,
            },
    {
        if self.listening {
            self.listening = false;
            return Some(urls);
        }
        let mut urls = urls;
        self.queued.append(&mut urls);
        None
    }

    /// The callback has returned.
    pub fn returned(&mut self)
        ensures
            final(self)@ == (UrlQueueView { listening: true, ..old(self)@ }),
    {
        self.listening = true;
    }

    /// The application registers its callback, which gets what has waited, if anything.
    pub fn listen(&mut self) -> (now: Option<Vec<String>>)
        ensures
            final(self)@ == old(self)@.listened(),
            match now {
                Some(now) => now@ == old(self)@.queued && now@.len() > 0,
                None => old(self)@.queued.len() == 0,
            },
    {
        let mut waiting: Vec<String> = Vec::new();
        waiting.append(&mut self.queued);
        if waiting.len() == 0 {
            self.listening = true;
            return None;
        }
        self.listening = false;
        Some(waiting)
    }
}

/// URLs that arrive before the application listens all wait, in the order in which they
/// came, and none of them is lost: its callback gets them when it is registered.
pub proof fn law_early_urls_wait_in_order(batches: Seq<Seq<String>>)
    ensures
        (UrlQueueView { listening: false, queued: seq![] }).delivered_all(batches)
            == (UrlQueueView { listening: false, queued: batches.flatten() }),
    decreases batches.len(),
{
    let empty = UrlQueueView { listening: false, queued: seq![] };
    if batches.len() > 0 {
        law_early_urls_wait_in_order(batches.drop_last());
        batches.lemma_flatten_and_flatten_alt_are_equivalent();
        batches.drop_last().lemma_flatten_and_flatten_alt_are_equivalent();
        assert(empty.delivered_all(batches).queued =~= batches.flatten());
    } else {
        assert(batches.flatten() =~= seq![]);
    }
}

/// Whatever arrives is handed to the callback or waits: no URL is lost or doubled.
pub proof fn law_no_url_is_lost(queue: UrlQueueView, urls: Seq<String>)
    ensures
        queue.handed(urls).to_multiset().add(queue.delivered(urls).queued.to_multiset())
            =~= queue.queued.to_multiset().add(urls.to_multiset()),
{
    broadcast use vstd::seq_lib::group_to_multiset_ensures;

    vstd::seq_lib::lemma_multiset_commutative(queue.queued, urls);
    assert(Seq::<String>::empty().to_multiset() =~= vstd::multiset::Multiset::empty());
}

/// A callback that listens is handed URLs at once, and is then running: it listens no
/// more until it returns. Otherwise they wait behind those that wait already.
pub proof fn law_delivery(state: UrlQueueView, urls: Seq<String>)
    ensures
        state.listening ==> state.handed(urls) == urls && state.delivered(urls) == (UrlQueueView {
            listening: false,
            queued: state.queued,
        }),
        !state.listening ==> state.handed(urls).len() == 0 && state.delivered(urls) == (
        UrlQueueView { listening: false, queued: state.queued + urls }),
{
}

/// A callback that is registered takes all that waits, and listens at once where nothing
/// does.
pub proof fn law_registration(state: UrlQueueView)
    ensures
        state.listened().queued.len() == 0,
        state.queued.len() == 0 ==> state.listened().listening,
        state.queued.len() > 0 ==> !state.listened().listening,
{
}

} // verus!
