//! The URLs that were read last.

use crate::auth::{is_authorized, validate_api_key};
use crate::reply::{reject, reply, unauthorized, uncached, BodyView, Reply, ReplyBody};
use crate::text::{copy_texts, texts};
use vstd::prelude::*;

verus! {

/// How many URLs are kept.
pub const MAX_URLS: usize = 5;

/// The last URLs that were recorded, the oldest first.
pub struct UrlLog {
    urls: Vec<String>,
}

impl View for UrlLog {
    type V = Seq<Seq<char>>;

    closed spec fn view(&self) -> Seq<Seq<char>> {
        texts(self.urls@)
    }
}

/// The last `n` of a sequence, or all of it if it holds fewer.
pub open spec fn last_of<T>(s: Seq<T>, n: nat) -> Seq<T> {
    if n <= s.len() {
        s.skip(s.len() - n)
    } else {
        s
    }
}

impl UrlLog {
    /// No more URLs are kept than may be.
    pub open spec fn wf(&self) -> bool {
        self@.len() <= MAX_URLS
    }

    /// A log without URLs.
    pub fn new() -> (r: UrlLog)
        ensures
            r@ == Seq::<Seq<char>>::empty(),
            r.wf(),
    {
        let r = UrlLog { urls: Vec::new() };
        assert(r@ =~= Seq::empty());
        r
    }

    /// Records a URL behind the others, and drops the oldest of those that are too
    /// many.
    pub fn record(&mut self, url: String)
        ensures
            final(self)@ == last_of(old(self)@.push(url@), MAX_URLS as nat),
            final(self).wf(),
    {
        let ghost before = self@;
        self.urls.push(url);
        let ghost all = before.push(url@);
        assert(self@ =~= all.skip(0));
        while self.urls.len() > MAX_URLS
            invariant
                self@.len() == self.urls@.len() <= all.len(),
                self@ == all.skip(all.len() - self@.len()),
                self@.len() < MAX_URLS ==> self@.len() == all.len(),
            decreases self.urls.len(),
        {
            let ghost kept = self@;
            self.urls.remove(0);
            assert(self@ =~= kept.skip(1));
        }
        assert(self@ =~= last_of(all, MAX_URLS as nat));
    }

    /// The URLs, the oldest first.
    pub fn urls(&self) -> (r: Vec<String>)
        ensures
            texts(r@) == self@,
    {
        copy_texts(&self.urls)
    }
}

/// Answers a request to record a URL: it is the body of the request, as it stands.
pub fn log_url(
    log: &mut UrlLog,
    api_key: &str,
    authorization: &Option<String>,
    body: String,
) -> (r: Reply)
    ensures
        old(log).wf() ==> final(log).wf(),
        is_authorized(*authorization, api_key@) ==> r@ == uncached(200, BodyView::Empty)
            && final(log)@ == last_of(old(log)@.push(body@), MAX_URLS as nat),
        !is_authorized(*authorization, api_key@) ==> r@ == unauthorized() && final(log)@ == old(
            log,
        )@,
{
    if !validate_api_key(authorization, api_key) {
        return reject();
    }
    log.record(body);
    reply(200, ReplyBody::Empty)
}

/// Answers a request for the URLs that were recorded last.
pub fn get_urls(log: &UrlLog, api_key: &str, authorization: &Option<String>) -> (r: Reply)
    ensures
        r@ == (if is_authorized(*authorization, api_key@) {
            uncached(200, BodyView::Urls(log@))
        } else {
            unauthorized()
        }),
{
    if !validate_api_key(authorization, api_key) {
        return reject();
    }
    reply(200, ReplyBody::Urls(log.urls()))
}

/// The log after URLs were recorded one by one.
pub open spec fn recorded(log: Seq<Seq<char>>, urls: Seq<Seq<char>>) -> Seq<Seq<char>>
    decreases urls.len(),
{
    if urls.len() == 0 {
        log
    } else {
        last_of(recorded(log, urls.drop_last()).push(urls.last()), MAX_URLS as nat)
    }
}

/// However many URLs are recorded, the log holds the last five of them, in the
/// order in which they came.
pub proof fn the_last_five_are_kept(log: Seq<Seq<char>>, urls: Seq<Seq<char>>)
    requires
        log.len() <= 5,
    ensures
        recorded(log, urls) == last_of(log + urls, 5),
    decreases urls.len(),
{
    if urls.len() > 0 {
        let init = urls.drop_last();
        the_last_five_are_kept(log, init);
        assert((log + init).push(urls.last()) =~= log + urls);
        assert(last_of(last_of(log + init, 5).push(urls.last()), 5) =~= last_of(log + urls, 5));
    } else {
        assert(log + urls =~= log);
        assert(last_of(log, 5) =~= log);
    }
}

/// The last of a sequence are its members up to the end, as many as are wanted or as
/// there are.
pub proof fn the_last_come_from_the_end<T>(s: Seq<T>, n: nat)
    ensures
        last_of(s, n).len() <= n,
        last_of(s, n).len() == n || last_of(s, n).len() == s.len(),
        forall|i: int|
            0 <= i < last_of(s, n).len() ==> #[trigger] last_of(s, n)[i] == s[s.len() - last_of(
                s,
                n,
            ).len() + i],
{
}

/// The URL that was recorded last is the last one in the log, and with no more than five
/// all that were recorded are there, in their order.
pub proof fn recorded_urls_are_kept(urls: Seq<Seq<char>>, url: Seq<char>)
    ensures
        recorded(Seq::empty(), urls.push(url)).len() > 0,
        recorded(Seq::empty(), urls.push(url)).last() == url,
        urls.len() <= 5 ==> recorded(Seq::empty(), urls) == urls,
        urls.len() >= 5 ==> recorded(Seq::empty(), urls).len() == 5,
{
    the_last_five_are_kept(Seq::empty(), urls);
    the_last_five_are_kept(Seq::empty(), urls.push(url));
    assert(Seq::<Seq<char>>::empty() + urls =~= urls);
    assert(Seq::<Seq<char>>::empty() + urls.push(url) =~= urls.push(url));
    the_last_come_from_the_end(urls, 5);
    the_last_come_from_the_end(urls.push(url), 5);
    assert(urls.len() <= 5 ==> last_of(urls, 5) =~= urls);
}

} // verus!
