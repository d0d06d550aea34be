//! The feeds of the home page: the viewer's own, the global one, and that of
//! a tag.

use vstd::prelude::*;
use crate::page::home::FeedTab;
use crate::page_number::PageNumber;
use crate::request::{Method, Request, owned, sent_as, with_method};
use crate::viewer::Viewer;
use crate::text::{decimal, decimal_string, join, seq_join, views};

verus! {

/// How many articles a page of a home feed holds.
pub const ARTICLES_PER_PAGE: usize = 10;

/// The offset of the first article of a page.
pub open spec fn offset(page_number: PageNumber) -> int {
    (page_number.spec_value() - 1) * ARTICLES_PER_PAGE
}

/// What follows `articles` in the path of the feed, before the parameters.
pub open spec fn feed_path(feed_tab: FeedTab) -> Seq<char> {
    match feed_tab {
        FeedTab::YourFeed(_) => "/feed"@,
        _ => Seq::empty(),
    }
}

/// The parameters of the feed's path, in order.
pub open spec fn feed_parameters(feed_tab: FeedTab, page_number: PageNumber) -> Seq<Seq<char>> {
    let common = seq![
        "limit="@ + decimal(ARTICLES_PER_PAGE as nat),
        "offset="@ + decimal(offset(page_number) as nat),
    ];
    match feed_tab {
        FeedTab::TagFeed(tag) => common.push("tag="@ + tag@),
        _ => common,
    }
}

/// The path of a page of a home feed.
pub open spec fn feed_url(feed_tab: FeedTab, page_number: PageNumber) -> Seq<char> {
    "articles"@ + feed_path(feed_tab) + "?"@ + seq_join(feed_parameters(feed_tab, page_number), "&"@)
}

/// The path of a page of a home feed: `articles`, `/feed` for the viewer's
/// own feed, `?`, then `limit=10`, `offset=<(page - 1) * 10>` and, for a
/// tag's feed, `tag=<tag>`, joined by `&`.
pub fn request_url(feed_tab: &FeedTab, page_number: PageNumber) -> (r: String)
    requires
        offset(page_number) <= usize::MAX,
    ensures
        r@ == feed_url(*feed_tab, page_number),
        r@ == "articles"@ + feed_path(*feed_tab) + "?"@ + seq_join(
            feed_parameters(*feed_tab, page_number),
            "&"@,
        ),
        r@ == "articles"@ + feed_path(*feed_tab) + "?"@ + "limit="@ + decimal(
            ARTICLES_PER_PAGE as nat,
        ) + "&"@ + "offset="@ + decimal(offset(page_number) as nat) + match *feed_tab {
            FeedTab::TagFeed(tag) => "&"@ + "tag="@ + tag@,
            _ => Seq::empty(),
        },
{
    let page: usize = page_number.to_usize();
    let mut limit = String::from_str("limit=");
    let limit_value = decimal_string(ARTICLES_PER_PAGE);
    limit.append(limit_value.as_str());
    let mut off = String::from_str("offset=");
    let off_value = decimal_string((page - 1) * ARTICLES_PER_PAGE);
    off.append(off_value.as_str());
    let mut parameters: Vec<String> = Vec::new();
    parameters.push(limit);
    parameters.push(off);
    if let FeedTab::TagFeed(tag) = feed_tab {
        let mut t = String::from_str("tag=");
        t.append(tag.value.as_str());
        parameters.push(t);
    }
    let ghost ps = feed_parameters(*feed_tab, page_number);
    assert(views(parameters@) =~= ps);
    let joined = join(&parameters, "&");
    let mut r = String::from_str("articles");
    match feed_tab {
        FeedTab::YourFeed(_) => r.append("/feed"),
        _ => {},
    }
    r.append("?");
    r.append(joined.as_str());
    proof {
        let sep = "&"@;
        assert(ps.take(1).drop_last() =~= ps.take(0));
        assert(ps.take(2).drop_last() =~= ps.take(1));
        assert(seq_join(ps.take(1), sep) == ps[0]);
        assert(seq_join(ps.take(2), sep) == ps[0] + sep + ps[1]);
        assert(ps.take(2) =~= seq![ps[0], ps[1]]);
        assert(seq_join(seq![ps[0], ps[1]], sep) == ps[0] + sep + ps[1]) by {
            assert(seq![ps[0], ps[1]].drop_last() =~= seq![ps[0]]);
        }
        if ps.len() == 3 {
            assert(ps.drop_last() =~= seq![ps[0], ps[1]]);
            assert(seq_join(ps, sep) == ps[0] + sep + ps[1] + sep + ps[2]);
        } else {
            assert(ps =~= seq![ps[0], ps[1]]);
        }
    }
    r
}

/// Loads a page of a home feed: `GET` its path, with the viewer's token.
pub fn load_for_home(viewer: Option<&Viewer>, feed_tab: &FeedTab, page_number: PageNumber) -> (r:
    Request<()>)
    requires
        offset(page_number) <= usize::MAX,
    ensures
        sent_as(r, feed_url(*feed_tab, page_number), Method::Get, owned(viewer)),
        r.body is None,
{
    let path = request_url(feed_tab, page_number);
    with_method(path.as_str(), Method::Get, viewer, None)
}

} // verus!
