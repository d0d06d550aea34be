//! The feeds of a profile page: the author's articles, or those they
//! favorited.

use vstd::prelude::*;
use crate::page::profile::FeedTab;
use crate::page_number::PageNumber;
use crate::request::{Method, Request, owned, sent_as, with_method};
use crate::viewer::Viewer;
use crate::text::{decimal, decimal_string};
use crate::username::Username;

verus! {

/// How many articles a page of a profile's feed holds.
pub const ARTICLES_PER_PAGE: usize = 5;

/// The parameter that selects the feed.
pub open spec fn feed_key(feed_tab: FeedTab) -> Seq<char> {
    match feed_tab {
        FeedTab::MyArticles => "author"@,
        FeedTab::FavoritedArticles => "favorited"@,
    }
}

/// The offset of the first article of a page.
pub open spec fn offset(page_number: PageNumber) -> int {
    (page_number.spec_value() - 1) * ARTICLES_PER_PAGE
}

/// The path of a page of a profile's feed.
pub open spec fn feed_url(username: Username, feed_tab: FeedTab, page_number: PageNumber) -> Seq<char> {
    "articles?"@ + feed_key(feed_tab) + "="@ + username@ + "&limit="@ + decimal(
        ARTICLES_PER_PAGE as nat,
    ) + "&offset="@ + decimal(offset(page_number) as nat)
}

/// The path of a page of a profile's feed:
/// `articles?<author|favorited>=<username>&limit=5&offset=<(page - 1) * 5>`.
pub fn request_url(username: &Username, feed_tab: FeedTab, page_number: PageNumber) -> (r: String)
    requires
        offset(page_number) <= usize::MAX,
    ensures
        r@ == feed_url(*username, feed_tab, page_number),
        r@ == "articles?"@ + feed_key(feed_tab) + "="@ + username@ + "&limit="@ + decimal(
            ARTICLES_PER_PAGE as nat,
        ) + "&offset="@ + decimal(offset(page_number) as nat),
{
    let page: usize = page_number.to_usize();
    let mut r = String::from_str("articles?");
    match feed_tab {
        FeedTab::MyArticles => r.append("author"),
        FeedTab::FavoritedArticles => r.append("favorited"),
    }
    r.append("=");
    r.append(username.as_str());
    r.append("&limit=");
    let limit = decimal_string(ARTICLES_PER_PAGE);
    r.append(limit.as_str());
    r.append("&offset=");
    let off = decimal_string((page - 1) * ARTICLES_PER_PAGE);
    r.append(off.as_str());
    r
}

/// Loads a page of a profile's feed: `GET` its path, with the viewer's
/// token.
pub fn load_for_profile(
    viewer: Option<&Viewer>,
    username: &Username,
    feed_tab: FeedTab,
    page_number: PageNumber,
) -> (r: Request<()>)
    requires
        offset(page_number) <= usize::MAX,
    ensures
        sent_as(r, feed_url(*username, feed_tab, page_number), Method::Get, owned(viewer)),
        r.body is None,
{
    let path = request_url(username, feed_tab, page_number);
    with_method(path.as_str(), Method::Get, viewer, None)
}

} // verus!
