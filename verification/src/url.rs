//! The two addresses the agent talks to: the fixed metadata endpoint and the
//! image address derived from its answer.

use vstd::prelude::*;
use vstd::string::*;
use crate::decimal::{decimal_digits, push_decimal};
use crate::resolution::Resolution;

verus! {

/// The address that describes the image of the day: one image, today's, for
/// the `zh-CN` market, as JSON.
pub open spec fn metadata_endpoint_text() -> Seq<char> {
    "https://www.bing.com/HPImageArchive.aspx?format=js&idx=0&n=1&mkt=zh-CN"@
}

/// The address of the image named by `urlbase`, in its highest quality and
/// rendered for a display of the given size: the site, the path fragment as
/// it came, the quality suffix, then width and height in decimal.
pub open spec fn image_url_text(urlbase: Seq<char>, resolution: Resolution) -> Seq<char> {
    "https://www.bing.com"@ + urlbase + "_UHD.jpg&rf=LaDigue_"@ + decimal_digits(
        resolution.width as nat,
    ) + "x"@ + decimal_digits(resolution.height as nat) + ".jpg&pid=hp"@
}

/// Whether `url` accepts `address` as an absolute URL.
pub uninterp spec fn url_accepts(address: Seq<char>) -> bool;

/// Calls `reqwest::Url::parse`, which is `url::Url::parse`, and keeps whether
/// it succeeded. Claimed: that depends on the text alone; that is what
/// `url_accepts` names. The call is documented to return an error for what
/// it cannot parse.
#[verifier::external_body]
fn url_check(address: &str) -> (accepted: bool)
    ensures
        accepted == url_accepts(address@),
{
    reqwest::Url::parse(address).is_ok()
}

/// Tells whether `address` can be asked for: whether it is an absolute URL.
pub fn is_absolute_url(address: &str) -> (accepted: bool)
    ensures
        accepted == url_accepts(address@),
{
    url_check(address)
}

/// The metadata endpoint.
pub fn metadata_endpoint() -> (url: String)
    ensures
        url@ == metadata_endpoint_text(),
{
    String::from_str("https://www.bing.com/HPImageArchive.aspx?format=js&idx=0&n=1&mkt=zh-CN")
}

/// Builds the image address for a path fragment and a display size.
pub fn image_url(urlbase: &str, resolution: Resolution) -> (url: String)
    ensures
        url@ == image_url_text(urlbase@, resolution),
{
    let mut url = String::from_str("https://www.bing.com");
    url.append(urlbase);
    url.append("_UHD.jpg&rf=LaDigue_");
    push_decimal(&mut url, resolution.width);
    url.append("x");
    push_decimal(&mut url, resolution.height);
    url.append(".jpg&pid=hp");
    url
}

} // verus!
