//! Building the photo-provider request URL and the photo record handed to
//! the display layer. The network call itself lives outside the library;
//! here stand the exact shapes of the texts it sends and shows.

use vstd::prelude::*;

use crate::text::{fmt_u64, spec_dec};
use crate::types::UnsplashPhoto;

verus! {

/// What percent-encoding a text yields.
pub uninterp spec fn url_encoded(s: Seq<char>) -> Seq<char>;

/// Relies on urlencoding::encode: it percent-encodes every byte of the
/// text's UTF-8 form except ASCII alphanumerics and `-`, `_`, `.`, `~`, and
/// its result is a function of the text alone.
#[verifier::external_body]
fn encode_component(s: &str) -> (r: String)
    ensures
        r@ == url_encoded(s@),
{
    urlencoding::encode(s).into_owned()
}

/// The random-photo request URL for a query and the wanted dimensions: the
/// fixed landscape endpoint with the query percent-encoded into it.
pub fn build_unsplash_url(width: u32, height: u32, query: &str) -> (r: String)
    ensures
        r@ == "https://api.unsplash.com/photos/random?orientation=landscape&query="@ + url_encoded(
            query@,
        ) + "&w="@ + spec_dec(width as int) + "&h="@ + spec_dec(height as int),
{
    let mut r = String::from_str(
        "https://api.unsplash.com/photos/random?orientation=landscape&query=",
    );
    let encoded = encode_component(query);
    r.append(encoded.as_str());
    r.append("&w=");
    let w = fmt_u64(width as u64);
    r.append(w.as_str());
    r.append("&h=");
    let h = fmt_u64(height as u64);
    r.append(h.as_str());
    proof {
        assert(r@ =~= "https://api.unsplash.com/photos/random?orientation=landscape&query="@
            + url_encoded(query@) + "&w="@ + spec_dec(width as int) + "&h="@ + spec_dec(
            height as int,
        ));
    }
    r
}

/// The display form of a photo URL: the provider's base URL with the wanted
/// crop appended.
pub open spec fn spec_photo_url(regular: Seq<char>, width: u32, height: u32) -> Seq<char> {
    regular + "?w="@ + spec_dec(width as int) + "&h="@ + spec_dec(height as int)
        + "&fit=crop&q=85"@
}

/// Append the crop parameters to a photo's base URL.
pub fn compose_photo_url(regular: &str, width: u32, height: u32) -> (r: String)
    ensures
        r@ == spec_photo_url(regular@, width, height),
{
    let mut r = String::from_str(regular);
    r.append("?w=");
    let w = fmt_u64(width as u64);
    r.append(w.as_str());
    r.append("&h=");
    let h = fmt_u64(height as u64);
    r.append(h.as_str());
    r.append("&fit=crop&q=85");
    proof {
        assert(r@ =~= spec_photo_url(regular@, width, height));
    }
    r
}

/// Assemble the photo record from the provider's response fields, cropping
/// the picture URL to the wanted dimensions and carrying the attribution
/// through unchanged.
pub fn make_unsplash_photo(
    regular: &str,
    author: String,
    author_url: String,
    download_location: String,
    width: u32,
    height: u32,
) -> (r: UnsplashPhoto)
    ensures
        r.url@ == spec_photo_url(regular@, width, height),
        r.author@ == author@,
        r.author_url@ == author_url@,
        r.download_location@ == download_location@,
{
    UnsplashPhoto {
        url: compose_photo_url(regular, width, height),
        author,
        author_url,
        download_location,
    }
}

} // verus!
