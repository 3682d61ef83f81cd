//! The URL generator and its configuration.

use vstd::prelude::*;
use vstd::string::*;
use crate::canonical::{email_hash, md5_digest, to_lowercase, trim};
use crate::percent::{lemma_round_trip, percent_decoded, percent_encoded, url_encode};
use crate::text::{decimal, hex_digits, lemma_lower_hex_shape, to_decimal, to_lower_hex};
use vstd::utf8::*;

verus! {

/// A generator for Gravatar image URLs.
#[derive(Debug)]
#[non_exhaustive]
pub struct Generator {
    /// The host of image URLs, `www.gravatar.com` by default.
    pub base_url: String,
    /// Which default image to ask for when the address has no avatar, none
    /// by default.
    pub default_image: Option<String>,
    /// Whether to always ask for the default image, `false` by default.
    pub force_default: bool,
    /// The size of images in pixels, none by default.
    pub image_size: Option<i32>,
    /// Whether to put `.jpg` after the identifier, `false` by default.
    pub include_file_extension: bool,
    /// The highest rating of images to allow, none by default.
    pub rating: Option<String>,
}

/// The query fragment `key=value` with the value percent-encoded as UTF-8.
pub open spec fn fragment(key: Seq<char>, value: Seq<char>) -> Seq<char> {
    key + "="@ + percent_encoded(encode_utf8(value))
}

/// The query fragments of a configuration, in their fixed order: the default
/// image, forcing the default, the size, the rating; each only when set.
pub open spec fn fragments(g: Generator) -> Seq<Seq<char>> {
    (match g.default_image {
        Some(d) => seq![fragment("d"@, d@)],
        None => Seq::empty(),
    }) + (if g.force_default {
        seq!["f=y"@]
    } else {
        Seq::empty()
    }) + (match g.image_size {
        Some(s) => seq![fragment("s"@, decimal(s as int))],
        None => Seq::empty(),
    }) + (match g.rating {
        Some(r) => seq![fragment("r"@, r@)],
        None => Seq::empty(),
    })
}

/// Fragments joined with `&` between each two.
pub open spec fn joined(parts: Seq<Seq<char>>) -> Seq<char>
    decreases parts.len(),
{
    if parts.len() == 0 {
        Seq::empty()
    } else if parts.len() == 1 {
        parts[0]
    } else {
        joined(parts.drop_last()) + "&"@ + parts.last()
    }
}

/// The query string of a configuration: empty when no fragment applies, else
/// `?` and the fragments joined with `&`.
pub open spec fn query_of(g: Generator) -> Seq<char> {
    if fragments(g).len() == 0 {
        Seq::empty()
    } else {
        "?"@ + joined(fragments(g))
    }
}

/// The file extension part of a URL: `.jpg` when asked for, else empty.
pub open spec fn extension_of(g: Generator) -> Seq<char> {
    if g.include_file_extension {
        ".jpg"@
    } else {
        Seq::empty()
    }
}

/// The URL for an email address under a configuration.
pub open spec fn url_of(g: Generator, email: Seq<char>) -> Seq<char> {
    "https://"@ + g.base_url@ + "/avatar/"@ + email_hash(email) + extension_of(g) + query_of(g)
}

/// A configuration with none of the query options set has an empty query
/// string, so every call of `query_parameters` on it returns the empty text.
pub proof fn lemma_no_options_empty_query(g: Generator)
    requires
        g.default_image is None,
        !g.force_default,
        g.image_size is None,
        g.rating is None,
    ensures
        query_of(g) == Seq::<char>::empty(),
{
    assert(fragments(g) =~= Seq::<Seq<char>>::empty());
}

/// A default image comes first in the query, as `d=` and its value
/// percent-encoded; decoding what follows `d=` gives the value back.
pub proof fn lemma_default_image_round_trip(g: Generator)
    requires
        g.default_image is Some,
    ensures
        fragments(g).len() >= 1,
        fragments(g)[0] == "d="@ + percent_encoded(encode_utf8(g.default_image->0@)),
        query_of(g).subrange(0, 1) == "?"@,
        query_of(g).subrange(1, fragments(g)[0].len() + 1 as int) == fragments(g)[0],
        decode_utf8(percent_decoded(fragments(g)[0].subrange(2, fragments(g)[0].len() as int)))
            == g.default_image->0@,
{
    let d = g.default_image->0@;
    let frags = fragments(g);
    let first = frags[0];
    reveal_strlit("d=");
    reveal_strlit("d");
    reveal_strlit("=");
    reveal_strlit("?");
    assert(first =~= "d="@ + percent_encoded(encode_utf8(d)));
    assert(first.subrange(2, first.len() as int) =~= percent_encoded(encode_utf8(d)));
    lemma_round_trip(d);
    lemma_joined_starts_with_first(frags);
    assert(query_of(g).subrange(1, first.len() + 1 as int) =~= joined(frags).subrange(0, first.len() as int));
}

/// The first part begins the joined text.
proof fn lemma_joined_starts_with_first(parts: Seq<Seq<char>>)
    requires
        parts.len() >= 1,
    ensures
        joined(parts).len() >= parts[0].len(),
        joined(parts).subrange(0, parts[0].len() as int) == parts[0],
    decreases parts.len(),
{
    if parts.len() > 1 {
        lemma_joined_starts_with_first(parts.drop_last());
        let prefix = joined(parts.drop_last());
        assert(joined(parts).subrange(0, parts[0].len() as int) =~= prefix.subrange(
            0,
            parts[0].len() as int,
        ));
    } else {
        assert(joined(parts).subrange(0, parts[0].len() as int) =~= parts[0]);
    }
}

/// Appends one fragment to the fragments joined so far.
fn push_fragment(
    joined_so_far: &mut String,
    Ghost(parts): Ghost<Seq<Seq<char>>>,
    first: bool,
    part: &str,
)
    requires
        old(joined_so_far)@ == joined(parts),
        first == (parts.len() == 0),
    ensures
        final(joined_so_far)@ == joined(parts.push(part@)),
{
    let ghost next = parts.push(part@);
    assert(next.drop_last() =~= parts);
    if !first {
        joined_so_far.append("&");
    }
    joined_so_far.append(part);
    assert(final(joined_so_far)@ =~= joined(next));
}

impl Default for Generator {
    fn default() -> (r: Self)
        ensures
            r.base_url@ == "www.gravatar.com"@,
            r.default_image is None,
            !r.force_default,
            r.image_size is None,
            !r.include_file_extension,
            r.rating is None,
    {
        Generator {
            base_url: "www.gravatar.com".to_string(),
            default_image: None,
            force_default: false,
            image_size: None,
            include_file_extension: false,
            rating: None,
        }
    }
}

/// The fragment `key=value` with the value percent-encoded.
fn make_fragment(key: &str, value: &str) -> (r: String)
    ensures
        r@ == fragment(key@, value@),
{
    let mut r = key.to_string();
    r.append("=");
    let encoded = url_encode(value);
    r.append(encoded.as_str());
    r
}

impl Generator {
    /// The identifier of an email address: the address with surrounding
    /// whitespace removed and letters lowercased, hashed with MD5, as 32
    /// lowercase hexadecimal digits.
    pub fn hash_email(email: &str) -> (r: String)
        ensures
            r@ == email_hash(email@),
            r@.len() == 32,
            forall|i: int| 0 <= i < 32 ==> hex_digits().contains(#[trigger] r@[i]),
    {
        let lower = to_lowercase(trim(email));
        let digest = md5_digest(lower.as_str().as_bytes());
        let r = to_lower_hex(&digest);
        proof {
            lemma_lower_hex_shape(digest@);
        }
        r
    }

    /// The image URL for an email address:
    /// `https://{base_url}/avatar/{identifier}[.jpg]{query}`.
    pub fn generate(&self, email: &str) -> (r: String)
        ensures
            r@ == url_of(*self, email@),
    {
        let hash = Self::hash_email(email);
        let query = self.query_parameters();
        let mut r = "https://".to_string();
        r.append(self.base_url.as_str());
        r.append("/avatar/");
        r.append(hash.as_str());
        if self.include_file_extension {
            r.append(".jpg");
        }
        r.append(query.as_str());
        assert(r@ =~= url_of(*self, email@));
        r
    }

    /// The query string of this configuration: empty when no option is set,
    /// else `?` and the set options as `d=`, `f=y`, `s=`, `r=` fragments, in
    /// that order, joined with `&`.
    pub fn query_parameters(&self) -> (r: String)
        ensures
            r@ == query_of(*self),
    {
        let mut parts = String::new();
        let ghost mut done: Seq<Seq<char>> = Seq::empty();
        let mut first = true;
        if let Some(d) = &self.default_image {
            let part = make_fragment("d", d.as_str());
            push_fragment(&mut parts, Ghost(done), first, part.as_str());
            proof {
                done = done.push(part@);
            }
            first = false;
        }
        if self.force_default {
            push_fragment(&mut parts, Ghost(done), first, "f=y");
            proof {
                done = done.push("f=y"@);
            }
            first = false;
        }
        if let Some(s) = self.image_size {
            let size = to_decimal(s);
            let part = make_fragment("s", size.as_str());
            push_fragment(&mut parts, Ghost(done), first, part.as_str());
            proof {
                done = done.push(part@);
            }
            first = false;
        }
        if let Some(rating) = &self.rating {
            let part = make_fragment("r", rating.as_str());
            push_fragment(&mut parts, Ghost(done), first, part.as_str());
            proof {
                done = done.push(part@);
            }
            first = false;
        }
        assert(done =~= fragments(*self));
        if first {
            String::new()
        } else {
            let mut r = "?".to_string();
            r.append(parts.as_str());
            r
        }
    }

    /// This configuration with another base URL.
    pub fn set_base_url(self, base_url: &str) -> (r: Self)
        ensures
            r.base_url@ == base_url@,
            r.default_image == self.default_image,
            r.force_default == self.force_default,
            r.image_size == self.image_size,
            r.include_file_extension == self.include_file_extension,
            r.rating == self.rating,
    {
        Generator { base_url: base_url.to_string(), ..self }
    }

    /// This configuration asking for a default image (`d=`).
    pub fn set_default_image(self, default_image: &str) -> (r: Self)
        ensures
            r.base_url == self.base_url,
            r.default_image matches Some(d) && d@ == default_image@,
            r.force_default == self.force_default,
            r.image_size == self.image_size,
            r.include_file_extension == self.include_file_extension,
            r.rating == self.rating,
    {
        Generator { default_image: Some(default_image.to_string()), ..self }
    }

    /// This configuration with forcing the default image (`f=y`) turned on or
    /// off.
    pub fn set_force_default(self, force_default: bool) -> (r: Self)
        ensures
            r.base_url == self.base_url,
            r.default_image == self.default_image,
            r.force_default == force_default,
            r.image_size == self.image_size,
            r.include_file_extension == self.include_file_extension,
            r.rating == self.rating,
    {
        Generator { force_default, ..self }
    }

    /// This configuration asking for images of a size in pixels (`s=`).
    pub fn set_image_size(self, image_size: i32) -> (r: Self)
        ensures
            r.base_url == self.base_url,
            r.default_image == self.default_image,
            r.force_default == self.force_default,
            r.image_size == Some(image_size),
            r.include_file_extension == self.include_file_extension,
            r.rating == self.rating,
    {
        Generator { image_size: Some(image_size), ..self }
    }

    /// This configuration with the `.jpg` extension turned on or off.
    pub fn set_include_file_extension(self, include_file_extension: bool) -> (r: Self)
        ensures
            r.base_url == self.base_url,
            r.default_image == self.default_image,
            r.force_default == self.force_default,
            r.image_size == self.image_size,
            r.include_file_extension == include_file_extension,
            r.rating == self.rating,
    {
        Generator { include_file_extension, ..self }
    }

    /// This configuration allowing images up to a rating (`r=`).
    pub fn set_rating(self, rating: &str) -> (r: Self)
        ensures
            r.base_url == self.base_url,
            r.default_image == self.default_image,
            r.force_default == self.force_default,
            r.image_size == self.image_size,
            r.include_file_extension == self.include_file_extension,
            r.rating matches Some(v) && v@ == rating@,
    {
        Generator { rating: Some(rating.to_string()), ..self }
    }
}

} // verus!
