//! Media types as they stand in a `Content-Type` header, and the patterns
//! that a field's declaration accepts.

use vstd::prelude::*;
use crate::text::{find_char, opt_text, range_same_ignoring_case, same_ignoring_case, string_chars};

verus! {

/// The two halves of a media type such as `image/png`.
pub ghost struct MediaType {
    pub top: Seq<char>,
    pub sub: Seq<char>,
}

/// The header's value up to its first `;`, that is without parameters.
pub open spec fn essence(content_type: Seq<char>) -> Seq<char> {
    match content_type.index_of_first(';') {
        Some(i) => content_type.take(i),
        None => content_type,
    }
}

/// The media type that a header value declares: its essence split at the
/// first `/`, both halves non-empty.
pub open spec fn media_type(content_type: Seq<char>) -> Option<MediaType> {
    let e = essence(content_type);
    match e.index_of_first('/') {
        Some(k) => if 0 < k && k + 1 < e.len() {
            Some(MediaType { top: e.take(k), sub: e.skip(k + 1) })
        } else {
            None
        },
        None => None,
    }
}

/// Which content types a field takes.
#[derive(Debug, Clone, PartialEq, Eq)]
pub enum MediaPattern {
    /// `*/*`: every part, also one that declares no content type.
    Any,
    /// `top/*`: every subtype of one top-level type.
    AnySubtype(String),
    /// `top/sub`: one media type.
    Exact(String, String),
}

pub enum MediaPatternView {
    Any,
    AnySubtype(Seq<char>),
    Exact(Seq<char>, Seq<char>),
}

impl View for MediaPattern {
    type V = MediaPatternView;

    open spec fn view(&self) -> MediaPatternView {
        match self {
            MediaPattern::Any => MediaPatternView::Any,
            MediaPattern::AnySubtype(top) => MediaPatternView::AnySubtype(top@),
            MediaPattern::Exact(top, sub) => MediaPatternView::Exact(top@, sub@),
        }
    }
}

impl MediaPatternView {
    /// Whether a part with this declared content type passes the pattern.
    /// Types and subtypes are compared without regard to ASCII case, and
    /// parameters are ignored. A part without a content type passes `Any`
    /// only.
    pub open spec fn accepts(self, content_type: Option<Seq<char>>) -> bool {
        match self {
            MediaPatternView::Any => true,
            MediaPatternView::AnySubtype(top) => {
                &&& content_type matches Some(ct)
                &&& media_type(ct) matches Some(m)
                &&& same_ignoring_case(m.top, top)
            },
            MediaPatternView::Exact(top, sub) => {
                &&& content_type matches Some(ct)
                &&& media_type(ct) matches Some(m)
                &&& same_ignoring_case(m.top, top)
                &&& same_ignoring_case(m.sub, sub)
            },
        }
    }
}

/// Where the media type of `v` lies: the index of its `/` and the end of its
/// essence.
fn locate_media_type(v: &Vec<char>) -> (r: Option<(usize, usize)>)
    ensures
        match r {
            Some((k, e)) => {
                &&& k < e <= v.len()
                &&& media_type(v@) == Some(
                    MediaType { top: v@.take(k as int), sub: v@.subrange(k + 1, e as int) },
                )
            },
            None => media_type(v@) is None,
        },
{
    assert(v@.take(v.len() as int) =~= v@);
    let e: usize = match find_char(v, v.len(), ';') {
        Some(i) => i,
        None => v.len(),
    };
    assert(essence(v@) =~= v@.take(e as int));
    match find_char(v, e, '/') {
        Some(k) => {
            if 0 < k && k + 1 < e {
                assert(v@.take(e as int).take(k as int) =~= v@.take(k as int));
                assert(v@.take(e as int).skip(k + 1) =~= v@.subrange(k + 1, e as int));
                Some((k, e))
            } else {
                None
            }
        },
        None => None,
    }
}

impl MediaPattern {
    /// Tests a part's declared content type against the pattern.
    pub fn accepts(&self, content_type: &Option<String>) -> (b: bool)
        ensures
            b == self@.accepts(opt_text(*content_type)),
    {
        match self {
            MediaPattern::Any => true,
            MediaPattern::AnySubtype(top) => match content_type {
                None => false,
                Some(ct) => {
                    let v = string_chars(ct.as_str());
                    match locate_media_type(&v) {
                        None => false,
                        Some((k, _e)) => {
                            let t = string_chars(top.as_str());
                            assert(v@.subrange(0, k as int) =~= v@.take(k as int));
                            range_same_ignoring_case(&v, 0, k, &t)
                        },
                    }
                },
            },
            MediaPattern::Exact(top, sub) => match content_type {
                None => false,
                Some(ct) => {
                    let v = string_chars(ct.as_str());
                    match locate_media_type(&v) {
                        None => false,
                        Some((k, e)) => {
                            let t = string_chars(top.as_str());
                            let u = string_chars(sub.as_str());
                            assert(v@.subrange(0, k as int) =~= v@.take(k as int));
                            range_same_ignoring_case(&v, 0, k, &t) && range_same_ignoring_case(
                                &v,
                                k + 1,
                                e,
                                &u,
                            )
                        },
                    }
                },
            },
        }
    }
}

} // verus!
