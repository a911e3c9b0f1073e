use vstd::prelude::*;
use vstd::string::*;
use crate::error::XkcdError;

verus! {

/// The percent-encoded path of the absolute URL `s`; `None` when `s` does
/// not parse as a URL.
pub uninterp spec fn url_path_of(s: Seq<char>) -> Option<Seq<char>>;

/// Relies on url::Url::parse, then url::Url::path: the percent-encoded path
/// of an absolute URL, or `None` when the text does not parse.
#[verifier::external_body]
pub(crate) fn parsed_path(s: &str) -> (r: Option<String>)
    ensures
        url_path_of(s@) == match r {
            Some(p) => Some(p@),
            None => None,
        },
{
    url::Url::parse(s).ok().map(|u| u.path().to_string())
}

/// The characters after the last `/` of `p` (all of `p` when it has none).
pub open spec fn after_last_slash(p: Seq<char>) -> Seq<char>
    decreases p.len(),
{
    if p.len() == 0 || p.last() == '/' {
        Seq::empty()
    } else {
        after_last_slash(p.drop_last()).push(p.last())
    }
}

/// The file name a path yields: its last segment, when the path is made of
/// segments (it starts with `/`) and that segment is not empty.
pub open spec fn path_file_name(p: Seq<char>) -> Option<Seq<char>> {
    if p.len() > 0 && p[0] == '/' && after_last_slash(p).len() > 0 {
        Some(after_last_slash(p))
    } else {
        None
    }
}

proof fn lemma_after_last_slash(p: Seq<char>, i: int)
    requires
        0 <= i <= p.len(),
        i == 0 || p[i - 1] == '/',
        forall|j: int| i <= j < p.len() ==> p[j] != '/',
    ensures
        after_last_slash(p) == p.subrange(i, p.len() as int),
    decreases p.len(),
{
    if p.len() == i {
        assert(p.subrange(i, p.len() as int) =~= Seq::<char>::empty());
    } else {
        let q = p.drop_last();
        lemma_after_last_slash(q, i);
        assert(p.subrange(i, p.len() as int) =~= q.subrange(i, q.len() as int).push(p.last()));
    }
}

/// The file name of a URL path: its last segment. Fails with `Url` when the
/// path has no segments or the last one is empty.
pub fn file_name_of_path(path: &str) -> (r: Result<String, XkcdError>)
    ensures
        r matches Ok(n) ==> path_file_name(path@) == Some(n@),
        r matches Err(e) ==> path_file_name(path@) is None && e == XkcdError::Url,
{
    let len = path.unicode_len();
    if len == 0 || path.get_char(0) != '/' {
        return Err(XkcdError::Url);
    }
    let mut i: usize = len;
    while i > 0 && path.get_char(i - 1) != '/'
        invariant
            i <= len,
            len == path@.len(),
            forall|j: int| i <= j < len ==> path@[j] != '/',
        decreases i,
    {
        i = i - 1;
    }
    proof {
        lemma_after_last_slash(path@, i as int);
    }
    if i == len {
        return Err(XkcdError::Url);
    }
    let name = path.substring_char(i, len);
    Ok(String::from_str(name))
}

/// The file name an image URL yields: the last segment of its path, when the
/// URL parses and that segment is a file name.
pub open spec fn image_name_of(s: Seq<char>) -> Option<Seq<char>> {
    match url_path_of(s) {
        Some(p) => path_file_name(p),
        None => None,
    }
}

/// The local file name for an image: the last path segment of its URL.
/// Fails with `Url` exactly when the URL does not parse or yields no file
/// name; a name that comes back is a non-empty segment with no `/` in it.
pub fn image_file_name(img_url: &str) -> (r: Result<String, XkcdError>)
    ensures
        r matches Ok(n) ==> image_name_of(img_url@) == Some(n@) && n@.len() > 0 && forall|j: int|
            0 <= j < n@.len() ==> n@[j] != '/',
        r matches Err(e) ==> image_name_of(img_url@) is None && e == XkcdError::Url,
{
    let path = match parsed_path(img_url) {
        Some(p) => p,
        None => return Err(XkcdError::Url),
    };
    let r = file_name_of_path(path.as_str());
    proof {
        lemma_file_name_shape(path@);
    }
    r
}

proof fn lemma_no_slash(p: Seq<char>)
    ensures
        forall|j: int| 0 <= j < after_last_slash(p).len() ==> after_last_slash(p)[j] != '/',
    decreases p.len(),
{
    if p.len() > 0 && p.last() != '/' {
        let q = p.drop_last();
        lemma_no_slash(q);
        assert forall|j: int| 0 <= j < after_last_slash(p).len() implies after_last_slash(p)[j]
            != '/' by {
            if j < after_last_slash(q).len() {
                assert(after_last_slash(p)[j] == after_last_slash(q)[j]);
            }
        }
    }
}

proof fn lemma_file_name_shape(p: Seq<char>)
    ensures
        path_file_name(p) matches Some(n) ==> n.len() > 0 && forall|j: int|
            0 <= j < n.len() ==> n[j] != '/',
{
    lemma_no_slash(p);
}

} // verus!
