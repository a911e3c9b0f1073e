use vstd::prelude::*;
use vstd::string::*;
use crate::decimal::{decimal_text, push_decimal, lemma_decimal_digits};

verus! {

/// Where the comic metadata is served.
pub const BASE_URL: &'static str = "https://xkcd.com";

/// The file name of a comic's metadata under its directory.
pub const INFO_0_JSON: &'static str = "info.0.json";

/// `"info.0.json"` as characters.
pub open spec fn info_name() -> Seq<char> {
    seq!['i', 'n', 'f', 'o', '.', '0', '.', 'j', 's', 'o', 'n']
}

/// The metadata URL under `base`: the latest comic when `num` is absent,
/// else comic `num`.
pub open spec fn metadata_url_text(base: Seq<char>, num: Option<nat>) -> Seq<char> {
    match num {
        None => base + seq!['/'] + info_name(),
        Some(n) => base + seq!['/'] + decimal_text(n) + seq!['/'] + info_name(),
    }
}

/// Builds the metadata URL under `base` for comic `num`, or for the latest
/// comic when `num` is `None`.
pub fn build_url(base: &str, num: Option<usize>) -> (r: String)
    ensures
        r@ == metadata_url_text(base@, match num { Some(n) => Some(n as nat), None => None }),
{
    proof {
        reveal_strlit("/");
        reveal_strlit("info.0.json");
    }
    let mut r = String::from_str(base);
    r.append("/");
    if let Some(n) = num {
        push_decimal(&mut r, n as u64);
        r.append("/");
    }
    r.append(INFO_0_JSON);
    assert(r@ =~= metadata_url_text(base@, match num { Some(n) => Some(n as nat), None => None }));
    r
}

/// A metadata URL always ends in `info.0.json`; with a comic number it holds
/// that number's digits exactly once, as the one path segment between `base`
/// and the file name, and without one nothing stands between them but `/`.
pub proof fn lemma_metadata_url_shape(base: Seq<char>, num: Option<nat>)
    ensures
        ({
            let u = metadata_url_text(base, num);
            &&& u.subrange(0, base.len() as int) == base
            &&& u.subrange(u.len() - 11, u.len() as int) == info_name()
            &&& u[u.len() - 12] == '/'
            &&& u[base.len() as int] == '/'
            &&& match num {
                None => u.len() == base.len() + 12,
                Some(n) => {
                    let d = decimal_text(n);
                    &&& u.len() == base.len() + d.len() + 13
                    &&& u.subrange(base.len() + 1int, base.len() + 1int + d.len()) == d
                    &&& forall|i: int|
                        base.len() + 1 <= i < base.len() + 1 + d.len() ==> '0' <= #[trigger] u[i]
                            <= '9'
                },
            }
        }),
{
    let u = metadata_url_text(base, num);
    match num {
        None => {
            assert(u.subrange(0, base.len() as int) =~= base);
            assert(u.subrange(u.len() - 11, u.len() as int) =~= info_name());
        },
        Some(n) => {
            let d = decimal_text(n);
            lemma_decimal_digits(n);
            assert(u.subrange(0, base.len() as int) =~= base);
            assert(u.subrange(u.len() - 11, u.len() as int) =~= info_name());
            assert(u.subrange(base.len() + 1int, base.len() + 1int + d.len()) =~= d);
            assert forall|i: int| base.len() + 1 <= i < base.len() + 1 + d.len() implies '0'
                <= #[trigger] u[i] <= '9' by {
                assert(u[i] == d[i - base.len() - 1]);
            }
        },
    }
}

} // verus!
