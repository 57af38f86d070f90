use vstd::prelude::*;
use vstd::string::{StringExecFns, StringSliceAdditionalSpecFns};

verus! {

/// The suffix that chart requests may carry: `.svg`.
pub open spec fn svg_suffix() -> Seq<u8> {
    seq![46u8, 115u8, 118u8, 103u8]
}

/// `s` with every occurrence of `.svg` taken out, scanning from the left
/// and never letting two occurrences overlap.
pub open spec fn without_svg(s: Seq<u8>) -> Seq<u8>
    decreases s.len(),
{
    if s.len() >= 4 && s.take(4) == svg_suffix() {
        without_svg(s.skip(4))
    } else if s.len() >= 1 {
        seq![s[0]] + without_svg(s.skip(1))
    } else {
        Seq::empty()
    }
}

/// The chart name in a request path segment: the segment with `.svg`
/// taken out wherever it occurs. The result is UTF-8 when the segment is.
pub fn chart_name_bytes(segment: &str) -> (r: Vec<u8>)
    ensures
        r@ == without_svg(segment.spec_bytes()),
{
    let b = segment.as_bytes();
    let n: usize = b.len();
    let mut out: Vec<u8> = Vec::new();
    let mut i: usize = 0;
    proof {
        assert(b@.skip(0) =~= b@);
        assert(out@ + without_svg(b@) =~= without_svg(b@));
    }
    while i < n
        invariant
            n == b@.len(),
            b@ == segment.spec_bytes(),
            i <= n,
            out@ + without_svg(b@.skip(i as int)) == without_svg(b@),
        decreases n - i,
    {
        let ghost rest = b@.skip(i as int);
        if n - i >= 4 && b[i] == 46u8 && b[i + 1] == 115u8 && b[i + 2] == 118u8 && b[i + 3]
            == 103u8 {
            proof {
                assert(rest.take(4) =~= svg_suffix());
                assert(rest.skip(4) =~= b@.skip(i + 4));
            }
            i = i + 4;
        } else {
            proof {
                if rest.len() >= 4 {
                    assert(rest.take(4) != svg_suffix()) by {
                        if rest.take(4) == svg_suffix() {
                            assert(rest.take(4)[0] == b@[i as int]);
                            assert(rest.take(4)[1] == b@[i + 1]);
                            assert(rest.take(4)[2] == b@[i + 2]);
                            assert(rest.take(4)[3] == b@[i + 3]);
                        }
                    }
                }
                assert(rest.skip(1) =~= b@.skip(i + 1));
                assert(out@.push(b@[i as int]) + without_svg(b@.skip(i + 1)) =~= out@ + (seq![
                    b@[i as int],
                ] + without_svg(b@.skip(i + 1))));
            }
            out.push(b[i]);
            i = i + 1;
        }
    }
    proof {
        assert(b@.skip(n as int) =~= Seq::<u8>::empty());
        assert(out@ + Seq::<u8>::empty() =~= out@);
    }
    out
}

/// Whether a request path names a directory (it is empty or ends in `/`):
/// such a path is served its `index.html`.
pub open spec fn names_directory(path: Seq<u8>) -> bool {
    path.len() == 0 || path.last() == 47u8
}

/// Where the static asset for a request path lies in the bundled front
/// end: under `front/dist`, with `index.html` added for a directory.
pub fn asset_path(path: &str) -> (r: String)
    ensures
        r@ == "front/dist"@ + path@ + (if names_directory(path.spec_bytes()) {
            "index.html"@
        } else {
            Seq::empty()
        }),
{
    let b = path.as_bytes();
    let dir = b.len() == 0 || b[b.len() - 1] == 47u8;
    let mut r = String::from_str("front/dist");
    r.append(path);
    if dir {
        r.append("index.html");
    } else {
        proof {
            assert(r@ + Seq::<char>::empty() =~= r@);
        }
    }
    r
}

/// The prefix of the API's paths: `/api/`.
pub open spec fn api_prefix() -> Seq<u8> {
    seq![47u8, 97u8, 112u8, 105u8, 47u8]
}

/// Whether a request for a missing asset is answered with the front end's
/// `index.html` (so that the front end can route it): every path but the
/// API's.
pub fn falls_back_to_index(path: &str) -> (r: bool)
    ensures
        r == !(path.spec_bytes().len() >= 5 && path.spec_bytes().take(5) == api_prefix()),
{
    let b = path.as_bytes();
    let api = b.len() >= 5 && b[0] == 47u8 && b[1] == 97u8 && b[2] == 112u8 && b[3] == 105u8
        && b[4] == 47u8;
    proof {
        if b@.len() >= 5 {
            if api {
                assert(b@.take(5) =~= api_prefix());
            } else if b@.take(5) == api_prefix() {
                assert(b@.take(5)[0] == b@[0]);
                assert(b@.take(5)[1] == b@[1]);
                assert(b@.take(5)[2] == b@[2]);
                assert(b@.take(5)[3] == b@[3]);
                assert(b@.take(5)[4] == b@[4]);
            }
        }
    }
    !api
}

/// Width or height asked for by a query parameter, where it parsed as a
/// number; else the default.
pub fn dimension_or(parsed: Option<usize>, default: usize) -> (r: usize)
    ensures
        r == match parsed {
            Some(v) => v,
            None => default,
        },
{
    match parsed {
        Some(v) => v,
        None => default,
    }
}

} // verus!
