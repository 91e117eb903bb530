//! Which embedded asset a request path names.
use vstd::prelude::*;

use vstd::string::{StrSliceExecFns, StringExecFns};

verus! {

/// The asset served for the root path.
pub const INDEX_HTML: &'static str = "index.html";

/// `s` without its leading slashes.
pub open spec fn trim_leading_slashes(s: Seq<char>) -> Seq<char>
    decreases s.len(),
{
    if s.len() > 0 && s[0] == '/' {
        trim_leading_slashes(s.drop_first())
    } else {
        s
    }
}

/// The asset named by request path `p`: the index page for `/`, otherwise
/// the path without its leading slashes.
pub open spec fn asset_path(p: Seq<char>) -> Seq<char> {
    if p == seq!['/'] {
        INDEX_HTML@
    } else {
        trim_leading_slashes(p)
    }
}

/// The files embedded in the executable and served to the front end.
pub struct Assets;

/// Dropping `k` leading slashes leaves the same trimmed text.
proof fn lemma_trim_skip(s: Seq<char>, k: int)
    requires
        0 <= k <= s.len(),
        forall|j: int| 0 <= j < k ==> s[j] == '/',
    ensures
        trim_leading_slashes(s) == trim_leading_slashes(s.subrange(k, s.len() as int)),
    decreases k,
{
    if k > 0 {
        assert(s.drop_first() =~= s.subrange(1, s.len() as int));
        lemma_trim_skip(s.drop_first(), k - 1);
        assert(s.drop_first().subrange(k - 1, s.drop_first().len() as int) =~= s.subrange(
            k,
            s.len() as int,
        ));
    } else {
        assert(s.subrange(0, s.len() as int) =~= s);
    }
}

impl Assets {
    /// The name of the embedded asset that `request_path` asks for.
    pub fn path_for(request_path: &str) -> (r: String)
        ensures
            r@ == asset_path(request_path@),
    {
        proof {
            reveal_strlit("/");
        }
        assert("/"@ =~= seq!['/']);
        if String::from_str(request_path) == String::from_str("/") {
            let index = String::from_str(INDEX_HTML);
            assert(request_path@ == seq!['/']);
            return index;
        }
        let n = request_path.unicode_len();
        let mut i: usize = 0;
        while i < n && request_path.get_char(i) == '/'
            invariant
                n == request_path@.len(),
                i <= n,
                forall|j: int| 0 <= j < i ==> request_path@[j] == '/',
            decreases n - i,
        {
            i = i + 1;
        }
        proof {
            lemma_trim_skip(request_path@, i as int);
            let rest = request_path@.subrange(i as int, n as int);
            if rest.len() > 0 {
                assert(rest[0] == request_path@[i as int]);
            }
            assert(trim_leading_slashes(rest) == rest);
        }
        let rest = request_path.substring_char(i, n);
        String::from_str(rest)
    }
}

} // verus!
