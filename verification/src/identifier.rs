//! Derivation of a window identifier from a window title: the title is
//! lowercased, every space becomes an underscore, and a fixed prefix is
//! put in front.

use vstd::prelude::*;
use vstd::string::StrSliceExecFns;
use vstd::string::StringExecFns;

verus! {

/// The lowercase form that `str::to_lowercase` gives a string:
/// a function of the characters alone.
pub uninterp spec fn lower_of(s: Seq<char>) -> Seq<char>;

/// What identifier derivation does to one character of the lowered title.
pub open spec fn space_to_underscore(c: char) -> char {
    if c == ' ' {
        '_'
    } else {
        c
    }
}

/// Every space becomes one underscore; every other character is kept.
/// Consecutive spaces each become an underscore of their own.
pub open spec fn underscored(s: Seq<char>) -> Seq<char> {
    s.map_values(|c: char| space_to_underscore(c))
}

/// The identifier a title derives to: the fixed prefix, then the lowered
/// title with its spaces replaced by underscores.
pub open spec fn identifier_of(title: Seq<char>) -> Seq<char> {
    "webview_"@ + underscored(lower_of(title))
}

/// Relies on `str::to_lowercase`: the result depends on the characters alone.
#[verifier::external_body]
fn lowercase(s: &str) -> (r: String)
    ensures
        r@ == lower_of(s@),
{
    s.to_lowercase()
}

/// Relies on `String::push`: appends exactly one character at the end.
#[verifier::external_body]
fn push_char(s: &mut String, c: char)
    ensures
        final(s)@ == old(s)@.push(c),
{
    s.push(c);
}

/// Derives the window identifier for a title. The identifier is a pure
/// function of the title: it is the lowered title, spaces turned to
/// underscores, behind the `webview_` prefix, and nothing else is read.
pub fn derive_identifier(title: &str) -> (r: String)
    ensures
        r@ == identifier_of(title@),
{
    let lowered: String = lowercase(title);
    let lowered_str: &str = lowered.as_str();
    let n: usize = lowered_str.unicode_len();
    let mut out: String = String::from_str("webview_");
    let mut i: usize = 0;
    proof {
        assert(out@ =~= "webview_"@ + underscored(lower_of(title@).take(0)));
    }
    while i < n
        invariant
            lowered_str@ == lower_of(title@),
            n == lower_of(title@).len(),
            i <= n,
            out@ == "webview_"@ + underscored(lower_of(title@).take(i as int)),
        decreases n - i,
    {
        let c: char = lowered_str.get_char(i);
        let d: char = if c == ' ' {
            '_'
        } else {
            c
        };
        push_char(&mut out, d);
        proof {
            let low = lower_of(title@);
            assert(underscored(low.take(i + 1)) =~= underscored(low.take(i as int)).push(
                space_to_underscore(low[i as int]),
            ));
            assert(out@ =~= "webview_"@ + underscored(low.take(i + 1)));
        }
        i = i + 1;
    }
    proof {
        assert(lower_of(title@).take(n as int) =~= lower_of(title@));
    }
    out
}

/// Titles whose lowered forms agree derive the same identifier; in
/// particular, titles that differ only in letter case collide on one
/// identifier, and what happens then is the windowing toolkit's affair.
pub proof fn lemma_identifier_collision(t1: Seq<char>, t2: Seq<char>)
    requires
        lower_of(t1) == lower_of(t2),
    ensures
        identifier_of(t1) == identifier_of(t2),
{
}

} // verus!
