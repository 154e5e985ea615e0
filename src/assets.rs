use vstd::prelude::*;
use vstd::string::*;

verus! {

/// The media type that mime_guess gives for a path, from its extension.
pub uninterp spec fn guessed_mime(path: Seq<char>) -> Seq<char>;

/// Relies on `mime_guess::from_path(..).first_or_text_plain()`: the first
/// media type known for the path's extension, `text/plain` when none is;
/// the result depends on the path alone.
#[verifier::external_body]
fn guess_mime(path: &str) -> (r: String)
    ensures
        r@ == guessed_mime(path@),
{
    mime_guess::from_path(path).first_or_text_plain().to_string()
}

/// The media type sent with a served file.
pub fn content_type(path: &str) -> (r: String)
    ensures
        r@ == guessed_mime(path@),
{
    guess_mime(path)
}

/// A path with its leading slashes removed.
pub open spec fn trim_leading_slashes(p: Seq<char>) -> Seq<char>
    decreases p.len(),
{
    if p.len() > 0 && p[0] == '/' {
        trim_leading_slashes(p.drop_first())
    } else {
        p
    }
}

/// The name of a bundled asset within the asset tree.
pub fn asset_path(path: &str) -> (r: &str)
    ensures
        r@ == trim_leading_slashes(path@),
{
    let n = path.unicode_len();
    let mut i: usize = 0;
    assert(path@.subrange(0, n as int) =~= path@);
    while i < n && path.get_char(i) == '/'
        invariant
            n == path@.len(),
            i <= n,
            trim_leading_slashes(path@) == trim_leading_slashes(path@.subrange(i as int, n as int)),
        decreases n - i,
    {
        assert(path@.subrange(i as int, n as int).drop_first() =~= path@.subrange(
            i as int + 1,
            n as int,
        ));
        i += 1;
    }
    path.substring_char(i, n)
}

} // verus!
