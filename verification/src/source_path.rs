use vstd::prelude::*;
use vstd::string::*;

verus! {

/// `String::push` appends one character to the string. Allocation failure,
/// and a string growing past `isize::MAX` bytes, are left unsaid: they abort
/// or panic and are not modelled.
pub assume_specification[ String::push ](s: &mut String, ch: char)
    ensures
        final(s)@ == old(s)@.push(ch),
;

/// The load options that libvips reads from the end of a file name: use an
/// embedded thumbnail where the format has one, load one page, read in order.
pub const SOURCE_HINTS: &'static str = "[thumbnail=true,n=1,access=sequential]";

/// Backslashes become forward slashes; any other character stays.
pub open spec fn forward_slash(c: char) -> char {
    if c == '\\' {
        '/'
    } else {
        c
    }
}

/// The name under which libvips is asked to load `path`: the path with every
/// backslash turned into a forward slash, followed by the load options.
pub open spec fn hinted_source(path: Seq<char>) -> Seq<char> {
    path.map_values(|c: char| forward_slash(c)) + SOURCE_HINTS@
}

/// The libvips name of a path keeps every character but a backslash where it
/// was, turns each backslash into a forward slash, and ends with exactly the
/// load options `[thumbnail=true,n=1,access=sequential]`.
pub proof fn law_hinted_source_keeps_the_path(path: Seq<char>)
    ensures
        hinted_source(path).len() == path.len() + "[thumbnail=true,n=1,access=sequential]"@.len(),
        forall|k: int|
            0 <= k < path.len() ==> {
                &&& path[k] == '\\' ==> #[trigger] hinted_source(path)[k] == '/'
                &&& path[k] != '\\' ==> hinted_source(path)[k] == path[k]
            },
        hinted_source(path).subrange(path.len() as int, hinted_source(path).len() as int)
            == "[thumbnail=true,n=1,access=sequential]"@,
{
    let res = hinted_source(path);
    let mapped = path.map_values(|c: char| forward_slash(c));
    assert(res.subrange(path.len() as int, res.len() as int) =~= SOURCE_HINTS@);
    assert forall|k: int| 0 <= k < path.len() implies {
        &&& path[k] == '\\' ==> #[trigger] res[k] == '/'
        &&& path[k] != '\\' ==> res[k] == path[k]
    } by {
        assert(res[k] == mapped[k]);
    }
}

/// Builds the libvips file name for `path`: the path with each backslash
/// turned into a forward slash and every other character kept in place,
/// followed by `[thumbnail=true,n=1,access=sequential]`.
pub fn hinted_source_path(path: &str) -> (res: String)
    ensures
        res@ == hinted_source(path@),
        res@.len() == path@.len() + "[thumbnail=true,n=1,access=sequential]"@.len(),
        forall|k: int|
            0 <= k < path@.len() ==> {
                &&& path@[k] == '\\' ==> #[trigger] res@[k] == '/'
                &&& path@[k] != '\\' ==> res@[k] == path@[k]
            },
        res@.subrange(path@.len() as int, res@.len() as int)
            == "[thumbnail=true,n=1,access=sequential]"@,
{
    broadcast use vstd::string::axiom_spec_iter;
    let mut res = String::new();
    for c in it: path.chars()
        invariant
            it.seq() == path@,
            res@ == path@.take(it.index() as int).map_values(|c: char| forward_slash(c)),
    {
        let ghost i = it.index() as int;
        assert(path@.take(i + 1) == path@.take(i).push(c));
        if c == '\\' {
            res.push('/');
        } else {
            res.push(c);
        }
        assert(res@ == path@.take(i + 1).map_values(|c: char| forward_slash(c)));
    }
    assert(path@.take(path@.len() as int) == path@);
    res.append(SOURCE_HINTS);
    proof {
        law_hinted_source_keeps_the_path(path@);
    }
    res
}

} // verus!
