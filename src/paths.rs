use vstd::prelude::*;

verus! {

/// The extension of a path as `std::path::Path::extension` gives it: the part
/// of the file name after its last dot, if the name has one that is not its
/// first character.
pub uninterp spec fn extension_of(path: Seq<char>) -> Option<Seq<char>>;

/// Relies on `std::path::Path::extension`: the result depends on the path alone.
#[verifier::external_body]
fn path_extension(path: &String) -> (r: Option<String>)
    ensures
        r is Some <==> extension_of(path@) is Some,
        r is Some ==> r->Some_0@ == extension_of(path@)->Some_0,
{
    match std::path::Path::new(path).extension() {
        Some(e) => Some(e.to_string_lossy().into_owned()),
        None => None,
    }
}

/// The views of a list of strings.
pub open spec fn views(v: Seq<String>) -> Seq<Seq<char>> {
    v.map_values(|s: String| s@)
}

/// The view of an optional string.
pub open spec fn opt_view(o: Option<String>) -> Option<Seq<char>> {
    match o {
        Some(s) => Some(s@),
        None => None,
    }
}

/// Whether an extension is one of those listed.
pub open spec fn is_listed(ext: Option<Seq<char>>, exts: Seq<Seq<char>>) -> bool {
    match ext {
        Some(e) => exts.contains(e),
        None => false,
    }
}

/// Whether a path's extension is one of those listed.
pub open spec fn matches_extensions(path: Seq<char>, exts: Seq<Seq<char>>) -> bool {
    is_listed(extension_of(path), exts)
}

/// Whether an extension, as `Path::extension` gave it, is one of those listed.
pub fn listed_extension(ext: &Option<String>, exts: &Vec<String>) -> (r: bool)
    ensures
        r == is_listed(opt_view(*ext), views(exts@)),
{
    match ext {
        None => false,
        Some(e) => {
            let mut i: usize = 0;
            while i < exts.len()
                invariant
                    0 <= i <= exts.len(),
                    opt_view(*ext) == Some(e@),
                    forall|j: int| 0 <= j < i ==> exts@[j]@ != e@,
                decreases exts.len() - i,
            {
                if exts[i] == *e {
                    assert(views(exts@).len() == exts@.len());
                    assert(views(exts@)[i as int] == e@);
                    assert(views(exts@).contains(e@));
                    return true;
                }
                i = i + 1;
            }
            assert(!views(exts@).contains(e@)) by {
                if views(exts@).contains(e@) {
                    let j = choose|j: int| 0 <= j < views(exts@).len() && views(exts@)[j] == e@;
                    assert(exts@[j]@ == e@);
                }
            }
            false
        },
    }
}

/// Whether a path's extension is one of those listed.
pub fn has_listed_extension(path: &String, exts: &Vec<String>) -> (r: bool)
    ensures
        r == matches_extensions(path@, views(exts@)),
{
    let ext = path_extension(path);
    listed_extension(&ext, exts)
}

/// Whether the extension list asks for a scan of the tree: it is given and
/// not empty.
pub fn wants_scan(extensions: &Option<Vec<String>>) -> (r: bool)
    ensures
        r == (extensions is Some && extensions->Some_0@.len() > 0),
{
    match extensions {
        Some(exts) => exts.len() > 0,
        None => false,
    }
}

/// The paths of a scan whose extension is listed, in the order of the scan.
pub open spec fn select_matching(found: Seq<String>, exts: Seq<Seq<char>>) -> Seq<String> {
    found.filter(|p: String| matches_extensions(p@, exts))
}

/// Keeps the paths of a scan whose extension is listed.
pub fn select_by_extensions(found: &Vec<String>, exts: &Vec<String>) -> (r: Vec<String>)
    ensures
        r@ == select_matching(found@, views(exts@)),
{
    let ghost pred = |p: String| matches_extensions(p@, views(exts@));
    let mut out: Vec<String> = Vec::new();
    let mut i: usize = 0;
    while i < found.len()
        invariant
            0 <= i <= found.len(),
            pred == (|p: String| matches_extensions(p@, views(exts@))),
            out@ == found@.take(i as int).filter(pred),
        decreases found.len() - i,
    {
        proof {
            assert(found@.take(i as int + 1) =~= found@.take(i as int).push(found@[i as int]));
            found@.take(i as int).lemma_filter_push(found@[i as int], pred);
        }
        if has_listed_extension(&found[i], exts) {
            out.push(found[i].clone());
        }
        i = i + 1;
    }
    assert(found@.take(found@.len() as int) =~= found@);
    out
}

/// The paths to watch: the scan's paths with a listed extension when an
/// extension list is given and not empty, else the watch list as given.
pub open spec fn resolved_paths(
    watch: Seq<String>,
    extensions: Option<Vec<String>>,
    found: Seq<String>,
) -> Seq<String> {
    match extensions {
        Some(exts) => if exts@.len() > 0 {
            select_matching(found, views(exts@))
        } else {
            watch
        },
        None => watch,
    }
}

/// Chooses the paths to watch; `found` is the recursive scan of the working
/// directory, which only matters when `wants_scan(&extensions)`.
pub fn resolve_paths(watch: Vec<String>, extensions: Option<Vec<String>>, found: &Vec<String>) -> (r:
    Vec<String>)
    ensures
        r@ == resolved_paths(watch@, extensions, found@),
{
    match extensions {
        Some(exts) => {
            if exts.len() > 0 {
                select_by_extensions(found, &exts)
            } else {
                watch
            }
        },
        None => watch,
    }
}

/// Finds the first watch path that does not exist, given for each path
/// whether it exists.
pub fn first_missing(exists: &Vec<bool>) -> (r: Option<usize>)
    ensures
        r is None <==> forall|i: int| 0 <= i < exists@.len() ==> exists@[i],
        r matches Some(k) ==> k < exists@.len() && !exists@[k as int] && forall|j: int|
            0 <= j < k ==> exists@[j],
{
    let mut i: usize = 0;
    while i < exists.len()
        invariant
            0 <= i <= exists.len(),
            forall|j: int| 0 <= j < i ==> exists@[j],
        decreases exists.len() - i,
    {
        if !exists[i] {
            return Some(i);
        }
        i = i + 1;
    }
    None
}

} // verus!
