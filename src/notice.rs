use vstd::prelude::*;

verus! {

/// The final component of a path as `std::path::Path::file_name` gives it,
/// if there is one.
pub uninterp spec fn file_name_of(path: Seq<char>) -> Option<Seq<char>>;

/// Relies on `std::path::Path::file_name`: the result depends on the path alone.
#[verifier::external_body]
fn path_file_name(path: &String) -> (r: Option<String>)
    ensures
        r is Some <==> file_name_of(path@) is Some,
        r is Some ==> r->Some_0@ == file_name_of(path@)->Some_0,
{
    match std::path::Path::new(path).file_name() {
        Some(f) => Some(f.to_string_lossy().into_owned()),
        None => None,
    }
}

/// The path to show for a change: its canonical form where that could be
/// resolved, else the path as reported.
pub open spec fn shown_path(raw: Seq<char>, canonical: Option<String>) -> Seq<char> {
    match canonical {
        Some(c) => c@,
        None => raw,
    }
}

/// The label of a path in a notice: its file name where it has a non-empty
/// one, else the whole path.
pub open spec fn label_of(path: Seq<char>) -> Seq<char> {
    match file_name_of(path) {
        Some(f) => if f.len() > 0 {
            f
        } else {
            path
        },
        None => path,
    }
}

/// The label of a path, given its file name as `Path::file_name` gave it.
pub fn label_from_file_name(path: &String, file_name: Option<String>) -> (r: String)
    ensures
        r@ == match file_name {
            Some(f) => if f@.len() > 0 {
                f@
            } else {
                path@
            },
            None => path@,
        },
{
    match file_name {
        Some(f) => {
            if f.unicode_len() > 0 {
                f
            } else {
                path.clone()
            }
        },
        None => path.clone(),
    }
}

/// The label that a change notice shows, from the first path of the event
/// (none for an event that names no path) and the canonical form of that
/// path where it could be resolved.
pub fn change_label(raw: &Option<String>, canonical: Option<String>) -> (r: String)
    ensures
        match raw {
            Some(p) => r@ == label_of(shown_path(p@, canonical)),
            None => r@.len() == 0,
        },
{
    match raw {
        None => String::new(),
        Some(p) => {
            let shown = match canonical {
                Some(c) => c,
                None => p.clone(),
            };
            let name = path_file_name(&shown);
            label_from_file_name(&shown, name)
        },
    }
}

/// A change whose path cannot be canonicalized is still labelled by a
/// non-empty text: the raw path, or its file name.
pub proof fn lemma_label_never_empty(raw: Seq<char>, canonical: Option<String>)
    requires
        raw.len() > 0,
        canonical is None,
    ensures
        shown_path(raw, canonical) == raw,
        label_of(shown_path(raw, canonical)).len() > 0,
{
}

/// The columns assumed when the terminal's width is unknown.
pub const DEFAULT_COLUMNS: u16 = 80;

/// The separator line: underscores across half the terminal's width.
pub open spec fn separator_line(columns: Option<u16>) -> Seq<char> {
    let width = match columns {
        Some(c) => c,
        None => DEFAULT_COLUMNS,
    } / 2;
    Seq::new(width as nat, |i: int| '_')
}

/// Builds the separator line for a terminal of the given width, if known.
pub fn separator(columns: Option<u16>) -> (r: String)
    ensures
        r@ == separator_line(columns),
{
    let width: u16 = match columns {
        Some(c) => c,
        None => DEFAULT_COLUMNS,
    } / 2;
    let mut line = String::new();
    let mut i: u16 = 0;
    while i < width
        invariant
            0 <= i <= width,
            line@ == Seq::new(i as nat, |j: int| '_'),
        decreases width - i,
    {
        proof {
            reveal_strlit("_");
        }
        line.append("_");
        i = i + 1;
        assert(line@ =~= Seq::new(i as nat, |j: int| '_'));
    }
    line
}

} // verus!
