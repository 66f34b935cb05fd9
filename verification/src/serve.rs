//! What the serving layer reads from the core besides snapshots: the
//! listing of a mirror's files and the lookup of a deliverable's path.
//!
//! The directory walk and the file read themselves happen outside the
//! library; the entries arrive here as plain relative paths.

use vstd::prelude::*;

use crate::model::Assignment;

verus! {

/// Whether a directory entry is listed: empty entries and dotfiles are
/// excluded.
pub open spec fn keep_entry(s: Seq<char>) -> bool {
    s.len() > 0 && s[0] != '.'
}

/// [`keep_entry`] as a value, so that every filter speaks of one function.
pub open spec fn keep_pred() -> spec_fn(Seq<char>) -> bool {
    |s: Seq<char>| keep_entry(s)
}

/// The values of a sequence of strings.
pub open spec fn view_strings(s: Seq<String>) -> Seq<Seq<char>> {
    s.map_values(|x: String| x@)
}

/// Whether this entry is listed: it is non-empty and not a dotfile.
fn entry_kept(s: &String) -> (r: bool)
    ensures
        r == keep_entry(s@),
{
    broadcast use vstd::string::axiom_spec_iter, vstd::string::next_postcondition;

    let mut it = s.as_str().chars();
    match it.next() {
        Some(c) => c != '.',
        None => false,
    }
}

/// The browsable listing of a mirror: the given relative paths in order,
/// excluding empty entries and dotfiles.
pub fn browse(entries: &Vec<String>) -> (kept: Vec<String>)
    ensures
        view_strings(kept@) == view_strings(entries@).filter(keep_pred()),
{
    let mut kept: Vec<String> = Vec::new();
    let mut i: usize = 0;
    proof {
        reveal(Seq::filter);
        assert(view_strings(entries@).take(0) =~= Seq::<Seq<char>>::empty());
        assert(view_strings(kept@) =~= Seq::<Seq<char>>::empty());
    }
    while i < entries.len()
        invariant
            i <= entries@.len(),
            view_strings(kept@) == view_strings(entries@).take(i as int).filter(keep_pred()),
        decreases entries@.len() - i,
    {
        let e = &entries[i];
        proof {
            let pre = view_strings(entries@).take(i as int);
            assert(view_strings(entries@).take(i + 1) =~= pre.push(e@));
            pre.lemma_filter_push(e@, keep_pred());
        }
        if entry_kept(e) {
            let ghost prev = kept@;
            kept.push(e.clone());
            proof {
                assert(view_strings(kept@) =~= view_strings(prev).push(e@));
            }
        }
        i += 1;
    }
    proof {
        assert(view_strings(entries@).take(entries@.len() as int) =~= view_strings(entries@));
    }
    kept
}

/// The configured path of the deliverable carrying this name: the path of
/// the first deliverable of that name in configuration order, if any has
/// it.
pub fn assignment_filepath(assignments: &Vec<Assignment>, name: &String) -> (r: Option<String>)
    ensures
        r is Some <==> exists|i: int|
            0 <= i < assignments@.len() && (#[trigger] assignments@[i])@.name == name@,
        r matches Some(p) ==> exists|i: int|
            {
                &&& 0 <= i < assignments@.len()
                &&& (#[trigger] assignments@[i])@.name == name@
                &&& p@ == assignments@[i]@.filepath
                &&& forall|k: int| 0 <= k < i ==> (#[trigger] assignments@[k])@.name != name@
            },
{
    let mut i: usize = 0;
    while i < assignments.len()
        invariant
            i <= assignments@.len(),
            forall|k: int| 0 <= k < i ==> (#[trigger] assignments@[k])@.name != name@,
        decreases assignments@.len() - i,
    {
        let a = &assignments[i];
        if a.name.eq(name) {
            return Some(a.filepath.clone());
        }
        i += 1;
    }
    None
}

} // verus!
