//! The command dispatcher's decisions.
//!
//! Two user intents reach the presenter: open a project by name, and
//! create a fresh project. Opening runs in three steps, each of which can
//! fail on its own: list the backend's projects, match the requested name
//! against the listing, open the matched identifier. The listing and open
//! calls are asynchronous backend work; the matching step, and the
//! reaction to each outcome, are decided here.

use vstd::prelude::*;
use crate::errors::BackendError;
use crate::errors::listing_failure_message;
use crate::errors::listing_failure_report;
use crate::errors::project_not_found_message;
use crate::errors::project_not_found_report;

verus! {

/// One row of the backend's project listing: a display name and the
/// identifier to open the project by.
#[derive(Debug)]
pub struct ProjectEntry {
    pub name: String,
    pub id: u64,
}

/// The mathematical shape of a listing row.
pub struct ProjectEntryView {
    pub name: Seq<char>,
    pub id: u64,
}

impl DeepView for ProjectEntry {
    type V = ProjectEntryView;

    open spec fn deep_view(&self) -> ProjectEntryView {
        ProjectEntryView { name: self.name@, id: self.id }
    }
}

/// The identifier of the first listing row whose name equals `name`
/// exactly, comparing case-sensitively; nothing when no row matches.
pub open spec fn find_project(listing: Seq<ProjectEntryView>, name: Seq<char>) -> Option<u64>
    decreases listing.len(),
{
    if listing.len() == 0 {
        None
    } else if listing.first().name == name {
        Some(listing.first().id)
    } else {
        find_project(listing.drop_first(), name)
    }
}

/// The names of a listing, in listing order.
pub open spec fn names_of(listing: Seq<ProjectEntryView>) -> Seq<Seq<char>> {
    listing.map_values(|p: ProjectEntryView| p.name)
}

/// What the dispatcher does with the listing it asked for on behalf of
/// an open request.
#[derive(Debug)]
pub enum OpenDecision {
    /// The name matched: open the project with this identifier.
    OpenWithId { id: u64 },
    /// The name matched nothing, or the listing call itself failed:
    /// publish this report on the status channel.
    Report { message: String },
}

/// Find the requested project in a listing that arrived.
pub fn find_project_id(listing: &Vec<ProjectEntry>, name: &String) -> (found: Option<u64>)
    ensures
        found == find_project(listing.deep_view(), name@),
{
    let n = listing.len();
    let mut i: usize = 0;
    proof {
        assert(listing.deep_view().skip(0) =~= listing.deep_view());
    }
    while i < n
        invariant
            i <= n,
            n == listing@.len(),
            find_project(listing.deep_view(), name@) == find_project(
                listing.deep_view().skip(i as int),
                name@,
            ),
        decreases n - i,
    {
        proof {
            let dv = listing.deep_view();
            assert(dv.skip(i as int).first() == dv[i as int]);
            assert(dv.skip(i as int).drop_first() =~= dv.skip(i + 1));
        }
        if listing[i].name == *name {
            return Some(listing[i].id);
        }
        i = i + 1;
    }
    proof {
        assert(listing.deep_view().skip(n as int).len() == 0);
    }
    None
}

/// Decide the reaction to the listing step of an open request: open the
/// matched identifier, or report the step that failed.
pub fn plan_open(
    name: &String,
    listing: Result<Vec<ProjectEntry>, BackendError>,
) -> (decision: OpenDecision)
    ensures
        listing matches Ok(l) ==> match find_project(l.deep_view(), name@) {
            Some(id) => decision == (OpenDecision::OpenWithId { id }),
            None => decision matches OpenDecision::Report { message } && message@
                == project_not_found_message(name@),
        },
        listing matches Err(e) ==> decision matches OpenDecision::Report { message } && message@
            == listing_failure_message(e.deep_view()),
{
    match listing {
        Ok(l) => match find_project_id(&l, name) {
            Some(id) => OpenDecision::OpenWithId { id },
            None => OpenDecision::Report { message: project_not_found_report(name.as_str()) },
        },
        Err(e) => OpenDecision::Report { message: listing_failure_report(&e) },
    }
}

/// The names to show on the welcome screen, in listing order.
pub fn project_names(listing: &Vec<ProjectEntry>) -> (names: Vec<String>)
    ensures
        names.deep_view() == names_of(listing.deep_view()),
{
    let n = listing.len();
    let mut names: Vec<String> = Vec::new();
    let mut i: usize = 0;
    while i < n
        invariant
            i <= n,
            n == listing@.len(),
            names.deep_view() =~= names_of(listing.deep_view().take(i as int)),
        decreases n - i,
    {
        names.push(listing[i].name.clone());
        proof {
            let dv = listing.deep_view();
            assert(dv.take(i + 1).drop_last() =~= dv.take(i as int));
            assert(names.deep_view() =~= names_of(dv.take(i as int)).push(dv[i as int].name));
            assert(names_of(dv.take(i + 1)) =~= names_of(dv.take(i as int)).push(
                dv[i as int].name,
            ));
        }
        i = i + 1;
    }
    proof {
        assert(listing.deep_view().take(n as int) =~= listing.deep_view());
    }
    names
}

/// Law: an open request issues an open call exactly when some row of the
/// listing carries the requested name, and then for the identifier of
/// the first such row.
pub proof fn lemma_open_call_iff_name_listed(listing: Seq<ProjectEntryView>, name: Seq<char>)
    ensures
        find_project(listing, name) is Some <==> exists|i: int|
            0 <= i < listing.len() && (#[trigger] listing[i]).name == name,
        find_project(listing, name) matches Some(id) ==> exists|i: int|
            0 <= i < listing.len() && (#[trigger] listing[i]).name == name && listing[i].id == id
                && forall|j: int| 0 <= j < i ==> (#[trigger] listing[j]).name != name,
    decreases listing.len(),
{
    if listing.len() > 0 && listing.first().name != name {
        lemma_open_call_iff_name_listed(listing.drop_first(), name);
        assert forall|i: int|
            0 <= i < listing.drop_first().len() && (#[trigger] listing.drop_first()[i]).name
                == name implies listing[i + 1].name == name by {}
        if find_project(listing, name) is Some {
            let id = find_project(listing, name)->Some_0;
            let i = choose|i: int|
                0 <= i < listing.drop_first().len() && (#[trigger] listing.drop_first()[i]).name
                    == name && listing.drop_first()[i].id == id && forall|j: int|
                    0 <= j < i ==> (#[trigger] listing.drop_first()[j]).name != name;
            assert(listing[i + 1].name == name && listing[i + 1].id == id);
            assert forall|j: int| 0 <= j < i + 1 implies (#[trigger] listing[j]).name != name by {
                if j > 0 {
                    assert(listing.drop_first()[j - 1] == listing[j]);
                }
            }
        }
        if exists|i: int| 0 <= i < listing.len() && (#[trigger] listing[i]).name == name {
            let i = choose|i: int| 0 <= i < listing.len() && (#[trigger] listing[i]).name == name;
            assert(i > 0);
            assert(listing.drop_first()[i - 1] == listing[i]);
        }
    }
}

} // verus!
