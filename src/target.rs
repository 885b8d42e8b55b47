//! Finding the cell that the registry runs in, before anything is published.
use vstd::prelude::*;
use crate::publisher::{Procedure, PublishError};

verus! {

/// What the conductor answered about an installed application.
#[derive(Clone, Debug, PartialEq, Eq)]
pub enum AppInfo {
    /// The application exists; the package hashes of its cells, in order.
    Found(Vec<String>),
    /// No application is installed under the identifier asked for.
    Missing,
    /// The conductor refused the query, with its message.
    Remote(String),
    /// An answer of another kind than application information.
    Unexpected,
    /// The connection failed, with the transport's message.
    Transport(String),
}

/// No cell in `cells` runs the package with hash `dna_hash`.
pub open spec fn no_cell_for(dna_hash: Seq<char>, cells: Seq<String>) -> bool {
    forall|j: int| 0 <= j < cells.len() ==> #[trigger] cells[j]@ != dna_hash
}

/// The position of the first cell in `cells` (given by their package hashes)
/// that runs the package with hash `dna_hash`.
pub fn find_cell_for_dna(dna_hash: &String, cells: &Vec<String>) -> (r: Result<usize, PublishError>)
    ensures
        r is Err <==> no_cell_for(dna_hash@, cells@),
        r matches Ok(i) ==> {
            &&& i < cells@.len()
            &&& cells@[i as int]@ == dna_hash@
            &&& no_cell_for(dna_hash@, cells@.take(i as int))
        },
        r matches Err(e) ==> (e matches PublishError::CellNotFound(h) && h@ == dna_hash@),
{
    let mut i: usize = 0;
    while i < cells.len()
        invariant
            i <= cells@.len(),
            no_cell_for(dna_hash@, cells@.take(i as int)),
        decreases cells@.len() - i,
    {
        if cells[i] == *dna_hash {
            return Ok(i);
        }
        assert(cells@.take(i + 1) =~= cells@.take(i as int).push(cells@[i as int]));
        i = i + 1;
    }
    assert(cells@.take(i as int) =~= cells@);
    Err(PublishError::CellNotFound(dna_hash.clone()))
}

/// The position of the cell of the installed application `installed_app_id`
/// that runs the package with hash `dna_hash`, from the conductor's answer `info`.
pub fn locate_cell(info: AppInfo, installed_app_id: &String, dna_hash: &String) -> (r: Result<usize, PublishError>)
    ensures
        info matches AppInfo::Found(cells) ==> {
            &&& r is Err <==> no_cell_for(dna_hash@, cells@)
            &&& r matches Ok(i) ==> i < cells@.len() && cells@[i as int]@ == dna_hash@
                && no_cell_for(dna_hash@, cells@.take(i as int))
            &&& r matches Err(e) ==> (e matches PublishError::CellNotFound(h) && h@ == dna_hash@)
        },
        info is Missing ==> (r matches Err(PublishError::AppNotFound(a)) && a@ == installed_app_id@),
        info matches AppInfo::Remote(m) ==> r == Err::<usize, PublishError>(
            PublishError::Remote { procedure: Procedure::AppInfo, unit: None, message: m },
        ),
        info is Unexpected ==> r == Err::<usize, PublishError>(
            PublishError::ProtocolMismatch { procedure: Procedure::AppInfo, unit: None },
        ),
        info matches AppInfo::Transport(m) ==> r == Err::<usize, PublishError>(PublishError::Connection(m)),
{
    match info {
        AppInfo::Found(cells) => find_cell_for_dna(dna_hash, &cells),
        AppInfo::Missing => Err(PublishError::AppNotFound(installed_app_id.clone())),
        AppInfo::Remote(message) => Err(
            PublishError::Remote { procedure: Procedure::AppInfo, unit: None, message },
        ),
        AppInfo::Unexpected => Err(PublishError::ProtocolMismatch { procedure: Procedure::AppInfo, unit: None }),
        AppInfo::Transport(message) => Err(PublishError::Connection(message)),
    }
}

} // verus!
