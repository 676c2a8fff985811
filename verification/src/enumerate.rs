//! Input enumeration: turns a directory listing into the batch's work items.
//!
//! Only entries that carry the recognized input suffix become work;
//! everything else is skipped silently.  The order in which kept entries
//! appear carries no meaning downstream — outcomes may be observed in any
//! order — so keeping the listing's order here is merely convenient.

use vstd::prelude::*;

use crate::naming::NamingError;
use crate::naming::clone_bytes;
use crate::naming::derive_base_name;
use crate::naming::file_stem_of;
use crate::naming::has_input_suffix;
use crate::naming::lemma_matching_name_names_artifact;
use crate::naming::matches_input_suffix;

verus! {

/// One unit of work: an input description file, identified by its file name
/// within the input directory, together with the base name that keys its
/// output artifact.
pub struct WorkItem {
    pub file_name: Vec<u8>,
    pub base_name: Vec<u8>,
}

/// The mathematical content of a work item.
pub ghost struct WorkItemView {
    pub file_name: Seq<u8>,
    pub base_name: Seq<u8>,
}

impl WorkItemView {
    /// The base name is the stem of the file name, and it is never empty.
    pub open spec fn wf(self) -> bool {
        &&& self.base_name == file_stem_of(self.file_name)
        &&& self.base_name.len() > 0
    }
}

impl View for WorkItem {
    type V = WorkItemView;

    open spec fn view(&self) -> WorkItemView {
        WorkItemView { file_name: self.file_name@, base_name: self.base_name@ }
    }
}

impl WorkItem {
    pub open spec fn wf(self) -> bool {
        self@.wf()
    }

    /// Builds the work item for one directory entry, deriving its base name.
    /// Fails exactly when the entry's name has no non-empty stem.
    pub fn new(file_name: Vec<u8>) -> (r: Result<WorkItem, NamingError>)
        ensures
            r is Ok <==> file_stem_of(file_name@).len() > 0,
            r matches Ok(item) ==> item.wf() && item@.file_name == file_name@,
    {
        match derive_base_name(&file_name) {
            Ok(base) => Ok(WorkItem { file_name, base_name: base }),
            Err(e) => Err(e),
        }
    }
}

/// The file names that the suffix filter keeps, in order of appearance.
pub open spec fn selected_names(names: Seq<Seq<u8>>) -> Seq<Seq<u8>>
    decreases names.len(),
{
    if names.len() == 0 {
        Seq::empty()
    } else if has_input_suffix(names.last()) {
        selected_names(names.drop_last()).push(names.last())
    } else {
        selected_names(names.drop_last())
    }
}

/// Filters a directory listing down to the recognized input files and builds
/// one work item per kept entry.  Entries without the suffix are skipped
/// silently; a kept entry always yields a work item, since a name with an
/// extension has a non-empty stem.
pub fn select_inputs(names: &Vec<Vec<u8>>) -> (items: Vec<WorkItem>)
    ensures
        items@.map_values(|w: WorkItem| w@.file_name) == selected_names(
            names@.map_values(|n: Vec<u8>| n@),
        ),
        forall|k: int| 0 <= k < items@.len() ==> (#[trigger] items@[k]).wf(),
{
    let ghost gnames = names@.map_values(|n: Vec<u8>| n@);
    let mut items: Vec<WorkItem> = Vec::new();
    let mut i: usize = 0;
    proof {
        assert(items@.map_values(|w: WorkItem| w@.file_name) =~= selected_names(
            gnames.take(0int)));
    }
    while i < names.len()
        invariant
            i <= names@.len(),
            gnames == names@.map_values(|n: Vec<u8>| n@),
            items@.map_values(|w: WorkItem| w@.file_name) == selected_names(
                gnames.take(i as int)),
            forall|k: int| 0 <= k < items@.len() ==> (#[trigger] items@[k]).wf(),
        decreases names@.len() - i,
    {
        proof {
            assert(gnames[i as int] == names@[i as int]@);
            assert(gnames.take(i as int + 1).drop_last() =~= gnames.take(i as int));
            assert(gnames.take(i as int + 1).last() == gnames[i as int]);
        }
        let name = &names[i];
        if matches_input_suffix(name) {
            proof {
                lemma_matching_name_names_artifact(gnames[i as int]);
            }
            let ghost prev = items@;
            let copied = clone_bytes(name);
            match WorkItem::new(copied) {
                Ok(item) => {
                    items.push(item);
                    proof {
                        assert(items@.map_values(|w: WorkItem| w@.file_name) =~= prev
                            .map_values(|w: WorkItem| w@.file_name).push(gnames[i as int]));
                    }
                },
                Err(_) => {
                    proof {
                        assert(false);
                    }
                },
            }
        }
        i = i + 1;
    }
    proof {
        assert(gnames.take(gnames.len() as int) =~= gnames);
    }
    items
}

/// A listing in which no entry carries the input suffix selects no work at
/// all: the batch over it has nothing to run and nothing to produce.
pub proof fn lemma_no_match_selects_nothing(names: Seq<Seq<u8>>)
    requires
        forall|i: int| 0 <= i < names.len() ==> !has_input_suffix(#[trigger] names[i]),
    ensures
        selected_names(names) == Seq::<Seq<u8>>::empty(),
    decreases names.len(),
{
    if names.len() == 0 {
    } else {
        assert forall|i: int| 0 <= i < names.drop_last().len() implies !has_input_suffix(
            #[trigger] names.drop_last()[i]) by {
            assert(names.drop_last()[i] == names[i]);
        }
        lemma_no_match_selects_nothing(names.drop_last());
        assert(names.last() == names[names.len() - 1]);
    }
}

} // verus!
