use vstd::prelude::*;

verus! {

/// What is known of one directory entry: a regular file, a directory, some
/// other kind of entry, or an entry whose type metadata could not be read.
pub enum EntryKind {
    RegularFile,
    Directory,
    Other,
    Unreadable,
}

/// One directory entry as handed in by the surrounding I/O layer: its name,
/// where it is valid UTF-8, and what kind of entry it is.
pub struct DirEntryInfo {
    pub name: Option<String>,
    pub kind: EntryKind,
}

/// Whether an entry belongs in the listing: a regular file with a valid
/// UTF-8 name.
pub open spec fn is_listed(e: DirEntryInfo) -> bool {
    e.kind == EntryKind::RegularFile && e.name is Some
}

/// The names of the listed entries, in order: directories, other entry
/// kinds, unreadable entries and nameless entries are skipped.
pub open spec fn listed_names(entries: Seq<DirEntryInfo>) -> Seq<Seq<char>>
    decreases entries.len(),
{
    if entries.len() == 0 {
        Seq::empty()
    } else {
        listed_names(entries.drop_last()) + if is_listed(entries.last()) {
            seq![entries.last().name->0@]
        } else {
            Seq::empty()
        }
    }
}

/// Filters a directory's entries down to the names of its regular files,
/// keeping their order.
pub fn collect_file_names(entries: &Vec<DirEntryInfo>) -> (r: Vec<String>)
    ensures
        r.deep_view() == listed_names(entries@),
{
    let mut file_names: Vec<String> = Vec::new();
    let mut i: usize = 0;
    while i < entries.len()
        invariant
            0 <= i <= entries.len(),
            file_names.deep_view() == listed_names(entries@.take(i as int)),
        decreases entries.len() - i,
    {
        let e = &entries[i];
        let listed = match e.kind {
            EntryKind::RegularFile => true,
            _ => false,
        };
        if listed {
            match &e.name {
                Some(n) => {
                    let ghost before = file_names.deep_view();
                    file_names.push(n.clone());
                    proof {
                        assert(file_names.deep_view() =~= before + seq![n@]);
                    }
                },
                None => {},
            }
        }
        proof {
            assert(entries@.take(i + 1).drop_last() =~= entries@.take(i as int));
            assert(entries@.take(i + 1).last() == entries@[i as int]);
        }
        i += 1;
    }
    proof {
        assert(entries@.take(entries.len() as int) =~= entries@);
    }
    file_names
}

} // verus!
