//! The bookkeeping of a multipart form upload: which parts are kept as
//! files, the text fields (the last value of a name wins), and whether every
//! required file arrived.

use vstd::prelude::*;
use crate::text::views;

verus! {

/// The map from field names to values that a list of distinct-named pairs
/// stands for.
pub open spec fn pairs_map(pairs: Seq<(String, String)>) -> Map<Seq<char>, Seq<char>>
    decreases pairs.len(),
{
    if pairs.len() == 0 {
        Map::empty()
    } else {
        pairs_map(pairs.drop_last()).insert(pairs.last().0@, pairs.last().1@)
    }
}

/// The names of a list of pairs.
pub open spec fn pair_names(pairs: Seq<(String, String)>) -> Seq<Seq<char>> {
    pairs.map_values(|p: (String, String)| p.0@)
}

/// Why a multipart form was refused.
#[derive(Debug, Clone, Copy, PartialEq, Eq, Structural)]
pub enum ParseMultipartError {
    /// Not every required file was uploaded.
    MissingRequiredFiles,
}

/// What to do with one part of a form.
#[derive(Debug, Clone, Copy, PartialEq, Eq, Structural)]
pub enum FieldAction {
    /// Read the part's bytes and keep them as the file of that name.
    KeepFile,
    /// Read the part as text and keep it as the field of that name.
    ReadText,
    /// A file that was not asked for: skip it.
    Skip,
}

/// The state of reading a multipart form.
pub struct MultipartCollector {
    file_list: Vec<String>,
    fields: Vec<(String, String)>,
    files: Vec<String>,
}

impl MultipartCollector {
    /// The names of the required files.
    pub closed spec fn required_files(&self) -> Seq<Seq<char>> {
        views(self.file_list@)
    }

    /// The text fields read so far.
    pub closed spec fn field_map(&self) -> Map<Seq<char>, Seq<char>> {
        pairs_map(self.fields@)
    }

    /// The names of the files kept so far.
    pub closed spec fn kept_files(&self) -> Set<Seq<char>> {
        views(self.files@).to_set()
    }

    /// Field names and kept file names each occur once.
    #[verifier::type_invariant]
    spec fn wf(&self) -> bool {
        &&& pair_names(self.fields@).no_duplicates()
        &&& views(self.files@).no_duplicates()
    }

    /// Starts reading a form whose required files are `file_list`.
    pub fn new(file_list: Vec<String>) -> (r: MultipartCollector)
        ensures
            r.required_files() == views(file_list@),
            r.field_map() == Map::<Seq<char>, Seq<char>>::empty(),
            r.kept_files() == Set::<Seq<char>>::empty(),
    {
        let r = MultipartCollector { file_list, fields: Vec::new(), files: Vec::new() };
        assert(views(r.files@) =~= Seq::<Seq<char>>::empty());
        assert(views(r.files@).to_set() =~= Set::<Seq<char>>::empty());
        assert(pair_names(r.fields@) =~= Seq::<Seq<char>>::empty());
        r
    }

    /// What to do with a part named `name`: a file part is kept when it is
    /// required and skipped otherwise; any other part is a text field.
    pub fn classify(&self, name: &String, is_file: bool) -> (r: FieldAction)
        ensures
            is_file && self.required_files().contains(name@) ==> r == FieldAction::KeepFile,
            is_file && !self.required_files().contains(name@) ==> r == FieldAction::Skip,
            !is_file ==> r == FieldAction::ReadText,
    {
        if !is_file {
            return FieldAction::ReadText;
        }
        let mut i: usize = 0;
        while i < self.file_list.len()
            invariant
                is_file,
                i <= self.file_list.len(),
                forall|j: int| 0 <= j < i ==> self.file_list@[j]@ != name@,
            decreases self.file_list.len() - i,
        {
            if self.file_list[i] == *name {
                assert(views(self.file_list@)[i as int] == name@);
                assert(self.required_files().contains(name@));
                return FieldAction::KeepFile;
            }
            i = i + 1;
        }
        assert forall|j: int| 0 <= j < views(self.file_list@).len() implies views(
            self.file_list@,
        )[j] != name@ by {
            assert(views(self.file_list@)[j] == self.file_list@[j]@);
        }
        FieldAction::Skip
    }

    /// Records a text field; a later value of a name replaces the earlier.
    pub fn record_text(&mut self, name: String, value: String)
        ensures
            final(self).required_files() == old(self).required_files(),
            final(self).field_map() == old(self).field_map().insert(name@, value@),
            final(self).kept_files() == old(self).kept_files(),
    {
        proof {
            use_type_invariant(&*self);
        }
        let ghost old_fields = self.fields@;
        let mut fields: Vec<(String, String)> = Vec::new();
        std::mem::swap(&mut fields, &mut self.fields);
        let mut i: usize = 0;
        while i < fields.len()
            invariant
                fields@ == old_fields,
                old_fields == old(self).fields@,
                pair_names(old_fields).no_duplicates(),
                self.file_list == old(self).file_list,
                self.files == old(self).files,
                views(self.files@).no_duplicates(),
                i <= fields.len(),
                forall|j: int| 0 <= j < i ==> fields@[j].0@ != name@,
            decreases fields.len() - i,
        {
            if fields[i].0 == name {
                proof {
                    lemma_pairs_map_update(old_fields, i as int, name, value);
                }
                fields.set(i, (name, value));
                assert(fields@ =~= old_fields.update(i as int, (name, value)));
                assert(pair_names(fields@) =~= pair_names(old_fields));
                self.fields = fields;
                return;
            }
            i = i + 1;
        }
        fields.push((name, value));
        assert(fields@.drop_last() =~= old_fields);
        assert(pair_names(fields@) =~= pair_names(old_fields).push(name@));
        assert forall|j: int| 0 <= j < pair_names(old_fields).len() implies pair_names(
            old_fields,
        )[j] != name@ by {
            assert(pair_names(old_fields)[j] == old_fields[j].0@);
        }
        self.fields = fields;
    }

    /// Records that the required file `name` was read.
    pub fn record_file(&mut self, name: String)
        ensures
            final(self).required_files() == old(self).required_files(),
            final(self).field_map() == old(self).field_map(),
            final(self).kept_files() == old(self).kept_files().insert(name@),
    {
        proof {
            use_type_invariant(&*self);
        }
        let mut i: usize = 0;
        while i < self.files.len()
            invariant
                *self == *old(self),
                views(self.files@).no_duplicates(),
                i <= self.files.len(),
                forall|j: int| 0 <= j < i ==> self.files@[j]@ != name@,
            decreases self.files.len() - i,
        {
            if self.files[i] == name {
                assert(views(self.files@)[i as int] == name@);
                assert(views(self.files@).to_set().contains(name@));
                assert(views(self.files@).to_set().insert(name@) =~= views(self.files@).to_set());
                return;
            }
            i = i + 1;
        }
        let ghost old_views = views(self.files@);
        let mut files: Vec<String> = Vec::new();
        std::mem::swap(&mut files, &mut self.files);
        files.push(name);
        assert(views(files@) =~= old_views + seq![name@]);
        proof {
            Seq::<Seq<char>>::lemma_to_set_insert_commutes(old_views, name@);
            assert forall|j: int| 0 <= j < old_views.len() implies old_views[j] != name@ by {
                assert(old_views[j] == old(self).files@[j]@);
            }
        }
        assert(views(files@).to_set() =~= old_views.to_set().insert(name@));
        self.files = files;
    }

    /// Finishes reading the form: the text fields, when every required file
    /// arrived (as many distinct files as required names), else
    /// `MissingRequiredFiles`.
    pub fn finish(self) -> (r: Result<Vec<(String, String)>, ParseMultipartError>)
        ensures
            r is Ok <==> self.required_files().len() == self.kept_files().len(),
            r matches Ok(fields) ==> pairs_map(fields@) == self.field_map() && pair_names(
                fields@,
            ).no_duplicates(),
            r matches Err(e) ==> e == ParseMultipartError::MissingRequiredFiles,
    {
        proof {
            use_type_invariant(&self);
            assert(views(self.files@).no_duplicates());
            views(self.files@).unique_seq_to_set();
            assert(views(self.files@).len() == self.files@.len());
            assert(views(self.file_list@).len() == self.file_list@.len());
        }
        if self.file_list.len() != self.files.len() {
            return Err(ParseMultipartError::MissingRequiredFiles);
        }
        Ok(self.fields)
    }
}

proof fn lemma_pairs_map_update(pairs: Seq<(String, String)>, i: int, name: String, value: String)
    requires
        0 <= i < pairs.len(),
        pairs[i].0@ == name@,
        pair_names(pairs).no_duplicates(),
    ensures
        pairs_map(pairs.update(i, (name, value))) == pairs_map(pairs).insert(name@, value@),
    decreases pairs.len(),
{
    let up = pairs.update(i, (name, value));
    if i == pairs.len() - 1 {
        assert(up.drop_last() =~= pairs.drop_last());
        assert(pairs_map(up) =~= pairs_map(pairs).insert(name@, value@));
    } else {
        assert(up.drop_last() =~= pairs.drop_last().update(i, (name, value)));
        assert(pair_names(pairs.drop_last()) =~= pair_names(pairs).drop_last());
        lemma_pairs_map_update(pairs.drop_last(), i, name, value);
        assert(pair_names(pairs)[i] != pair_names(pairs)[pairs.len() - 1]);
        assert(pairs_map(up) =~= pairs_map(pairs).insert(name@, value@));
    }
}

} // verus!
