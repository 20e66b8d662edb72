//! Files that a picker, a drop or the clipboard handed over.

use vstd::prelude::*;

use crate::media::{kind_for, kind_of, OutgoingMedia};

verus! {

/// One accepted file.
#[derive(Debug)]
pub struct Picked {
    pub file_name: String,
    pub mime_type: String,
    /// The category selected before choosing. It is authoritative: the MIME
    /// type describes the bytes and overrides nothing.
    pub kind: OutgoingMedia,
    pub bytes: Vec<u8>,
}

/// The mathematical model of a [`Picked`].
pub struct PickedFile {
    pub file_name: Seq<char>,
    pub mime_type: Seq<char>,
    pub kind: OutgoingMedia,
    pub bytes: Seq<u8>,
}

impl View for Picked {
    type V = PickedFile;

    open spec fn view(&self) -> PickedFile {
        PickedFile {
            file_name: self.file_name@,
            mime_type: self.mime_type@,
            kind: self.kind,
            bytes: self.bytes@,
        }
    }
}

/// The models of a run of files, in the same order.
pub open spec fn file_models(files: Seq<Picked>) -> Seq<PickedFile> {
    Seq::new(files.len(), |i: int| files[i]@)
}

impl Picked {
    /// A file whose kind follows from its MIME type.
    pub fn automatic(file_name: String, mime_type: String, bytes: Vec<u8>) -> (file: Picked)
        ensures
            file@ == (PickedFile {
                file_name: file_name@,
                mime_type: mime_type@,
                kind: kind_of(mime_type@),
                bytes: bytes@,
            }),
    {
        let kind = kind_for(mime_type.as_str());
        Picked { file_name, mime_type, kind, bytes }
    }
}

impl Clone for Picked {
    fn clone(&self) -> (copy: Self)
        ensures
            copy@ == self@,
    {
        let bytes = self.bytes.clone();
        assert(bytes@ =~= self.bytes@);
        Picked {
            file_name: self.file_name.clone(),
            mime_type: self.mime_type.clone(),
            kind: self.kind,
            bytes,
        }
    }
}

/// What came back from choosing: the files that were accepted, and one line
/// for each that was not.
#[derive(Debug)]
pub struct Chosen {
    pub files: Vec<Picked>,
    pub refused: Vec<String>,
}

/// The mathematical model of a [`Chosen`].
pub struct Choice {
    pub files: Seq<PickedFile>,
    pub refused: Seq<Seq<char>>,
}

/// The characters of a run of strings.
pub open spec fn texts(lines: Seq<String>) -> Seq<Seq<char>> {
    Seq::new(lines.len(), |i: int| lines[i]@)
}

impl View for Chosen {
    type V = Choice;

    open spec fn view(&self) -> Choice {
        Choice { files: file_models(self.files@), refused: texts(self.refused@) }
    }
}

impl Chosen {
    /// Whether the chooser was dismissed: nothing accepted, nothing refused.
    pub fn is_empty(&self) -> (empty: bool)
        ensures
            empty == (self@.files.len() == 0 && self@.refused.len() == 0),
    {
        self.files.len() == 0 && self.refused.len() == 0
    }
}

/// Law: the model of a file holds every field of it.
pub proof fn the_model_of_a_file_is_whole(file: Picked)
    ensures
        file@.file_name == file.file_name@,
        file@.mime_type == file.mime_type@,
        file@.kind == file.kind,
        file@.bytes == file.bytes@,
{
}

/// Law: a run of files is modelled file by file, in the same order.
pub proof fn files_are_modelled_one_by_one(files: Seq<Picked>, i: int)
    ensures
        file_models(files).len() == files.len(),
        0 <= i < files.len() ==> file_models(files)[i] == files[i]@,
{
}

/// Law: a choice is modelled by every accepted file and every refusal, in the
/// same order.
pub proof fn the_model_of_a_choice_is_whole(chosen: Chosen, i: int)
    ensures
        chosen@.files.len() == chosen.files@.len(),
        chosen@.refused.len() == chosen.refused@.len(),
        0 <= i < chosen.files@.len() ==> chosen@.files[i] == chosen.files@[i]@,
        0 <= i < chosen.refused@.len() ==> chosen@.refused[i] == chosen.refused@[i]@,
{
}

} // verus!
