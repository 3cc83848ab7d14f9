//! A discovered media file on its way to a dated directory.

use vstd::prelude::*;
use vstd::string::*;
use crate::date::CaptureDate;

verus! {

/// One media file that was found in the source, before or after a destination was planned
/// for it.
///
/// A photo is read from `path`. When it was unpacked from an archive, `path` is a temporary
/// file, and `original_name` keeps the name that the file had in the archive.
/// A destination is only ever planned for a photo whose capture date is known.
#[derive(Debug)]
pub struct Photo {
    path: String,
    original_name: Option<String>,
    date: Option<CaptureDate>,
    new_path: Option<String>,
}

/// What a photo holds, as plain values.
pub struct PhotoView {
    pub path: Seq<char>,
    pub original_name: Option<Seq<char>>,
    pub date: Option<CaptureDate>,
    pub new_path: Option<Seq<char>>,
}

impl View for Photo {
    type V = PhotoView;

    closed spec fn view(&self) -> PhotoView {
        PhotoView {
            path: self.path@,
            original_name: match self.original_name {
                Some(name) => Some(name@),
                None => None,
            },
            date: self.date,
            new_path: match (self.date, self.new_path) {
                (Some(_), Some(dest)) => Some(dest@),
                _ => None,
            },
        }
    }
}

impl PhotoView {
    /// Whether a destination was planned only with a capture date at hand.
    pub open spec fn wf(self) -> bool {
        self.new_path is Some ==> self.date is Some
    }
}

impl Photo {
    #[verifier::type_invariant]
    pub closed spec fn wf(self) -> bool {
        self.new_path is Some ==> self.date is Some
    }

    /// A photo with a planned destination has a capture date.
    pub proof fn lemma_planned_has_date(self)
        ensures
            self@.wf(),
    {
    }

    /// A photo found at `path`, with the capture date that its metadata gave.
    pub fn new(path: String, date: Option<CaptureDate>) -> (photo: Photo)
        ensures
            photo@ == (PhotoView { path: path@, original_name: None, date, new_path: None }),
    {
        Photo { path, original_name: None, date, new_path: None }
    }

    /// A photo that was unpacked from an archive to `path`, where it was called
    /// `original_name`.
    pub fn from_archive(path: String, original_name: String, date: Option<CaptureDate>) -> (photo:
        Photo)
        ensures
            photo@ == (PhotoView {
                path: path@,
                original_name: Some(original_name@),
                date,
                new_path: None,
            }),
    {
        Photo { path, original_name: Some(original_name), date, new_path: None }
    }

    /// Where the photo's bytes are read from.
    pub fn path(&self) -> (path: &str)
        ensures
            path@ == self@.path,
    {
        self.path.as_str()
    }

    /// The name that the photo had in its archive, if it came from one.
    pub fn original_name(&self) -> (name: Option<&str>)
        ensures
            name is Some <==> self@.original_name is Some,
            name matches Some(n) ==> Some(n@) == self@.original_name,
    {
        match &self.original_name {
            Some(name) => Some(name.as_str()),
            None => None,
        }
    }

    /// The capture date, if the metadata gave one.
    pub fn date(&self) -> (date: Option<CaptureDate>)
        ensures
            date == self@.date,
    {
        self.date
    }

    /// The planned destination, if there is one. A photo without a capture date has none.
    pub fn new_path(&self) -> (dest: Option<&str>)
        ensures
            dest is Some <==> self@.new_path is Some,
            dest matches Some(d) ==> Some(d@) == self@.new_path,
    {
        proof {
            use_type_invariant(self);
        }
        match &self.new_path {
            Some(dest) => Some(dest.as_str()),
            None => None,
        }
    }

    /// Records `new_path` as the destination of the photo, if its capture date is known.
    /// A photo without a capture date is left without a destination.
    pub fn set_new_path(&mut self, new_path: String) -> (assigned: bool)
        ensures
            assigned == old(self)@.date is Some,
            assigned ==> final(self)@ == (PhotoView { new_path: Some(new_path@), ..old(self)@ }),
            !assigned ==> final(self)@ == old(self)@,
    {
        if self.date.is_some() {
            self.new_path = Some(new_path);
            true
        } else {
            false
        }
    }
}

} // verus!
