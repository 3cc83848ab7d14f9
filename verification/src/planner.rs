//! Path planning: from a capture date and a name to a place in the dated tree.
//!
//! A photo taken on 4 May 2023 and called `a.jpg` belongs at `<root>/2023/05/04/a.jpg`.
//! A photo without a capture date is given no place at all: no date is ever made up.

use vstd::prelude::*;
use vstd::string::*;
use crate::date::CaptureDate;
use crate::decimal::{
    lemma_zero_padded_is_digits, lemma_zero_padded_two_digits, push_signed_decimal,
    push_zero_padded, signed_decimal, zero_padded,
};
use crate::path::{
    file_name, file_name_of, is_plain_name, lemma_file_name_is_plain, lemma_path_of_dir_and_name,
    parent_of,
};
use crate::photo::{Photo, PhotoView};
use crate::text::{opt_str, opt_text};

verus! {

/// The directory of one day: `<root>/<year>/<month>/<day>`, month and day in two digits.
pub open spec fn dated_dir(root: Seq<char>, date: CaptureDate) -> Seq<char> {
    root + seq!['/'] + signed_decimal(date.year() as int) + seq!['/'] + zero_padded(
        date.month() as nat,
    ) + seq!['/'] + zero_padded(date.day() as nat)
}

/// The place of the file `name` in the directory of its day.
pub open spec fn planned_path(root: Seq<char>, date: CaptureDate, name: Seq<char>) -> Seq<char> {
    dated_dir(root, date) + seq!['/'] + name
}

/// The name under which a photo is filed: the name it had in its archive if one is given,
/// else the file name of its path. A photo whose path has no file name cannot be filed.
pub open spec fn display_name(path: Seq<char>, original_name: Option<Seq<char>>) -> Option<
    Seq<char>,
> {
    match file_name_of(path) {
        Some(own) => Some(
            match original_name {
                Some(name) => name,
                None => own,
            },
        ),
        None => None,
    }
}

/// The destination of a photo below `root`, if it has both a capture date and a name.
pub open spec fn plan_of(
    root: Seq<char>,
    path: Seq<char>,
    date: Option<CaptureDate>,
    original_name: Option<Seq<char>>,
) -> Option<Seq<char>> {
    match (date, display_name(path, original_name)) {
        (Some(d), Some(name)) => Some(planned_path(root, d, name)),
        _ => None,
    }
}

/// A photo after planning: it has the destination that `plan_of` gives, and stays as it was
/// when there is none.
pub open spec fn planned(root: Seq<char>, photo: PhotoView, original_name: Option<Seq<char>>)
    -> PhotoView {
    match plan_of(root, photo.path, photo.date, original_name) {
        Some(dest) => PhotoView { new_path: Some(dest), ..photo },
        None => photo,
    }
}

/// Writes out the place of the file `name` in the directory of `date` below `dest_dir`.
pub fn dated_path(dest_dir: &str, date: CaptureDate, name: &str) -> (dest: String)
    ensures
        dest@ == planned_path(dest_dir@, date, name@),
{
    proof {
        reveal_strlit("/");
    }
    let mut dest = String::from_str(dest_dir);
    dest.append("/");
    push_signed_decimal(&mut dest, date.year());
    dest.append("/");
    push_zero_padded(&mut dest, date.month());
    dest.append("/");
    push_zero_padded(&mut dest, date.day());
    dest.append("/");
    dest.append(name);
    dest
}

/// Plans the destination of `photo` below `dest_dir`.
///
/// Returns `None` when the photo has no capture date or its path has no file name.
/// `original_name`, when given, is the name to file the photo under.
pub fn plan(dest_dir: &str, photo: &Photo, original_name: Option<&str>) -> (dest: Option<String>)
    ensures
        opt_text(dest) == plan_of(dest_dir@, photo@.path, photo@.date, opt_str(original_name)),
{
    match file_name(photo.path()) {
        None => None,
        Some(own) => {
            match photo.date() {
                None => None,
                Some(date) => {
                    let dest = match original_name {
                        Some(name) => dated_path(dest_dir, date, name),
                        None => dated_path(dest_dir, date, own.as_str()),
                    };
                    Some(dest)
                },
            }
        },
    }
}

/// Plans the destination of `photo` below `dest_dir` and records it in the photo.
///
/// A photo without a capture date, or whose path has no file name, is left as it was.
pub fn update_photo_new_path(dest_dir: &String, photo: &mut Photo, original_name: Option<&str>)
    ensures
        final(photo)@ == planned(dest_dir@, old(photo)@, opt_str(original_name)),
{
    match plan(dest_dir.as_str(), photo, original_name) {
        Some(dest) => {
            photo.set_new_path(dest);
        },
        None => {},
    }
}

/// Plans the destination of every photo below `dest_dir`, each under its own name.
pub fn update_new_path(dest_dir: &String, photos: &mut Vec<Photo>)
    ensures
        final(photos).len() == old(photos).len(),
        forall|i: int|
            0 <= i < old(photos).len() ==> (#[trigger] final(photos)[i])@ == planned(
                dest_dir@,
                old(photos)[i]@,
                old(photos)[i]@.original_name,
            ),
{
    let count = photos.len();
    let mut done: usize = 0;
    while done < count
        invariant
            done <= count,
            photos.len() == count,
            count == old(photos).len(),
            forall|i: int|
                0 <= i < done ==> (#[trigger] photos[i])@ == planned(
                    dest_dir@,
                    old(photos)[i]@,
                    old(photos)[i]@.original_name,
                ),
            forall|i: int| done <= i < count ==> #[trigger] photos[i] == old(photos)[i],
        decreases count - done,
    {
        let photo = &mut photos[done];
        let dest = plan(dest_dir.as_str(), photo, photo.original_name());
        match dest {
            Some(dest) => {
                photo.set_new_path(dest);
            },
            None => {},
        }
        done = done + 1;
    }
}

/// A photo with a capture date has its place at `<root>/<year>/<month>/<day>/<name>`, where
/// `name` is the name it is filed under: the place depends on nothing else, and so not on
/// where the photo was found.
pub proof fn lemma_destination_follows_date_and_name(
    root: Seq<char>,
    path: Seq<char>,
    date: CaptureDate,
    original_name: Option<Seq<char>>,
    name: Seq<char>,
)
    requires
        display_name(path, original_name) == Some(name),
    ensures
        plan_of(root, path, Some(date), original_name) == Some(
            root + seq!['/'] + signed_decimal(date.year() as int) + seq!['/'] + zero_padded(
                date.month() as nat,
            ) + seq!['/'] + zero_padded(date.day() as nat) + seq!['/'] + name,
        ),
{
}

/// Two photos with the same capture date that are filed under the same name have the same
/// destination, wherever each of them was found.
pub proof fn lemma_destination_ignores_source(
    root: Seq<char>,
    first: PhotoView,
    second: PhotoView,
    first_name: Option<Seq<char>>,
    second_name: Option<Seq<char>>,
)
    requires
        first.date == second.date,
        display_name(first.path, first_name) == display_name(second.path, second_name),
    ensures
        plan_of(root, first.path, first.date, first_name) == plan_of(
            root,
            second.path,
            second.date,
            second_name,
        ),
{
}

/// A photo without a capture date is given no destination, and planning leaves it as it
/// was.
pub proof fn lemma_no_date_no_destination(
    root: Seq<char>,
    photo: PhotoView,
    original_name: Option<Seq<char>>,
)
    requires
        photo.date is None,
    ensures
        plan_of(root, photo.path, photo.date, original_name) is None,
        planned(root, photo, original_name) == photo,
{
}

/// Planning keeps what a photo is and where it was found, and never takes a destination
/// away. A photo that is well formed stays so.
pub proof fn lemma_planning_keeps_photo(
    root: Seq<char>,
    photo: PhotoView,
    original_name: Option<Seq<char>>,
)
    ensures
        planned(root, photo, original_name).path == photo.path,
        planned(root, photo, original_name).date == photo.date,
        planned(root, photo, original_name).original_name == photo.original_name,
        photo.new_path is Some ==> planned(root, photo, original_name).new_path is Some,
        photo.wf() ==> planned(root, photo, original_name).wf(),
{
}

/// Planning a photo a second time, below the same root and under the same name, changes
/// nothing: a run that is repeated plans the destinations that it planned before.
pub proof fn lemma_replanning_changes_nothing(
    root: Seq<char>,
    photo: PhotoView,
    original_name: Option<Seq<char>>,
)
    ensures
        planned(root, planned(root, photo, original_name), original_name) == planned(
            root,
            photo,
            original_name,
        ),
{
}

/// The month and the day of a capture date take exactly two characters each in the
/// directory of its day.
pub proof fn lemma_month_and_day_take_two_digits(date: CaptureDate)
    requires
        date.in_range(),
    ensures
        zero_padded(date.month() as nat).len() == 2,
        zero_padded(date.day() as nat).len() == 2,
{
    lemma_zero_padded_two_digits(date.month() as nat);
    lemma_zero_padded_two_digits(date.day() as nat);
}

/// A planned destination ends in the name that the photo is filed under, and its parent
/// directory is the directory of the photo's day: that is the directory which relocation
/// asks for before the photo is copied or renamed.
pub proof fn lemma_destination_keeps_name(root: Seq<char>, date: CaptureDate, name: Seq<char>)
    requires
        is_plain_name(name),
    ensures
        file_name_of(planned_path(root, date, name)) == Some(name),
        parent_of(planned_path(root, date, name)) == Some(dated_dir(root, date)),
{
    let dir = dated_dir(root, date);
    let day = zero_padded(date.day() as nat);
    lemma_zero_padded_is_digits(date.day() as nat);
    let n = dir.len() as int;
    lemma_path_of_dir_and_name(dir, name);
}

/// A photo found in a directory is filed under the file name of its path, and its planned
/// destination ends in that name.
pub proof fn lemma_found_photo_keeps_its_name(root: Seq<char>, path: Seq<char>, date: CaptureDate)
    requires
        file_name_of(path) is Some,
    ensures
        plan_of(root, path, Some(date), None) is Some,
        file_name_of(plan_of(root, path, Some(date), None)->0) == file_name_of(path),
        parent_of(plan_of(root, path, Some(date), None)->0) == Some(dated_dir(root, date)),
{
    lemma_file_name_is_plain(path);
    lemma_destination_keeps_name(root, date, file_name_of(path)->0);
}

} // verus!
