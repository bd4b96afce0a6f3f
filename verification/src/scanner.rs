//! Turning the listing of a photo directory into staff records.
//!
//! A file counts as a staff photo when its extension is exactly `jpg`, `jpeg`
//! or `png`, in lower case. Its stem gives the person's name and job title.

use vstd::prelude::*;
use vstd::string::*;
use crate::filename::{chars_of, opt_view, parse_filename, parsed};

verus! {

/// One person, as read off the name of a photo file.
#[derive(Debug, Clone, PartialEq, Eq)]
pub struct StaffMember {
    pub name: String,
    pub job_title: Option<String>,
    pub image_path: String,
    pub is_intern: bool,
}

/// What a `StaffMember` holds, as plain text.
pub struct StaffRecord {
    pub name: Seq<char>,
    pub job_title: Option<Seq<char>>,
    pub image_path: Seq<char>,
    pub is_intern: bool,
}

impl View for StaffMember {
    type V = StaffRecord;

    open spec fn view(&self) -> StaffRecord {
        StaffRecord {
            name: self.name@,
            job_title: opt_view(self.job_title),
            image_path: self.image_path@,
            is_intern: self.is_intern,
        }
    }
}

/// One direct child of the scanned directory: its bare file name, the path
/// under which the file is opened later, and whether it is a regular file.
#[derive(Debug, Clone, PartialEq, Eq)]
pub struct ListedFile {
    pub file_name: String,
    pub path: String,
    pub is_file: bool,
}

/// What a `ListedFile` holds, as plain text.
pub struct ListedName {
    pub file_name: Seq<char>,
    pub path: Seq<char>,
    pub is_file: bool,
}

impl View for ListedFile {
    type V = ListedName;

    open spec fn view(&self) -> ListedName {
        ListedName { file_name: self.file_name@, path: self.path@, is_file: self.is_file }
    }
}

/// Why a directory could not be scanned.
#[derive(Debug, Clone, PartialEq, Eq)]
pub enum ScanError {
    /// The directory does not exist.
    NotFound,
    /// The host refused to grant access to the directory or to one of its
    /// photos; the text is the host's.
    PermissionRegistrationFailed(String),
    /// The directory or one of its entries could not be read; the text is the
    /// reader's.
    Io(String),
}

/// What came of listing the directory.
#[derive(Debug, Clone, PartialEq, Eq)]
pub enum DirectoryRead {
    /// The directory does not exist.
    Missing,
    /// The host refused to grant access to the directory or to one of its
    /// photos, with the host's message.
    Refused(String),
    /// Reading the directory or one of its entries failed, with the reader's
    /// message.
    Failed(String),
    /// The direct children of the directory, in the order in which they were
    /// listed.
    Listed(Vec<ListedFile>),
}

impl ScanError {
    /// The text shown for the error.
    pub open spec fn message_text(&self) -> Seq<char> {
        match self {
            ScanError::NotFound => "Directory does not exist"@,
            ScanError::PermissionRegistrationFailed(text) => text@,
            ScanError::Io(text) => text@,
        }
    }

    /// The text shown for the error: a fixed sentence for a missing directory,
    /// else the message that the failing step gave.
    pub fn message(&self) -> (text: String)
        ensures
            text@ == self.message_text(),
    {
        match self {
            ScanError::NotFound => "Directory does not exist".to_owned(),
            ScanError::PermissionRegistrationFailed(text) => text.clone(),
            ScanError::Io(text) => text.clone(),
        }
    }
}

/// Index `i` holds the last dot of the file name.
pub open spec fn is_last_dot(name: Seq<char>, i: int) -> bool {
    &&& 0 <= i < name.len()
    &&& name[i] == '.'
    &&& forall|j: int| i < j < name.len() ==> name[j] != '.'
}

/// The dot that sets an extension off: the last one, unless it is the first
/// character of the name (a hidden file has no extension on that account).
pub open spec fn has_extension_dot(name: Seq<char>) -> bool {
    exists|i: int| 0 < i && is_last_dot(name, i)
}

/// Index of the dot that sets the extension off, where there is one.
pub open spec fn extension_dot(name: Seq<char>) -> int {
    choose|i: int| 0 < i && is_last_dot(name, i)
}

/// The file name without its extension and the dot before it.
pub open spec fn stem_of(name: Seq<char>) -> Seq<char> {
    if has_extension_dot(name) {
        name.subrange(0, extension_dot(name))
    } else {
        name
    }
}

/// What follows the extension dot, where there is one.
pub open spec fn extension_of(name: Seq<char>) -> Option<Seq<char>> {
    if has_extension_dot(name) {
        Some(name.subrange(extension_dot(name) + 1, name.len() as int))
    } else {
        None
    }
}

/// The extensions of the files that are taken for staff photos.
pub open spec fn is_image_extension(ext: Seq<char>) -> bool {
    ||| ext == seq!['j', 'p', 'g']
    ||| ext == seq!['j', 'p', 'e', 'g']
    ||| ext == seq!['p', 'n', 'g']
}

/// The file name is that of a staff photo.
pub open spec fn is_staff_photo(name: Seq<char>) -> bool {
    extension_of(name) matches Some(ext) && is_image_extension(ext)
}

/// The record that a child of the directory gives: one for a regular file
/// whose name is that of a staff photo, none for anything else.
pub open spec fn record_of(file: ListedName) -> Option<StaffRecord> {
    if file.is_file && is_staff_photo(file.file_name) {
        let (name, job_title) = parsed(stem_of(file.file_name));
        Some(StaffRecord { name, job_title, image_path: file.path, is_intern: false })
    } else {
        None
    }
}

/// The records of a listing: one for each staff photo, in the listing's order.
pub open spec fn records_of(files: Seq<ListedName>) -> Seq<StaffRecord>
    decreases files.len(),
{
    if files.len() == 0 {
        Seq::empty()
    } else {
        let before = records_of(files.drop_last());
        match record_of(files.last()) {
            Some(record) => before.push(record),
            None => before,
        }
    }
}

/// The listing as plain text.
pub open spec fn listing_view(files: Seq<ListedFile>) -> Seq<ListedName> {
    files.map_values(|f: ListedFile| f@)
}

/// The members as plain records.
pub open spec fn members_view(members: Seq<StaffMember>) -> Seq<StaffRecord> {
    members.map_values(|m: StaffMember| m@)
}

/// An index that holds the last dot behind the first character is the
/// extension dot.
pub proof fn lemma_extension_dot_is(name: Seq<char>, at: int)
    requires
        0 < at,
        is_last_dot(name, at),
    ensures
        has_extension_dot(name),
        extension_dot(name) == at,
{
    let chosen = extension_dot(name);
    assert(0 < chosen && is_last_dot(name, chosen));
}

/// Finds the dot that sets the extension off.
pub fn find_extension_dot(name: &Vec<char>) -> (found: Option<usize>)
    ensures
        found is Some <==> has_extension_dot(name@),
        found matches Some(at) ==> extension_dot(name@) == at,
{
    let mut i: usize = name.len();
    while i > 0
        invariant
            i <= name.len(),
            forall|j: int| i <= j < name.len() ==> name@[j] != '.',
        decreases i,
    {
        i = i - 1;
        if name[i] == '.' {
            if i > 0 {
                proof {
                    lemma_extension_dot_is(name@, i as int);
                }
                return Some(i);
            } else {
                assert(is_last_dot(name@, 0));
                return None;
            }
        }
    }
    None
}

/// Tells whether the characters from `from` on spell `jpg`, `jpeg` or `png`.
fn tail_is_image_extension(name: &Vec<char>, from: usize) -> (yes: bool)
    requires
        from <= name.len(),
    ensures
        yes == is_image_extension(name@.subrange(from as int, name.len() as int)),
{
    let n = name.len() - from;
    let ghost ext = name@.subrange(from as int, name.len() as int);
    proof {
        let jpg = seq!['j', 'p', 'g'];
        let jpeg = seq!['j', 'p', 'e', 'g'];
        let png = seq!['p', 'n', 'g'];
        assert(jpg.len() == 3 && jpg[0] == 'j' && jpg[1] == 'p' && jpg[2] == 'g');
        assert(jpeg.len() == 4 && jpeg[0] == 'j' && jpeg[1] == 'p' && jpeg[2] == 'e' && jpeg[3]
            == 'g');
        assert(png.len() == 3 && png[0] == 'p' && png[1] == 'n' && png[2] == 'g');
    }
    if n == 3 {
        let jpg = name[from] == 'j' && name[from + 1] == 'p' && name[from + 2] == 'g';
        let png = name[from] == 'p' && name[from + 1] == 'n' && name[from + 2] == 'g';
        proof {
            if jpg {
                assert(ext =~= seq!['j', 'p', 'g']);
            }
            if png {
                assert(ext =~= seq!['p', 'n', 'g']);
            }
        }
        jpg || png
    } else if n == 4 {
        let jpeg = name[from] == 'j' && name[from + 1] == 'p' && name[from + 2] == 'e' && name[from
            + 3] == 'g';
        proof {
            if jpeg {
                assert(ext =~= seq!['j', 'p', 'e', 'g']);
            }
        }
        jpeg
    } else {
        false
    }
}

/// Tells whether a file of this name is taken for a staff photo: its
/// extension is `jpg`, `jpeg` or `png`, compared case-sensitively.
pub fn has_image_extension(file_name: &str) -> (yes: bool)
    ensures
        yes == is_staff_photo(file_name@),
{
    let chars = chars_of(file_name);
    match find_extension_dot(&chars) {
        Some(dot) => tail_is_image_extension(&chars, dot + 1),
        None => false,
    }
}

/// The stem of a file name: the name without its extension.
pub fn file_stem(file_name: &str) -> (stem: String)
    ensures
        stem@ == stem_of(file_name@),
{
    let chars = chars_of(file_name);
    match find_extension_dot(&chars) {
        Some(dot) => file_name.substring_char(0, dot).to_owned(),
        None => file_name.to_owned(),
    }
}

/// The view of an optional member.
pub open spec fn opt_member_view(member: Option<StaffMember>) -> Option<StaffRecord> {
    match member {
        Some(m) => Some(m@),
        None => None,
    }
}

impl ListedFile {
    /// Tells whether this child of the directory is a staff photo: a regular
    /// file with one of the three extensions. These are the files to which
    /// access is granted.
    pub fn is_staff_photo(&self) -> (yes: bool)
        ensures
            yes == record_of(self@) is Some,
    {
        self.is_file && has_image_extension(self.file_name.as_str())
    }

    /// The record of this child of the directory.
    pub fn staff_member(&self) -> (member: Option<StaffMember>)
        ensures
            opt_member_view(member) == record_of(self@),
    {
        if self.is_file {
            staff_member_from_entry(self.file_name.as_str(), self.path.as_str())
        } else {
            None
        }
    }
}

/// Builds the record of a regular file from its name and path: `None` unless
/// its extension marks it as a staff photo; otherwise name and job title from
/// the stem, the path as given, and never an intern.
pub fn staff_member_from_entry(file_name: &str, path: &str) -> (member: Option<StaffMember>)
    ensures
        member is Some <==> is_staff_photo(file_name@),
        opt_member_view(member) == record_of(
            ListedName { file_name: file_name@, path: path@, is_file: true },
        ),
{
    if !has_image_extension(file_name) {
        return None;
    }
    let stem = file_stem(file_name);
    let (name, job_title) = parse_filename(stem.as_str());
    Some(StaffMember { name, job_title, image_path: path.to_owned(), is_intern: false })
}

/// Builds the records of a whole listing: one for each staff photo, in the
/// order of the listing; every other file is passed over.
pub fn scan_entries(files: &Vec<ListedFile>) -> (members: Vec<StaffMember>)
    ensures
        members_view(members@) == records_of(listing_view(files@)),
{
    let mut members: Vec<StaffMember> = Vec::new();
    let mut i: usize = 0;
    while i < files.len()
        invariant
            i <= files.len(),
            members_view(members@) == records_of(listing_view(files@.take(i as int))),
        decreases files.len() - i,
    {
        let file = &files[i];
        let ghost before = listing_view(files@.take(i as int));
        let ghost upto = listing_view(files@.take(i + 1));
        proof {
            assert(upto.drop_last() =~= before);
            assert(upto.last() == file@);
        }
        match file.staff_member() {
            Some(member) => {
                let ghost old_members = members@;
                members.push(member);
                proof {
                    assert(members_view(members@) =~= members_view(old_members).push(member@));
                }
            },
            None => {},
        }
        i = i + 1;
    }
    proof {
        assert(files@.take(files.len() as int) =~= files@);
    }
    members
}

/// Answers a scan of a directory, given what came of listing it: a missing
/// directory is `NotFound`, a refused grant is `PermissionRegistrationFailed`
/// with the host's message, a failed read is `Io` with the reader's message,
/// each without any record, and a listing gives the records of its staff
/// photos.
pub fn read_staff_images(read: DirectoryRead) -> (r: Result<Vec<StaffMember>, ScanError>)
    ensures
        read is Missing ==> r == Err::<Vec<StaffMember>, ScanError>(ScanError::NotFound),
        read matches DirectoryRead::Refused(text) ==> r == Err::<Vec<StaffMember>, ScanError>(
            ScanError::PermissionRegistrationFailed(text),
        ),
        read matches DirectoryRead::Failed(text) ==> r == Err::<Vec<StaffMember>, ScanError>(
            ScanError::Io(text),
        ),
        read matches DirectoryRead::Listed(files) ==> r matches Ok(members) && members_view(
            members@,
        ) == records_of(listing_view(files@)),
{
    match read {
        DirectoryRead::Missing => Err(ScanError::NotFound),
        DirectoryRead::Refused(text) => Err(ScanError::PermissionRegistrationFailed(text)),
        DirectoryRead::Failed(text) => Err(ScanError::Io(text)),
        DirectoryRead::Listed(files) => Ok(scan_entries(&files)),
    }
}

/// Every record of a listing is that of one of its regular files with a staff
/// photo's name, and none is an intern; the records are no more than the files.
pub proof fn law_records_come_from_photos(files: Seq<ListedName>)
    ensures
        records_of(files).len() <= files.len(),
        forall|k: int|
            0 <= k < records_of(files).len() ==> !(#[trigger] records_of(files)[k]).is_intern
                && exists|i: int|
                0 <= i < files.len() && files[i].is_file && is_staff_photo(files[i].file_name)
                    && record_of(files[i]) == Some(records_of(files)[k]),
    decreases files.len(),
{
    if files.len() > 0 {
        let before = files.drop_last();
        law_records_come_from_photos(before);
        assert forall|k: int| 0 <= k < records_of(files).len() implies !(
        #[trigger] records_of(files)[k]).is_intern && exists|i: int|
            0 <= i < files.len() && files[i].is_file && is_staff_photo(files[i].file_name)
                && record_of(files[i]) == Some(records_of(files)[k]) by {
            if k < records_of(before).len() {
                let i = choose|i: int|
                    0 <= i < before.len() && before[i].is_file && is_staff_photo(
                        before[i].file_name,
                    ) && record_of(before[i]) == Some(records_of(before)[k]);
                assert(files[i] == before[i]);
            } else {
                let i = files.len() - 1;
                assert(record_of(files[i]) == Some(records_of(files)[k]));
            }
        }
    }
}

} // verus!
