use vstd::prelude::*;
use vstd::string::*;
use crate::platform::{Os, archive_tag, archive_tag_spec, binary_name, binary_name_spec};

verus! {

/// Where release archives are downloaded from; the version and the file name follow.
pub const RELEASE_HOST: &'static str = "https://github.com/clangd/clangd/releases/download/";

/// The version-tagged directory that a release unpacks into.
pub open spec fn root_dir_spec(version: Seq<char>) -> Seq<char> {
    "clangd_"@ + version
}

/// The executable inside an unpacked release.
pub open spec fn binary_path_spec(version: Seq<char>, os: Os) -> Seq<char> {
    root_dir_spec(version) + "/bin/"@ + binary_name_spec(os)
}

/// The file name of a release archive.
pub open spec fn archive_name_spec(version: Seq<char>, os: Os) -> Seq<char> {
    "clangd-"@ + archive_tag_spec(os) + "-"@ + version + ".zip"@
}

/// The address a release archive is fetched from.
pub open spec fn download_url_spec(version: Seq<char>, os: Os) -> Seq<char> {
    RELEASE_HOST@ + version + "/"@ + archive_name_spec(version, os)
}

/// A release installed, or to be installed, in the working directory.
#[derive(Clone, Debug, PartialEq, Eq)]
pub struct InstalledServer {
    pub root_dir: String,
    pub binary_path: String,
}

/// The archive of one release for one platform.
#[derive(Clone, Debug, PartialEq, Eq)]
pub struct ArchiveDescriptor {
    pub file_name: String,
    pub download_url: String,
}

/// The install location of a release on a platform.
pub fn installed_server(version: &str, os: Os) -> (r: InstalledServer)
    ensures
        r.root_dir@ == root_dir_spec(version@),
        r.binary_path@ == binary_path_spec(version@, os),
{
    let mut root = String::from_str("clangd_");
    root.append(version);
    let mut bin = String::from_str(root.as_str());
    bin.append("/bin/");
    bin.append(binary_name(os));
    InstalledServer { root_dir: root, binary_path: bin }
}

/// The archive name and download address of a release on a platform.
pub fn archive_descriptor(version: &str, os: Os) -> (r: ArchiveDescriptor)
    ensures
        r.file_name@ == archive_name_spec(version@, os),
        r.download_url@ == download_url_spec(version@, os),
{
    let mut name = String::from_str("clangd-");
    name.append(archive_tag(os));
    name.append("-");
    name.append(version);
    name.append(".zip");
    let mut url = String::from_str(RELEASE_HOST);
    url.append(version);
    url.append("/");
    url.append(name.as_str());
    ArchiveDescriptor { file_name: name, download_url: url }
}

/// One entry of an archive: its stored name, and the same name confined under
/// the extraction root, absent when no such confined path exists.
#[derive(Clone, Debug)]
pub struct ArchiveEntry {
    pub name: String,
    pub enclosed: Option<String>,
}

/// What extraction does with one entry.
#[derive(Clone, Debug, PartialEq, Eq)]
pub enum EntryAction {
    Skip,
    CreateDir(String),
    WriteFile(String),
}

pub enum EntryActionView {
    Skip,
    CreateDir(Seq<char>),
    WriteFile(Seq<char>),
}

impl EntryAction {
    pub open spec fn view(&self) -> EntryActionView {
        match self {
            EntryAction::Skip => EntryActionView::Skip,
            EntryAction::CreateDir(p) => EntryActionView::CreateDir(p@),
            EntryAction::WriteFile(p) => EntryActionView::WriteFile(p@),
        }
    }
}

/// The treatment of an entry: skipped without a confined path, a directory
/// when its stored name ends with a slash, a file otherwise.
pub open spec fn entry_action_spec(e: ArchiveEntry) -> EntryActionView {
    match e.enclosed {
        None => EntryActionView::Skip,
        Some(p) => if e.name@.len() > 0 && e.name@.last() == '/' {
            EntryActionView::CreateDir(p@)
        } else {
            EntryActionView::WriteFile(p@)
        },
    }
}

/// The treatment of every entry of an archive, in order.
pub open spec fn extraction_plan_spec(entries: Seq<ArchiveEntry>) -> Seq<EntryActionView> {
    entries.map_values(|e: ArchiveEntry| entry_action_spec(e))
}

pub fn plan_entry(e: &ArchiveEntry) -> (r: EntryAction)
    ensures
        r.view() == entry_action_spec(*e),
{
    match &e.enclosed {
        None => EntryAction::Skip,
        Some(p) => {
            let n = e.name.as_str().unicode_len();
            if n > 0 && e.name.as_str().get_char(n - 1) == '/' {
                EntryAction::CreateDir(String::from_str(p.as_str()))
            } else {
                EntryAction::WriteFile(String::from_str(p.as_str()))
            }
        },
    }
}

/// Decides, entry by entry, how an archive is unpacked.
pub fn plan_extraction(entries: &Vec<ArchiveEntry>) -> (r: Vec<EntryAction>)
    ensures
        r@.map_values(|a: EntryAction| a.view()) == extraction_plan_spec(entries@),
{
    let mut r: Vec<EntryAction> = Vec::new();
    let mut i: usize = 0;
    while i < entries.len()
        invariant
            i <= entries@.len(),
            r@.len() == i,
            forall|j: int| 0 <= j < i ==> (#[trigger] r@[j]).view() == entry_action_spec(entries@[j]),
        decreases entries@.len() - i,
    {
        let a = plan_entry(&entries[i]);
        r.push(a);
        i = i + 1;
    }
    assert(r@.map_values(|a: EntryAction| a.view()) =~= extraction_plan_spec(entries@));
    r
}

/// An entry without a confined path is skipped, and each other entry is
/// still unpacked, whatever stands before or after it.
pub proof fn lemma_unsafe_entries_skipped(entries: Seq<ArchiveEntry>, i: int)
    requires
        0 <= i < entries.len(),
    ensures
        extraction_plan_spec(entries).len() == entries.len(),
        entries[i].enclosed is None ==> extraction_plan_spec(entries)[i] is Skip,
        entries[i].enclosed is Some ==> !(extraction_plan_spec(entries)[i] is Skip),
{
}

} // verus!
