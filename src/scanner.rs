use vstd::prelude::*;

use crate::path::{extension_of, FilePath};

verus! {

pub open spec fn is_image_extension(e: Seq<char>) -> bool {
    ||| e == "jpg"@
    ||| e == "jpeg"@
    ||| e == "png"@
    ||| e == "bmp"@
    ||| e == "tiff"@
    ||| e == "tif"@
}

/// A path names an image file when its extension, matched case-sensitively,
/// is one of the supported lowercase ones.
pub open spec fn is_image_path(p: Seq<Seq<char>>) -> bool {
    match extension_of(p) {
        Some(e) => is_image_extension(e),
        None => false,
    }
}

/// One entry met while walking a directory: its path, and whether it is a
/// regular file.
pub struct ScanEntry {
    pub path: FilePath,
    pub is_file: bool,
}

impl View for ScanEntry {
    type V = (Seq<Seq<char>>, bool);

    open spec fn view(&self) -> (Seq<Seq<char>>, bool) {
        (self.path@, self.is_file)
    }
}

pub open spec fn entry_views(entries: Seq<ScanEntry>) -> Seq<(Seq<Seq<char>>, bool)> {
    entries.map_values(|e: ScanEntry| e@)
}

pub open spec fn path_views(paths: Seq<FilePath>) -> Seq<Seq<Seq<char>>> {
    paths.map_values(|p: FilePath| p@)
}

/// The paths of the entries that are regular image files, in walking order.
pub open spec fn kept_images(entries: Seq<(Seq<Seq<char>>, bool)>) -> Seq<Seq<Seq<char>>>
    decreases entries.len(),
{
    if entries.len() == 0 {
        Seq::empty()
    } else {
        let prev = kept_images(entries.drop_last());
        let e = entries.last();
        if e.1 && is_image_path(e.0) {
            prev.push(e.0)
        } else {
            prev
        }
    }
}

fn text_is(a: &String, b: &str) -> (r: bool)
    ensures
        r == (a@ == b@),
{
    let lit = String::from_str(b);
    *a == lit
}

/// Whether the path's extension is jpg, jpeg, png, bmp, tiff or tif.
pub fn is_image_file(path: &FilePath) -> (r: bool)
    ensures
        r == is_image_path(path@),
{
    match path.extension() {
        Some(e) => text_is(&e, "jpg") || text_is(&e, "jpeg") || text_is(&e, "png") || text_is(
            &e,
            "bmp",
        ) || text_is(&e, "tiff") || text_is(&e, "tif"),
        None => false,
    }
}

/// Keeps the regular files among the walked entries whose names are images,
/// in the order in which they were met.
pub fn select_image_files(entries: &Vec<ScanEntry>) -> (r: Vec<FilePath>)
    ensures
        path_views(r@) == kept_images(entry_views(entries@)),
{
    let mut out: Vec<FilePath> = Vec::new();
    let mut i: usize = 0;
    while i < entries.len()
        invariant
            i <= entries@.len(),
            path_views(out@) == kept_images(entry_views(entries@).subrange(0, i as int)),
        decreases entries@.len() - i,
    {
        let e = &entries[i];
        let ghost prev = out@;
        assert(entry_views(entries@).subrange(0, i + 1).drop_last() =~= entry_views(
            entries@,
        ).subrange(0, i as int));
        if e.is_file && is_image_file(&e.path) {
            out.push(e.path.duplicate());
            assert(path_views(out@) =~= path_views(prev).push(e.path@));
        }
        i = i + 1;
    }
    assert(entry_views(entries@).subrange(0, entries@.len() as int) =~= entry_views(entries@));
    out
}

} // verus!
