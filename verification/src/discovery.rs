use vstd::prelude::*;

use crate::errors::VolumeError;
use crate::pathsort::{paths_sorted, sort_paths};

verus! {

/// A path string that names a BMP file: at least four characters, ending
/// in `.bmp` in either letter case.
pub open spec fn is_bmp_path(s: Seq<char>) -> bool {
    &&& s.len() >= 4
    &&& s[s.len() - 4] == '.'
    &&& (s[s.len() - 3] == 'b' || s[s.len() - 3] == 'B')
    &&& (s[s.len() - 2] == 'm' || s[s.len() - 2] == 'M')
    &&& (s[s.len() - 1] == 'p' || s[s.len() - 1] == 'P')
}

/// Relies on glob::glob_with over the pattern `<dir>/*.bmp` with
/// case-insensitive matching: yields the paths of the directory's BMP
/// files, each matching that pattern and each named once, or the scan's
/// error. glob itself skips file names that are not valid UTF-8, so every
/// yielded path converts to a string; the error arm on the conversion
/// only guards that assumption.
#[verifier::external_body]
fn list_bmp_files(dir: &str) -> (r: Result<Vec<String>, VolumeError>)
    ensures
        r matches Ok(v) ==> forall|i: int|
            0 <= i < v.deep_view().len() ==> is_bmp_path(#[trigger] v.deep_view()[i]),
        r matches Ok(v) ==> v.deep_view().no_duplicates(),
        r matches Err(e) ==> e is Io,
{
    let options = glob::MatchOptions { case_sensitive: false, require_literal_separator: false, require_literal_leading_dot: false };
    let pattern = std::path::Path::new(dir).join("*.bmp");
    let entries = glob::glob_with(&pattern.to_string_lossy(), options)
        .map_err(|e| VolumeError::Io { msg: e.to_string() })?;
    let mut out: Vec<String> = Vec::new();
    for entry in entries {
        let p = entry.map_err(|e| VolumeError::Io { msg: e.to_string() })?;
        let s = p.to_str().ok_or_else(|| VolumeError::Io { msg: "a matching file name is not valid UTF-8".to_string() })?;
        out.push(s.to_owned());
    }
    Ok(out)
}

/// Relies on image::open: fully decodes the file at `path` and reports its
/// width and height, or the decoder's error.
#[verifier::external_body]
fn read_dimensions(path: &str) -> (r: Result<(u32, u32), VolumeError>)
    ensures
        r matches Err(e) ==> e is Decode,
{
    match image::open(std::path::Path::new(path)) {
        Ok(img) => Ok(image::GenericImageView::dimensions(&img)),
        Err(e) => Err(VolumeError::Decode { path: path.to_owned(), msg: e.to_string() }),
    }
}

/// Accepts a slice whose dimensions equal the reference pair, and
/// otherwise reports the mismatch with both pairs and the offending path.
pub fn check_slice_dims(
    expected_x: u32,
    expected_y: u32,
    found_x: u32,
    found_y: u32,
    path: &str,
) -> (r: Result<(), VolumeError>)
    ensures
        r is Ok <==> (found_x == expected_x && found_y == expected_y),
        r matches Err(e) ==> e matches VolumeError::DimensionMismatch {
            expected_x: ex,
            expected_y: ey,
            path: p,
            found_x: fx,
            found_y: fy,
        } && ex == expected_x && ey == expected_y && p@ == path@ && fx == found_x && fy
            == found_y,
{
    if found_x == expected_x && found_y == expected_y {
        Ok(())
    } else {
        Err(
            VolumeError::DimensionMismatch {
                expected_x,
                expected_y,
                path: path.to_owned(),
                found_x,
                found_y,
            },
        )
    }
}

/// Decides the stack's common dimensions from the pairs read for each
/// listed file: the shared pair when all agree with the first one, and
/// otherwise the mismatch error carrying the reference pair and the first
/// disagreeing file's path and pair.
pub fn validate_dims(files: &Vec<String>, dims: &Vec<(u32, u32)>) -> (r: Result<
    (u32, u32),
    VolumeError,
>)
    requires
        1 <= dims@.len() <= files@.len(),
    ensures
        r is Ok <==> (forall|k: int| 0 <= k < dims@.len() ==> #[trigger] dims@[k] == dims@[0]),
        r matches Ok(p) ==> p == dims@[0],
        r matches Err(e) ==> exists|k: int|
            {
                &&& 0 <= k < dims@.len()
                &&& (#[trigger] dims@[k]) != dims@[0]
                &&& (forall|j: int| 0 <= j < k ==> #[trigger] dims@[j] == dims@[0])
                &&& e matches VolumeError::DimensionMismatch {
                    expected_x,
                    expected_y,
                    path,
                    found_x,
                    found_y,
                } && expected_x == dims@[0].0 && expected_y == dims@[0].1 && (found_x, found_y)
                    == dims@[k] && path@ == files.deep_view()[k]
            },
{
    let first = dims[0];
    let x0 = first.0;
    let y0 = first.1;
    let mut k: usize = 1;
    while k < dims.len()
        invariant
            1 <= k <= dims@.len(),
            dims@.len() <= files@.len(),
            (x0, y0) == dims@[0],
            forall|j: int| 0 <= j < k ==> #[trigger] dims@[j] == dims@[0],
        decreases dims@.len() - k,
    {
        let cur = dims[k];
        if cur.0 != x0 || cur.1 != y0 {
            return Err(
                VolumeError::DimensionMismatch {
                    expected_x: x0,
                    expected_y: y0,
                    path: files[k].clone(),
                    found_x: cur.0,
                    found_y: cur.1,
                },
            );
        }
        k += 1;
    }
    Ok((x0, y0))
}

/// The result of scanning a directory for a stack of BMP slices.
#[derive(Debug)]
pub enum BmpPaths {
    /// The directory holds no BMP file: nothing to do, not an error.
    Empty,
    /// At least one BMP file was found. Every one has this width and
    /// height, and the paths are sorted ascending, which fixes the depth
    /// order of the volume.
    Found { paths: Vec<String>, x_size: u32, y_size: u32 },
}

impl BmpPaths {
    /// Builds the slice set from a scan listing. An empty listing is
    /// `Empty` — exactly then, never an error. Otherwise every file's
    /// dimensions are read and compared to the first file's, failing fast
    /// on the first disagreeing pair, and a `Found` result carries exactly
    /// the listed paths, sorted ascending.
    pub fn from_listing(files: Vec<String>) -> (r: Result<BmpPaths, VolumeError>)
        ensures
            (files@.len() == 0) <==> (r matches Ok(bp) && bp is Empty),
            r matches Ok(bp) ==> (bp matches BmpPaths::Found { paths, .. } ==> {
                &&& paths.deep_view().to_multiset() == files.deep_view().to_multiset()
                &&& paths@.len() == files@.len()
                &&& paths_sorted(paths.deep_view())
            }),
            r matches Err(e) ==> e is Decode || e is DimensionMismatch,
    {
        if files.len() == 0 {
            return Ok(BmpPaths::Empty);
        }
        let mut dims: Vec<(u32, u32)> = Vec::new();
        let mut uniform = true;
        let mut k: usize = 0;
        while k < files.len() && uniform
            invariant
                k <= files@.len(),
                dims@.len() == k,
                k == 0 ==> uniform,
                uniform ==> forall|j: int| 0 <= j < k ==> #[trigger] dims@[j] == dims@[0],
            decreases files@.len() - k,
        {
            let (w, h) = match read_dimensions(files[k].as_str()) {
                Ok(d) => d,
                Err(e) => return Err(e),
            };
            dims.push((w, h));
            let first = dims[0];
            if w != first.0 || h != first.1 {
                // Fail fast: no file after the first mismatch is opened.
                uniform = false;
            }
            k += 1;
        }
        let (x_size, y_size) = match validate_dims(&files, &dims) {
            Ok(p) => p,
            Err(e) => return Err(e),
        };
        let sorted = sort_paths(&files);
        Ok(BmpPaths::Found { paths: sorted, x_size, y_size })
    }

    /// Scans `dir` for files named `*.bmp` (case-insensitively,
    /// non-recursively) and hands the listing to `from_listing`, whose
    /// contract fixes what comes back for each listing: `Empty` exactly
    /// for an empty listing, else the listed paths sorted, or the first
    /// failure.
    pub fn glob(dir: &str) -> (r: Result<BmpPaths, VolumeError>)
        ensures
            r matches Ok(bp) ==> (bp matches BmpPaths::Found { paths, .. } ==> {
                &&& paths@.len() > 0
                &&& paths_sorted(paths.deep_view())
                &&& paths.deep_view().no_duplicates()
                &&& forall|i: int|
                    0 <= i < paths.deep_view().len() ==> is_bmp_path(
                        #[trigger] paths.deep_view()[i],
                    )
            }),
            r matches Err(e) ==> e is Io || e is Decode || e is DimensionMismatch,
    {
        let files = match list_bmp_files(dir) {
            Ok(f) => f,
            Err(e) => return Err(e),
        };
        let ghost fd = files.deep_view();
        match BmpPaths::from_listing(files) {
            Ok(BmpPaths::Empty) => Ok(BmpPaths::Empty),
            Ok(BmpPaths::Found { paths, x_size, y_size }) => {
                proof {
                    broadcast use vstd::seq_lib::group_to_multiset_ensures;

                    let sd = paths.deep_view();
                    assert forall|i: int| 0 <= i < sd.len() implies is_bmp_path(
                        #[trigger] sd[i],
                    ) by {
                        assert(sd.contains(sd[i]));
                        assert(fd.to_multiset().count(sd[i]) > 0);
                        assert(fd.contains(sd[i]));
                        let j = choose|j: int| 0 <= j < fd.len() && fd[j] == sd[i];
                        assert(is_bmp_path(fd[j]));
                    }
                    fd.lemma_multiset_has_no_duplicates();
                    sd.lemma_multiset_has_no_duplicates_conv();
                }
                Ok(BmpPaths::Found { paths, x_size, y_size })
            },
            Err(e) => Err(e),
        }
    }
}

} // verus!
