use vstd::prelude::*;

verus! {

/// The file name of a path without its extension, as `Path::file_stem` gives
/// it ("" where there is none).
pub uninterp spec fn path_stem(p: Seq<char>) -> Seq<char>;

/// The directory part of a path, as `Path::parent` gives it ("" where there is none).
pub uninterp spec fn path_parent(p: Seq<char>) -> Seq<char>;

/// Relies on `Path::file_stem`: the file name of `p` without its extension.
#[verifier::external_body]
fn file_stem_text(p: &str) -> (r: String)
    ensures
        r@ == path_stem(p@),
{
    std::path::Path::new(p).file_stem().and_then(|s| s.to_str()).unwrap_or("").to_string()
}

/// Relies on `Path::parent`: the directory part of `p`.
#[verifier::external_body]
fn parent_text(p: &str) -> (r: String)
    ensures
        r@ == path_parent(p@),
{
    std::path::Path::new(p).parent().and_then(|s| s.to_str()).unwrap_or("").to_string()
}

/// The output path of the input file `filepath`: same directory and stem,
/// extension `extension`. A path without a directory part gives a bare file name.
pub fn form_result_path(filepath: &str, extension: &str) -> (r: String)
    ensures
        path_parent(filepath@).len() == 0 ==> r@ == path_stem(filepath@) + seq!['.'] + extension@,
        path_parent(filepath@).len() != 0 ==> r@ == path_parent(filepath@) + seq!['/'] + path_stem(
            filepath@,
        ) + seq!['.'] + extension@,
{
    proof {
        reveal_strlit("/");
        reveal_strlit(".");
    }
    let mut r = parent_text(filepath);
    if r.unicode_len() != 0 {
        r.append("/");
    }
    r.append(file_stem_text(filepath).as_str());
    r.append(".");
    r.append(extension);
    r
}

} // verus!
