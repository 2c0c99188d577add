//! Archive handling: reading zip and gzipped tar archives held in memory,
//! and deciding which of their entries may be written below a target
//! directory.
//!
//! The archive formats themselves are read by outside crates through
//! trusted wrappers; which entries are written, and where, is decided and
//! proved here.  An entry whose name could resolve outside the target
//! directory is rejected, never written.

use vstd::prelude::*;
use crate::errors::TerminalError;
use crate::text::has_char;

verus! {

broadcast use
    vstd::seq_lib::lemma_seq_skip_index,
    vstd::seq_lib::lemma_seq_take_index,
    vstd::seq_lib::lemma_seq_skip_len,
    vstd::seq_lib::lemma_seq_take_len;

/// The views of a list of named byte blobs.
pub open spec fn pair_views(s: Seq<(String, Vec<u8>)>) -> Seq<(Seq<char>, Seq<u8>)> {
    Seq::new(s.len(), |i: int| (s[i].0@, s[i].1@))
}

/// The entry list of the zip archive held in `data`, or `None` when the
/// bytes do not form a readable zip archive.
pub uninterp spec fn zip_contents(data: Seq<u8>) -> Option<Seq<(Seq<char>, Seq<u8>)>>;

/// The decompression of the gzip stream held in `data`, or `None` when the
/// bytes do not form a readable gzip stream.
pub uninterp spec fn gunzip_of(data: Seq<u8>) -> Option<Seq<u8>>;

/// The entry list of the tar archive held in `data`, or `None` when the
/// bytes do not form a readable tar archive.
pub uninterp spec fn tar_contents(data: Seq<u8>) -> Option<Seq<(Seq<char>, Seq<u8>)>>;

/// Relies on zip::ZipArchive (new, len, by_index) to list the entries of a
/// zip archive held in memory: each entry's declared name and decompressed
/// bytes, a function of the archive bytes alone.
#[verifier::external_body]
fn zip_entries(data: &Vec<u8>) -> (r: Result<Vec<(String, Vec<u8>)>, TerminalError>)
    ensures
        r matches Ok(v) ==> zip_contents(data@) == Some(pair_views(v@)),
        r is Err <==> zip_contents(data@) is None,
{
    let err = |e: String| TerminalError::CommandIOError(e);
    let cur = std::io::Cursor::new(data.as_slice());
    let mut ar = zip::ZipArchive::new(cur).map_err(|e| err(format!("{e}")))?;
    let mut out: Vec<(String, Vec<u8>)> = Vec::new();
    for i in 0..ar.len() {
        let mut f = ar.by_index(i).map_err(|e| err(format!("{e}")))?;
        let name = f.name().to_owned();
        let mut bytes: Vec<u8> = Vec::new();
        std::io::Read::read_to_end(&mut f, &mut bytes).map_err(|e| err(format!("{e}")))?;
        out.push((name, bytes));
    }
    Ok(out)
}

/// Relies on flate2::read::GzDecoder to decompress a gzip stream held in
/// memory, a function of the compressed bytes alone.
#[verifier::external_body]
fn gunzip(data: &Vec<u8>) -> (r: Result<Vec<u8>, TerminalError>)
    ensures
        r matches Ok(v) ==> gunzip_of(data@) == Some(v@),
        r is Err <==> gunzip_of(data@) is None,
{
    let mut d = flate2::read::GzDecoder::new(data.as_slice());
    let mut out: Vec<u8> = Vec::new();
    match std::io::Read::read_to_end(&mut d, &mut out) {
        Ok(_) => Ok(out),
        Err(e) => Err(TerminalError::CommandIOError(format!("{e}"))),
    }
}

/// Relies on tar::Archive (entries) to list the entries of a tar archive
/// held in memory: each entry's declared path and bytes, a function of the
/// archive bytes alone.
#[verifier::external_body]
fn tar_entries(data: &Vec<u8>) -> (r: Result<Vec<(String, Vec<u8>)>, TerminalError>)
    ensures
        r matches Ok(v) ==> tar_contents(data@) == Some(pair_views(v@)),
        r is Err <==> tar_contents(data@) is None,
{
    let err = |e: std::io::Error| TerminalError::CommandIOError(format!("{e}"));
    let mut ar = tar::Archive::new(data.as_slice());
    let mut out: Vec<(String, Vec<u8>)> = Vec::new();
    for entry in ar.entries().map_err(err)? {
        let mut entry = entry.map_err(err)?;
        let name = String::from_utf8_lossy(&entry.path_bytes()).into_owned();
        let mut bytes: Vec<u8> = Vec::new();
        std::io::Read::read_to_end(&mut entry, &mut bytes).map_err(err)?;
        out.push((name, bytes));
    }
    Ok(out)
}

/// The characters `i..i + 2` of `s` are a `..` path component: surrounded
/// by separators or the ends of the name.
pub open spec fn dotdot_component_at(s: Seq<char>, i: int) -> bool {
    &&& 0 <= i
    &&& i + 2 <= s.len()
    &&& s[i] == '.'
    &&& s[i + 1] == '.'
    &&& (i == 0 || s[i - 1] == '/')
    &&& (i + 2 == s.len() || s[i + 2] == '/')
}

/// An entry name that is certain to resolve below the directory it is
/// extracted into: non-empty, relative, free of backslashes, drive colons
/// and NUL characters, and without any `..` component.
pub open spec fn entry_name_is_safe(s: Seq<char>) -> bool {
    &&& s.len() > 0
    &&& s[0] != '/'
    &&& !has_char(s, '\\')
    &&& !has_char(s, ':')
    &&& !has_char(s, '\u{0}')
    &&& forall|i: int| !dotdot_component_at(s, i)
}

/// Whether `name` is safe to extract, in the sense of [`entry_name_is_safe`].
pub fn entry_name_safe(name: &str) -> (r: bool)
    ensures
        r == entry_name_is_safe(name@),
{
    let l: usize = name.unicode_len();
    if l == 0 {
        return false;
    }
    if name.get_char(0) == '/' {
        return false;
    }
    let mut i: usize = 0;
    while i < l
        invariant
            l == name@.len(),
            0 <= i <= l,
            forall|k: int| 0 <= k < i ==> name@[k] != '\\' && name@[k] != ':' && name@[k]
                != '\u{0}',
            forall|k: int| 0 <= k < i ==> !dotdot_component_at(name@, k),
        decreases l - i,
    {
        let c = name.get_char(i);
        if c == '\\' || c == ':' || c == '\u{0}' {
            return false;
        }
        if c == '.' && l - i >= 2 && name.get_char(i + 1) == '.' && (i == 0 || name.get_char(
            i - 1,
        ) == '/') && (l - i == 2 || name.get_char(i + 2) == '/') {
            assert(dotdot_component_at(name@, i as int));
            return false;
        }
        assert(!dotdot_component_at(name@, i as int));
        i = i + 1;
    }
    assert forall|k: int| !dotdot_component_at(name@, k) by {
        if 0 <= k && k + 2 <= name@.len() {
            assert(k < i);
        }
    }
    true
}

/// The entries of `es` whose names are safe, in order, each renamed to its
/// output path below `dir`.
pub open spec fn safe_entries(es: Seq<(Seq<char>, Seq<u8>)>, dir: Seq<char>) -> Seq<
    (Seq<char>, Seq<u8>),
>
    decreases es.len(),
{
    if es.len() == 0 {
        Seq::empty()
    } else {
        safe_entries(es.drop_last(), dir) + if entry_name_is_safe(es.last().0) {
            seq![(dir + "/"@ + es.last().0, es.last().1)]
        } else {
            Seq::empty()
        }
    }
}

/// One filtering step appends at most the freshly inspected entry.
proof fn lemma_safe_entries_step(es: Seq<(Seq<char>, Seq<u8>)>, dir: Seq<char>, k: int)
    requires
        0 <= k < es.len(),
    ensures
        safe_entries(es.take(k + 1), dir) == safe_entries(es.take(k), dir) + if entry_name_is_safe(
            es[k].0,
        ) {
            seq![(dir + "/"@ + es[k].0, es[k].1)]
        } else {
            Seq::<(Seq<char>, Seq<u8>)>::empty()
        },
{
    assert(es.take(k + 1).drop_last() =~= es.take(k));
    assert(es.take(k + 1).last() == es[k]);
}

/// `out` is input entry `j` of `es`, safely named, moved below `dir`.
pub open spec fn entry_from_input(
    es: Seq<(Seq<char>, Seq<u8>)>,
    dir: Seq<char>,
    out: (Seq<char>, Seq<u8>),
    j: int,
) -> bool {
    &&& 0 <= j < es.len()
    &&& entry_name_is_safe(es[j].0)
    &&& out == (dir + "/"@ + es[j].0, es[j].1)
}

/// Every extracted entry stems from an input entry whose name is safe;
/// an entry whose name could escape the target directory is never written.
pub proof fn lemma_safe_entries_sound(es: Seq<(Seq<char>, Seq<u8>)>, dir: Seq<char>, i: int)
    requires
        0 <= i < safe_entries(es, dir).len(),
    ensures
        exists|j: int| entry_from_input(es, dir, safe_entries(es, dir)[i], j),
    decreases es.len(),
{
    let prev = safe_entries(es.drop_last(), dir);
    if i < prev.len() {
        lemma_safe_entries_sound(es.drop_last(), dir, i);
        let j = choose|j: int|
            entry_from_input(es.drop_last(), dir, safe_entries(es.drop_last(), dir)[i], j);
        assert(safe_entries(es, dir)[i] == prev[i]);
        assert(es[j] == es.drop_last()[j]);
        assert(entry_from_input(es, dir, safe_entries(es, dir)[i], j));
    } else {
        let j = es.len() - 1;
        assert(entry_name_is_safe(es[j].0));
        assert(safe_entries(es, dir)[i] == (dir + "/"@ + es[j].0, es[j].1));
        assert(entry_from_input(es, dir, safe_entries(es, dir)[i], j));
    }
}

/// Every input entry with a safe name is extracted, under its path below
/// `dir`.
pub proof fn lemma_safe_entries_complete(es: Seq<(Seq<char>, Seq<u8>)>, dir: Seq<char>)
    ensures
        forall|j: int|
            0 <= j < es.len() && entry_name_is_safe(#[trigger] es[j].0) ==> exists|i: int|
                0 <= i < safe_entries(es, dir).len() && entry_from_input(
                    es,
                    dir,
                    #[trigger] safe_entries(es, dir)[i],
                    j,
                ),
    decreases es.len(),
{
    if es.len() > 0 {
        lemma_safe_entries_complete(es.drop_last(), dir);
        let prev = safe_entries(es.drop_last(), dir);
        assert forall|j: int|
            0 <= j < es.len() && entry_name_is_safe(#[trigger] es[j].0) implies exists|i: int|
            0 <= i < safe_entries(es, dir).len() && entry_from_input(
                es,
                dir,
                #[trigger] safe_entries(es, dir)[i],
                j,
            ) by {
            if j < es.len() - 1 {
                assert(es.drop_last()[j] == es[j]);
                let i = choose|i: int|
                    0 <= i < safe_entries(es.drop_last(), dir).len() && entry_from_input(
                        es.drop_last(),
                        dir,
                        safe_entries(es.drop_last(), dir)[i],
                        j,
                    );
                assert(0 <= i < safe_entries(es.drop_last(), dir).len() && entry_from_input(
                    es.drop_last(),
                    dir,
                    safe_entries(es.drop_last(), dir)[i],
                    j,
                ));
                assert(safe_entries(es, dir)[i] == prev[i]);
                assert(entry_from_input(es, dir, safe_entries(es, dir)[i], j));
            } else {
                let i = safe_entries(es, dir).len() - 1;
                assert(safe_entries(es, dir)[i] == (dir + "/"@ + es[j].0, es[j].1));
                assert(entry_from_input(es, dir, safe_entries(es, dir)[i], j));
            }
        }
    }
}

/// Keeps the safely named entries of `es`, each under its output path
/// below `dir`.
fn filter_safe_entries(es: Vec<(String, Vec<u8>)>, dir: &str) -> (r: Vec<(String, Vec<u8>)>)
    ensures
        pair_views(r@) == safe_entries(pair_views(es@), dir@),
{
    let ghost orig: Seq<(Seq<char>, Seq<u8>)> = pair_views(es@);
    let mut es = es;
    let mut out: Vec<(String, Vec<u8>)> = Vec::new();
    let ghost mut k: int = 0;
    while es.len() > 0
        invariant
            0 <= k <= orig.len(),
            pair_views(es@) =~= orig.skip(k),
            pair_views(out@) =~= safe_entries(orig.take(k), dir@),
        decreases es@.len(),
    {
        let ghost es_before = es@;
        let pair = es.remove(0);
        proof {
            assert(pair == es_before[0]);
        }
        let (name, bytes) = pair;
        proof {
            assert(pair_views(es_before).len() == es_before.len());
            assert(es_before.len() > 0);
            assert(orig.skip(k).len() == orig.len() - k);
            assert(k < orig.len());
            assert(pair_views(es_before)[0] == orig.skip(k)[0]);
            assert(orig.skip(k)[0] == orig[k]);
            assert(name@ == orig[k].0 && bytes@ == orig[k].1);
            assert forall|t: int| 0 <= t < pair_views(es@).len() implies #[trigger] pair_views(
                es@,
            )[t] == orig.skip(k + 1)[t] by {
                assert(es@[t] == es_before[t + 1]);
                assert(pair_views(es_before)[t + 1] == orig.skip(k)[t + 1]);
                assert(orig.skip(k)[t + 1] == orig[k + 1 + t]);
                assert(orig.skip(k + 1)[t] == orig[k + 1 + t]);
            }
            assert(pair_views(es@) =~= orig.skip(k + 1));
            lemma_safe_entries_step(orig, dir@, k);
        }
        if entry_name_safe(name.as_str()) {
            let path = String::from_str(dir).concat("/").concat(name.as_str());
            out.push((path, bytes));
        }
        proof {
            assert(pair_views(out@) =~= safe_entries(orig.take(k + 1), dir@));
            k = k + 1;
        }
    }
    proof {
        assert(orig.take(k) =~= orig);
    }
    out
}

/// Reads the zip archive held in `data` and returns the entries that may
/// be written, each under its output path below `target_dir`.  Entries
/// whose names could resolve outside `target_dir` are dropped, and a
/// malformed archive is an error.
pub fn unpack_zip(data: &Vec<u8>, target_dir: &str) -> (r: Result<
    Vec<(String, Vec<u8>)>,
    TerminalError,
>)
    ensures
        r is Ok <==> zip_contents(data@) is Some,
        r matches Ok(v) ==> (zip_contents(data@) matches Some(es) && pair_views(v@)
            == safe_entries(es, target_dir@)),
{
    let es = zip_entries(data)?;
    Ok(filter_safe_entries(es, target_dir))
}

/// Decompresses the gzipped tar archive held in `data` and returns the
/// entries that may be written, each under its output path below
/// `target_dir`, with the same guard as for zip archives.
pub fn unpack_tgz(data: &Vec<u8>, target_dir: &str) -> (r: Result<
    Vec<(String, Vec<u8>)>,
    TerminalError,
>)
    ensures
        r is Ok <==> (gunzip_of(data@) matches Some(t) && tar_contents(t) is Some),
        r matches Ok(v) ==> (gunzip_of(data@) matches Some(t) && tar_contents(t) matches Some(es)
            && pair_views(v@) == safe_entries(es, target_dir@)),
{
    let plain = gunzip(data)?;
    let es = tar_entries(&plain)?;
    Ok(filter_safe_entries(es, target_dir))
}

} // verus!
