//! Turning the files of a directory into pages: the URL of each file, and its
//! compression with the zstd dictionary chosen by its extension.
use crate::db::{zstd_compress_with_dictionary, zstd_compressed, zstd_decoded};
use crate::error::SiteError;
use crate::text::{str_ends_with, str_eq, str_find_char};
use vstd::prelude::*;

verus! {

/// The compression level of imported pages.
pub const IMPORT_COMPRESSION_LEVEL: i32 = 3;

/// The suffix that is dropped from imported URLs on request.
pub open spec fn index_html_suffix() -> Seq<char> {
    seq!['/', 'i', 'n', 'd', 'e', 'x', '.', 'h', 't', 'm', 'l']
}

/// The URL of the file at `path` (relative to the imported directory): the path
/// behind a slash, with a trailing `/index.html` dropped on request (and `/`
/// for the directory's own index).
pub open spec fn spec_page_url(path: Seq<char>, drop_trailing_index_html: bool) -> Seq<char> {
    let url = seq!['/'] + path;
    if drop_trailing_index_html {
        let suffix = index_html_suffix();
        let stripped = if suffix.len() <= url.len() && url.subrange(
            url.len() - suffix.len(),
            url.len() as int,
        ) == suffix {
            url.subrange(0, url.len() - suffix.len())
        } else {
            url
        };
        if stripped.len() == 0 {
            seq!['/']
        } else {
            stripped
        }
    } else {
        url
    }
}

/// The URL under which the file at `path` is imported.
pub fn page_url_for_path(path: &str, drop_trailing_index_html: bool) -> (url: String)
    ensures
        url@ == spec_page_url(path@, drop_trailing_index_html),
{
    proof {
        reveal_strlit("/");
        reveal_strlit("/index.html");
    }
    let mut url = String::new();
    url.append("/");
    url.append(path);
    assert(url@ =~= seq!['/'] + path@);
    if drop_trailing_index_html {
        let suffix = "/index.html";
        assert(suffix@ =~= index_html_suffix());
        let n = url.as_str().unicode_len();
        if str_ends_with(url.as_str(), suffix) {
            let prefix = url.as_str().substring_char(0, n - 11);
            url = prefix.to_owned();
        }
        if url.as_str().unicode_len() == 0 {
            let mut root = String::new();
            root.append("/");
            assert(root@ =~= seq!['/']);
            url = root;
        }
    }
    url
}

/// A command-line dictionary argument `EXT:PATH` split at its first colon into
/// the file extension and the dictionary's path; `None` when it has no colon.
pub fn parse_dictionary_arg(raw: &str) -> (res: Option<(String, String)>)
    ensures
        match res {
            Some((extension, path)) => raw@ == extension@ + seq![':'] + path@ && !extension@.contains(
                ':',
            ),
            None => !raw@.contains(':'),
        },
{
    let n = raw.unicode_len();
    match str_find_char(raw, ':') {
        Some(i) => {
            let extension = raw.substring_char(0, i).to_owned();
            let path = raw.substring_char(i + 1, n).to_owned();
            assert(raw@ =~= extension@ + seq![':'] + path@);
            assert(!extension@.contains(':')) by {
                if extension@.contains(':') {
                    let k = choose|k: int| 0 <= k < extension@.len() && extension@[k] == ':';
                    assert(raw@[k] == ':');
                }
            }
            Some((extension, path))
        },
        None => {
            assert(!raw@.contains(':')) by {
                if raw@.contains(':') {
                    let k = choose|k: int| 0 <= k < raw@.len() && raw@[k] == ':';
                    assert(raw@[k] != ':');
                }
            }
            None
        },
    }
}

/// A zstd dictionary to compress the imported files with one extension.
pub struct ImportDictionary {
    /// The file extension (without the dot) it is used for.
    pub extension: String,
    /// The dictionary itself.
    pub bytes: Vec<u8>,
    /// Its id in the site.
    pub id: u32,
}

/// The number of dictionaries among `dictionaries` for `extension`.
pub open spec fn count_for_extension(dictionaries: Seq<ImportDictionary>, extension: Seq<char>) -> nat
    decreases dictionaries.len(),
{
    if dictionaries.len() == 0 {
        0
    } else {
        count_for_extension(dictionaries.drop_last(), extension) + if dictionaries.last().extension@
            == extension {
            1nat
        } else {
            0nat
        }
    }
}

proof fn lemma_count_zero(dictionaries: Seq<ImportDictionary>, extension: Seq<char>, i: int)
    requires
        0 <= i < dictionaries.len(),
        dictionaries[i].extension@ == extension,
    ensures
        count_for_extension(dictionaries, extension) > 0,
    decreases dictionaries.len(),
{
    if i < dictionaries.len() - 1 {
        lemma_count_zero(dictionaries.drop_last(), extension, i);
    }
}

proof fn lemma_count_two(dictionaries: Seq<ImportDictionary>, extension: Seq<char>, i: int, j: int)
    requires
        0 <= i < j < dictionaries.len(),
        dictionaries[i].extension@ == extension,
        dictionaries[j].extension@ == extension,
    ensures
        count_for_extension(dictionaries, extension) >= 2,
    decreases dictionaries.len(),
{
    if j < dictionaries.len() - 1 {
        lemma_count_two(dictionaries.drop_last(), extension, i, j);
    } else {
        lemma_count_zero(dictionaries.drop_last(), extension, i);
    }
}

/// How many of `dictionaries` are for `extension`.
pub fn count_dictionaries_for(dictionaries: &Vec<ImportDictionary>, extension: &str) -> (count: usize)
    ensures
        count == count_for_extension(dictionaries@, extension@),
{
    let mut count: usize = 0;
    let mut i: usize = 0;
    while i < dictionaries.len()
        invariant
            i <= dictionaries@.len(),
            count == count_for_extension(dictionaries@.take(i as int), extension@),
            count <= i,
        decreases dictionaries@.len() - i,
    {
        assert(dictionaries@.take(i + 1).drop_last() =~= dictionaries@.take(i as int));
        if str_eq(dictionaries[i].extension.as_str(), extension) {
            count = count + 1;
        }
        i = i + 1;
    }
    assert(dictionaries@.take(dictionaries@.len() as int) =~= dictionaries@);
    count
}

/// The dictionary for `extension`, when there is exactly one.
pub fn find_dictionary(dictionaries: &Vec<ImportDictionary>, extension: &str) -> (res: Option<
    usize,
>)
    requires
        count_for_extension(dictionaries@, extension@) < 2,
    ensures
        match res {
            Some(i) => i < dictionaries@.len() && dictionaries@[i as int].extension@ == extension@,
            None => forall|k: int|
                0 <= k < dictionaries@.len() ==> dictionaries@[k].extension@ != extension@,
        },
{
    let mut i: usize = 0;
    while i < dictionaries.len()
        invariant
            i <= dictionaries@.len(),
            forall|k: int| 0 <= k < i ==> dictionaries@[k].extension@ != extension@,
        decreases dictionaries@.len() - i,
    {
        if str_eq(dictionaries[i].extension.as_str(), extension) {
            return Some(i);
        }
        i = i + 1;
    }
    None
}

/// A file made ready to add to a site.
pub struct ImportedPage {
    /// The URL to add it under.
    pub url: String,
    /// The id of the dictionary its contents are compressed with, if any.
    pub zstd_dictionary: Option<u32>,
    /// The contents to store.
    pub contents: Vec<u8>,
}

/// Prepares the file at `path` (relative to the imported directory, with the
/// given extension) for adding to a site: its URL, and its contents compressed
/// with the dictionary for its extension when there is one. It fails only
/// when zstd cannot compress the contents with that dictionary.
pub fn prepare_import(
    path: &str,
    extension: Option<&str>,
    contents: Vec<u8>,
    dictionaries: &Vec<ImportDictionary>,
    drop_trailing_index_html: bool,
) -> (res: Result<ImportedPage, SiteError>)
    requires
        extension matches Some(ext) ==> count_for_extension(dictionaries@, ext@) < 2,
    ensures
        res matches Ok(page) ==> page.url@ == spec_page_url(path@, drop_trailing_index_html),
        res matches Err(e) ==> e is Io,
        match extension {
            Some(ext) if exists|k: int|
                0 <= k < dictionaries@.len() && (#[trigger] dictionaries@[k]).extension@ == ext@ => {
                let k = choose|k: int|
                    0 <= k < dictionaries@.len() && (#[trigger] dictionaries@[k]).extension@ == ext@;
                match zstd_compressed(
                    IMPORT_COMPRESSION_LEVEL as int,
                    contents@,
                    dictionaries@[k].bytes@,
                ) {
                    Some(compressed) => res matches Ok(page) && {
                        &&& page.zstd_dictionary == Some(dictionaries@[k].id)
                        &&& page.contents@ == compressed
                        &&& zstd_decoded(page.contents@, dictionaries@[k].bytes@) == Some(
                            contents@,
                        )
                    },
                    None => res matches Err(e) && e is Io,
                }
            },
            _ => res matches Ok(page) && page.zstd_dictionary is None && page.contents@ == contents@,
        },
{
    let mut stored = contents;
    let mut dictionary_id: Option<u32> = None;
    if let Some(ext) = extension {
        if let Some(i) = find_dictionary(dictionaries, ext) {
            proof {
                let k = choose|k: int|
                    0 <= k < dictionaries@.len() && (#[trigger] dictionaries@[k]).extension@ == ext@;
                if k != i {
                    if k < i {
                        lemma_count_two(dictionaries@, ext@, k, i as int);
                    } else {
                        lemma_count_two(dictionaries@, ext@, i as int, k);
                    }
                }
            }
            let dictionary = &dictionaries[i];
            match zstd_compress_with_dictionary(
                IMPORT_COMPRESSION_LEVEL,
                stored.as_slice(),
                dictionary.bytes.as_slice(),
            ) {
                Ok(compressed) => {
                    stored = compressed;
                    dictionary_id = Some(dictionary.id);
                },
                Err(e) => return Err(SiteError::Io(e)),
            }
        }
    }
    let url = page_url_for_path(path, drop_trailing_index_html);
    Ok(ImportedPage { url, zstd_dictionary: dictionary_id, contents: stored })
}

} // verus!
