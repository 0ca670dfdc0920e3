//! Where the blob of a catalog row lies under the audio root.

use vstd::prelude::*;
use vstd::string::*;
use crate::catalog::{SoundRecord, SoundRecordView};
use crate::filename::{base_name, extension_of, lemma_extension_is_plain, stem_of};
use crate::ident::{is_identifier_text, lemma_identifier_is_plain};
use crate::text::{
    chars_of, lemma_last_index_of_absent, lemma_last_index_of_unique,
};

verus! {

/// `root` as a directory prefix: empty where `root` is empty, else `root`
/// ending in exactly the separator it already has or one that is added.
pub open spec fn directory_prefix(root: Seq<char>) -> Seq<char> {
    if root.len() == 0 || root.last() == '/' {
        root
    } else {
        root.push('/')
    }
}

/// The path of the blob named `file_name` with the extension `extension`
/// (which brings its own dot) under `root`.
pub open spec fn blob_path(root: Seq<char>, file_name: Seq<char>, extension: Seq<char>) -> Seq<
    char,
> {
    directory_prefix(root) + file_name + extension
}

/// The path of the blob that belongs to `record`.
pub open spec fn record_path(root: Seq<char>, record: SoundRecordView) -> Seq<char> {
    blob_path(root, record.file_name, record.extension)
}

/// Builds the path of the blob named `file_name` and `extension` under `root`.
pub fn blob_path_for(root: &str, file_name: &str, extension: &str) -> (path: String)
    ensures
        path@ == blob_path(root@, file_name@, extension@),
{
    let mut path = root.to_owned();
    let chars = chars_of(root);
    if chars.len() > 0 && chars[chars.len() - 1] != '/' {
        proof {
            reveal_strlit("/");
            assert("/"@ =~= seq!['/']);
            assert(root@ + seq!['/'] =~= root@.push('/'));
        }
        path.append("/");
    }
    path.append(file_name);
    path.append(extension);
    path
}

/// The path of the blob that belongs to `record`.
pub fn path_for(root: &str, record: &SoundRecord) -> (path: String)
    ensures
        path@ == record_path(root@, record@),
{
    blob_path_for(root, record.file_name.as_str(), record.extension.as_str())
}

/// The blob of an uploaded file lies directly under the audio root, and its
/// name reads back as what it was made of: where the blob is named by an
/// identifier and by the extension of the name that the file was uploaded
/// under, the stem of its path is the identifier and the extension of its
/// path is that extension.
pub proof fn law_blob_name_reads_back(
    root: Seq<char>,
    file_name: Seq<char>,
    uploaded_as: Seq<char>,
)
    requires
        is_identifier_text(file_name),
        extension_of(uploaded_as) is Some,
    ensures
        ({
            let extension = extension_of(uploaded_as)->0;
            let path = blob_path(root, file_name, seq!['.'] + extension);
            &&& path == directory_prefix(root) + base_name(path)
            &&& base_name(path) == file_name + seq!['.'] + extension
            &&& stem_of(path) == Some(file_name)
            &&& extension_of(path) == Some(extension)
        }),
{
    let extension = extension_of(uploaded_as)->0;
    let prefix = directory_prefix(root);
    let tail = file_name + seq!['.'] + extension;
    let path = blob_path(root, file_name, seq!['.'] + extension);
    lemma_identifier_is_plain(file_name);
    lemma_extension_is_plain(uploaded_as);
    assert(path =~= prefix + tail);
    assert forall|i: int| 0 <= i < tail.len() implies tail[i] != '/' && (i > 36 ==> tail[i]
        != '.') by {
        if i < 36 {
            assert(tail[i] == file_name[i]);
        } else if i > 36 {
            assert(tail[i] == extension[i - 37]);
        }
    }
    if prefix.len() == 0 {
        assert(path =~= tail);
        lemma_last_index_of_absent(path, '/');
    } else {
        assert forall|j: int| prefix.len() - 1 < j < path.len() implies path[j] != '/' by {
            assert(path[j] == tail[j - prefix.len()]);
        }
        lemma_last_index_of_unique(path, '/', prefix.len() - 1);
        assert(path.subrange(prefix.len() as int, path.len() as int) =~= tail);
    }
    assert(base_name(path) == tail);
    assert(tail[36] == '.');
    lemma_last_index_of_unique(tail, '.', 36);
    assert(tail.len() >= 37);
    assert(tail.subrange(0, 36) =~= file_name);
    assert(tail.subrange(37, tail.len() as int) =~= extension);
}

} // verus!
