//! Files as they are exchanged with the server: their encoding, and the
//! summary of a folder by which two copies of it are compared.

use base64::engine::general_purpose;
use base64::Engine;
use sha2::{Digest, Sha256};
use vstd::prelude::*;
use vstd::string::*;
use crate::text::{less, lex_lt};

verus! {

/// The base64 text of a sequence of bytes, in the standard alphabet with
/// padding.
pub uninterp spec fn base64_text(bytes: Seq<u8>) -> Seq<char>;

/// The bytes that a base64 text stands for; `None` where the text is not
/// valid base64.
pub uninterp spec fn base64_bytes(text: Seq<char>) -> Option<Seq<u8>>;

/// The SHA-256 digest of a sequence of bytes.
pub uninterp spec fn sha256_digest(bytes: Seq<u8>) -> Seq<u8>;

/// `base64`'s `general_purpose::STANDARD.encode`: the bytes as base64 text.
/// It fails only where the length of the text does not fit a `usize`, which
/// the bound on the input excludes.
#[verifier::external_body]
pub fn encode(input: &[u8]) -> (out: String)
    requires
        input@.len() <= usize::MAX / 2,
    ensures
        out@ == base64_text(input@),
{
    general_purpose::STANDARD.encode(input)
}

/// `base64`'s `general_purpose::STANDARD.decode`: the bytes of a base64 text,
/// or the text of the error where the input is not valid base64.
#[verifier::external_body]
pub fn decode(input: &str) -> (out: Result<Vec<u8>, String>)
    ensures
        out matches Ok(bytes) ==> base64_bytes(input@) == Some(bytes@),
        out is Err ==> base64_bytes(input@) is None,
{
    general_purpose::STANDARD.decode(input).map_err(|e| e.to_string())
}

/// `sha2`'s `Sha256::digest`: the SHA-256 digest of the bytes.
#[verifier::external_body]
fn sha256(input: &[u8]) -> (out: Vec<u8>)
    ensures
        out@ == sha256_digest(input@),
{
    Sha256::digest(input).to_vec()
}

/// The digit of a number below 16 in base 16, in lower case.
pub open spec fn hex_digit(n: int) -> char {
    if n < 10 {
        crate::text::digit_char(n)
    } else if n == 10 {
        'a'
    } else if n == 11 {
        'b'
    } else if n == 12 {
        'c'
    } else if n == 13 {
        'd'
    } else if n == 14 {
        'e'
    } else {
        'f'
    }
}

/// The bytes in base 16: two digits in lower case for each byte.
pub open spec fn hex_spec(bytes: Seq<u8>) -> Seq<char> {
    Seq::new(
        2 * bytes.len(),
        |i: int|
            if i % 2 == 0 {
                hex_digit(bytes[i / 2] as int / 16)
            } else {
                hex_digit(bytes[i / 2] as int % 16)
            },
    )
}

/// `hex::encode`: the bytes as a hex string in lower case, two digits for
/// each byte.
#[verifier::external_body]
fn hex_encode(data: &[u8]) -> (out: String)
    ensures
        out@ == hex_spec(data@),
{
    hex::encode(data)
}

/// The hash of a text: the SHA-256 digest of its bytes, in base 16.
pub open spec fn hash_spec(input: Seq<char>) -> Seq<char> {
    hex_spec(sha256_digest(vstd::utf8::encode_utf8(input)))
}

/// Hashes a text (see [`hash_spec`]).
pub fn hash_str(input: &str) -> (out: String)
    ensures
        out@ == hash_spec(input@),
{
    let digest = sha256(input.as_bytes());
    hex_encode(digest.as_slice())
}

/// What is known of a file: its path below the folder, the hash of its
/// content, and the time of its last change.
#[derive(Debug)]
pub struct FileMeta {
    pub filename: String,
    pub hash: String,
    pub mtime: String,
}

/// A [`FileMeta`] as a plain value.
pub struct FileMetaView {
    pub filename: Seq<char>,
    pub hash: Seq<char>,
    pub mtime: Seq<char>,
}

impl View for FileMeta {
    type V = FileMetaView;

    open spec fn view(&self) -> FileMetaView {
        FileMetaView { filename: self.filename@, hash: self.hash@, mtime: self.mtime@ }
    }
}

/// The views of a sequence of files.
pub open spec fn files_view(v: Seq<FileMeta>) -> Seq<FileMetaView> {
    Seq::new(v.len(), |i: int| v[i]@)
}

impl FileMetaView {
    /// The file in one line.
    pub open spec fn text(self) -> Seq<char> {
        "file: "@ + self.filename + ", hash: "@ + self.hash + ", mtime: "@ + self.mtime
    }

    /// What of the file goes into the hash of its folder.
    pub open spec fn summary(self) -> Seq<char> {
        self.filename + ":"@ + self.hash + ":"@ + self.mtime
    }
}

impl FileMeta {
    /// What is known of the file `filename`, last changed at `mtime`, that
    /// holds `bytes`: its hash is that of its content in base64.
    pub fn new(filename: &str, mtime: &str, bytes: &[u8]) -> (out: FileMeta)
        requires
            bytes@.len() <= usize::MAX / 2,
        ensures
            out@ == (FileMetaView {
                filename: filename@,
                hash: hash_spec(base64_text(bytes@)),
                mtime: mtime@,
            }),
    {
        FileMeta {
            filename: String::from_str(filename),
            hash: hash_str(encode(bytes).as_str()),
            mtime: String::from_str(mtime),
        }
    }

    /// The file in one line.
    pub fn to_string(&self) -> (out: String)
        ensures
            out@ == self@.text(),
    {
        let mut out = String::from_str("file: ");
        out.append(self.filename.as_str());
        out.append(", hash: ");
        out.append(self.hash.as_str());
        out.append(", mtime: ");
        out.append(self.mtime.as_str());
        out
    }

    fn duplicate(&self) -> (out: FileMeta)
        ensures
            out@ == self@,
    {
        FileMeta {
            filename: self.filename.clone(),
            hash: self.hash.clone(),
            mtime: self.mtime.clone(),
        }
    }
}

/// What is known of a folder: its files, ordered by name, and a hash that
/// changes when a file is added, removed or changed.
#[derive(Debug)]
pub struct FolderMeta {
    pub foldername: String,
    pub files: Vec<FileMeta>,
    pub hash: String,
}

/// A [`FolderMeta`] as a plain value.
pub struct FolderMetaView {
    pub foldername: Seq<char>,
    pub files: Seq<FileMetaView>,
    pub hash: Seq<char>,
}

impl View for FolderMeta {
    type V = FolderMetaView;

    open spec fn view(&self) -> FolderMetaView {
        FolderMetaView {
            foldername: self.foldername@,
            files: files_view(self.files@),
            hash: self.hash@,
        }
    }
}

/// Where `file` goes into the ordered sequence `sorted`: behind every file
/// whose name does not come after its own.
pub open spec fn insert_pos(sorted: Seq<FileMetaView>, file: FileMetaView) -> nat
    decreases sorted.len(),
{
    if sorted.len() > 0 && lex_lt(file.filename, sorted.last().filename) {
        insert_pos(sorted.drop_last(), file)
    } else {
        sorted.len()
    }
}

/// The files ordered by name; files of the same name keep their order.
pub open spec fn sort_spec(files: Seq<FileMetaView>) -> Seq<FileMetaView>
    decreases files.len(),
{
    if files.len() == 0 {
        Seq::empty()
    } else {
        let before = sort_spec(files.drop_last());
        before.insert(insert_pos(before, files.last()) as int, files.last())
    }
}

/// Whether no file stands before a file whose name comes before its own.
pub open spec fn sorted_by_name(files: Seq<FileMetaView>) -> bool {
    forall|i: int, j: int|
        0 <= i < j < files.len() ==> !lex_lt(
            (#[trigger] files[j]).filename,
            (#[trigger] files[i]).filename,
        )
}

/// Where a file goes: behind every file that does not come after it, and
/// in front of every file that does.
pub proof fn lemma_insert_pos(sorted: Seq<FileMetaView>, file: FileMetaView)
    ensures
        insert_pos(sorted, file) <= sorted.len(),
        forall|k: int|
            insert_pos(sorted, file) <= k < sorted.len() ==> lex_lt(
                file.filename,
                (#[trigger] sorted[k]).filename,
            ),
        insert_pos(sorted, file) > 0 ==> !lex_lt(
            file.filename,
            sorted[insert_pos(sorted, file) - 1].filename,
        ),
    decreases sorted.len(),
{
    if sorted.len() > 0 && lex_lt(file.filename, sorted.last().filename) {
        lemma_insert_pos(sorted.drop_last(), file);
        let p = insert_pos(sorted, file);
        assert forall|k: int| p <= k < sorted.len() implies lex_lt(
            file.filename,
            (#[trigger] sorted[k]).filename,
        ) by {
            if k < sorted.len() - 1 {
                assert(sorted[k] == sorted.drop_last()[k]);
            }
        }
        if p > 0 {
            assert(sorted[p - 1] == sorted.drop_last()[p - 1]);
        }
    }
}

/// The files come out ordered by name.
pub proof fn lemma_sort_sorted(files: Seq<FileMetaView>)
    ensures
        sorted_by_name(sort_spec(files)),
        sort_spec(files).len() == files.len(),
    decreases files.len(),
{
    if files.len() > 0 {
        lemma_sort_sorted(files.drop_last());
        let before = sort_spec(files.drop_last());
        let x = files.last();
        let p = insert_pos(before, x) as int;
        lemma_insert_pos(before, x);
        let after = before.insert(p, x);
        assert forall|i: int, j: int| 0 <= i < j < after.len() implies !lex_lt(
            (#[trigger] after[j]).filename,
            (#[trigger] after[i]).filename,
        ) by {
            if j < p {
                assert(after[i] == before[i] && after[j] == before[j]);
            } else if j == p {
                assert(after[i] == before[i]);
                assert(after[j] == x);
                if i < p - 1 {
                    assert(!lex_lt(before[p - 1].filename, before[i].filename));
                } else {
                    crate::text::lemma_lex_irreflexive(before[i].filename);
                }
                crate::text::lemma_lex_transitive(
                    before[i].filename,
                    before[p - 1].filename,
                    x.filename,
                );
            } else if i < p {
                assert(after[i] == before[i] && after[j] == before[j - 1]);
            } else if i == p {
                assert(after[j] == before[j - 1]);
                assert(lex_lt(x.filename, before[j - 1].filename));
                crate::text::lemma_lex_total(x.filename, before[j - 1].filename);
            } else {
                assert(after[i] == before[i - 1] && after[j] == before[j - 1]);
            }
        }
    }
}

/// The files that come out are the files that went in, each as often.
pub proof fn lemma_sort_permutes(files: Seq<FileMetaView>)
    ensures
        sort_spec(files).to_multiset() == files.to_multiset(),
    decreases files.len(),
{
    broadcast use vstd::seq_lib::group_to_multiset_ensures;

    if files.len() == 0 {
        assert(sort_spec(files) =~= files);
    } else {
        lemma_sort_permutes(files.drop_last());
        let before = sort_spec(files.drop_last());
        let x = files.last();
        let p = insert_pos(before, x) as int;
        lemma_insert_pos(before, x);
        let after = before.insert(p, x);
        assert(after.remove(p) =~= before);
        assert(after[p] == x);
        assert(after.remove(p).to_multiset() == after.to_multiset().remove(x));
        assert(after.contains(x));
        assert(after.to_multiset().count(x) > 0);
        assert(after.to_multiset() =~= before.to_multiset().insert(x));
        assert(files =~= files.drop_last().push(x));
        assert(files.to_multiset() =~= files.drop_last().to_multiset().insert(x));
    }
}

/// The summaries of the first `upto` files, with `|` between them.
pub open spec fn summaries(files: Seq<FileMetaView>, upto: nat) -> Seq<char>
    decreases upto,
{
    if upto == 0 {
        Seq::empty()
    } else if upto == 1 {
        files[0].summary()
    } else {
        summaries(files, (upto - 1) as nat) + "|"@ + files[upto - 1].summary()
    }
}

/// What is known of the folder `foldername` that holds `files`.
pub open spec fn folder_meta_spec(foldername: Seq<char>, files: Seq<FileMetaView>) -> FolderMetaView {
    let sorted = sort_spec(files);
    FolderMetaView { foldername, files: sorted, hash: hash_spec(summaries(sorted, sorted.len())) }
}

/// The lines that show a folder: name, hash, and a line for each file.
pub open spec fn folder_text(folder: FolderMetaView, upto: nat) -> Seq<char>
    decreases upto,
{
    if upto == 0 {
        "\nfolder: "@ + folder.foldername + "\nhash: "@ + folder.hash
    } else {
        folder_text(folder, (upto - 1) as nat) + "\n  "@ + folder.files[upto - 1].text()
    }
}

fn insert_sorted(sorted: &mut Vec<FileMeta>, file: FileMeta)
    ensures
        files_view(final(sorted)@) == files_view(old(sorted)@).insert(
            insert_pos(files_view(old(sorted)@), file@) as int,
            file@,
        ),
{
    let ghost views = files_view(sorted@);
    let mut pos: usize = sorted.len();
    assert(views.take(pos as int) == views);
    while pos > 0 && less(file.filename.as_str(), sorted[pos - 1].filename.as_str())
        invariant
            pos <= sorted.len(),
            views == files_view(sorted@),
            insert_pos(views, file@) == insert_pos(views.take(pos as int), file@),
        decreases pos,
    {
        proof {
            assert(views.take(pos as int).last() == sorted@[pos - 1]@);
            assert(views.take(pos as int).drop_last() == views.take(pos - 1));
        }
        pos -= 1;
    }
    proof {
        if pos > 0 {
            assert(views.take(pos as int).last() == sorted@[pos - 1]@);
        }
        assert(insert_pos(views, file@) == pos);
    }
    let ghost added = file@;
    sorted.insert(pos, file);
    assert(files_view(sorted@) =~= views.insert(pos as int, added));
}

/// Summarises the folder `foldername`, given what is known of its files in
/// any order (see [`folder_meta_spec`]).
pub fn folder_meta(foldername: &str, files: &Vec<FileMeta>) -> (out: FolderMeta)
    ensures
        out@ == folder_meta_spec(foldername@, files_view(files@)),
{
    let mut sorted: Vec<FileMeta> = Vec::new();
    let mut i: usize = 0;
    assert(files_view(sorted@) =~= sort_spec(files_view(files@).take(0)));
    while i < files.len()
        invariant
            i <= files.len(),
            files_view(sorted@) == sort_spec(files_view(files@).take(i as int)),
        decreases files.len() - i,
    {
        proof {
            let v = files_view(files@);
            assert(v.take(i + 1).drop_last() == v.take(i as int));
            assert(v.take(i + 1).last() == files@[i as int]@);
        }
        insert_sorted(&mut sorted, files[i].duplicate());
        i += 1;
    }
    assert(files_view(files@).take(files.len() as int) == files_view(files@));
    let ghost views = files_view(sorted@);
    let mut text = String::new();
    let mut k: usize = 0;
    while k < sorted.len()
        invariant
            k <= sorted.len(),
            views == files_view(sorted@),
            text@ == summaries(views, k as nat),
        decreases sorted.len() - k,
    {
        if k > 0 {
            text.append("|");
        }
        let f = &sorted[k];
        proof {
            assert(views[k as int] == sorted@[k as int]@);
        }
        text.append(f.filename.as_str());
        text.append(":");
        text.append(f.hash.as_str());
        text.append(":");
        text.append(f.mtime.as_str());
        proof {
            let s = views[k as int].summary();
            if k == 0 {
                assert(text@ =~= s);
            } else {
                assert(text@ =~= summaries(views, k as nat) + "|"@ + s);
            }
        }
        k += 1;
    }
    FolderMeta { foldername: String::from_str(foldername), hash: hash_str(text.as_str()), files: sorted }
}

impl FolderMeta {
    /// The folder in lines, for the log.
    pub fn to_string(&self) -> (out: String)
        ensures
            out@ == folder_text(self@, self.files.len() as nat),
    {
        let mut out = String::from_str("\nfolder: ");
        out.append(self.foldername.as_str());
        out.append("\nhash: ");
        out.append(self.hash.as_str());
        let mut i: usize = 0;
        while i < self.files.len()
            invariant
                i <= self.files.len(),
                out@ == folder_text(self@, i as nat),
            decreases self.files.len() - i,
        {
            proof {
                assert(self@.files[i as int] == self.files@[i as int]@);
            }
            out.append("\n  ");
            out.append(self.files[i].to_string().as_str());
            i += 1;
        }
        out
    }
}

/// Whether a file that arrived has to be written: not where the file exists
/// already with the same content. `existing` is the content of the file on
/// disk in base64, if there is such a file.
pub fn needs_write(existing: &Option<String>, content: &str) -> (out: bool)
    ensures
        out == !(existing matches Some(e) && e@ == content@),
{
    match existing {
        Some(e) => !e.as_str().eq(content),
        None => true,
    }
}

} // verus!
