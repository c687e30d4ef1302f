//! Content fingerprints for the files under `static/`, used to give every
//! asset URL a cache-busting `?v=` query.
use vstd::prelude::*;
use sha2::{Digest, Sha256};

verus! {

/// SHA-256 digest of `data`, as `sha2::Sha256::digest` computes it.
pub uninterp spec fn spec_sha256(data: Seq<u8>) -> Seq<u8>;

/// Calls `sha2::Sha256::digest`. The contract claims that the result is the
/// SHA-256 digest of the input, named by `spec_sha256`, and is 32 bytes long
/// (the output size of `Sha256`).
#[verifier::external_body]
fn sha256_digest(data: &[u8]) -> (d: Vec<u8>)
    ensures
        d@ == spec_sha256(data@),
        d@.len() == 32,
{
    Sha256::digest(data).to_vec()
}

/// Number of hex characters of the digest that an asset URL carries.
pub const FINGERPRINT_LEN: usize = 12;

/// The lower-case hex digit of `d`.
pub open spec fn hex_digit(d: nat) -> char {
    if d < 10 {
        (48 + d) as char
    } else {
        (87 + d) as char
    }
}

/// Whether `c` is a lower-case hex digit.
pub open spec fn is_lower_hex(c: char) -> bool {
    ('0' <= c && c <= '9') || ('a' <= c && c <= 'f')
}

/// Lower-case hex text of `bytes`, two digits per byte, as `{:x}` writes a
/// digest.
pub open spec fn hex_lower(bytes: Seq<u8>) -> Seq<char>
    decreases bytes.len(),
{
    if bytes.len() == 0 {
        Seq::empty()
    } else {
        hex_lower(bytes.drop_last()) + seq![
            hex_digit(bytes.last() as nat / 16),
            hex_digit(bytes.last() as nat % 16),
        ]
    }
}

/// The fingerprint of a file's contents: the first 12 hex digits of its
/// SHA-256 digest.
pub open spec fn fingerprint(contents: Seq<u8>) -> Seq<char> {
    hex_lower(spec_sha256(contents).take(6))
}

/// A file found under the asset directory, with its path as the directory
/// walk produced it (starting with the directory) and its bytes.
pub struct AssetFile {
    pub path: String,
    pub contents: Vec<u8>,
}

/// `path` lies under `dir`: it starts with `dir` and a `/`.
pub open spec fn under_dir(dir: Seq<char>, path: Seq<char>) -> bool {
    path.len() > dir.len() && path.take(dir.len() as int) == dir && path[dir.len() as int] == '/'
}

/// The path of `path` relative to `dir`, the key of its fingerprint.
pub open spec fn relative_path(dir: Seq<char>, path: Seq<char>) -> Seq<char> {
    path.skip(dir.len() + 1int)
}

/// The fingerprints of `files`, keyed by their paths relative to `dir`; a
/// later file with the same key replaces an earlier one.
pub open spec fn fingerprints(dir: Seq<char>, files: Seq<AssetFile>) -> Map<Seq<char>, Seq<char>>
    decreases files.len(),
{
    if files.len() == 0 {
        Map::empty()
    } else {
        fingerprints(dir, files.drop_last()).insert(
            relative_path(dir, files.last().path@),
            fingerprint(files.last().contents@),
        )
    }
}

/// Fingerprints of the static assets, keyed by path relative to `static/`.
#[derive(PartialEq, Eq, Debug)]
pub struct AssetHashes {
    entries: Vec<(String, String)>,
}

/// The map that a list of entries stands for: a later entry for a key
/// replaces an earlier one.
pub open spec fn entries_map(entries: Seq<(String, String)>) -> Map<Seq<char>, Seq<char>>
    decreases entries.len(),
{
    if entries.len() == 0 {
        Map::empty()
    } else {
        entries_map(entries.drop_last()).insert(entries.last().0@, entries.last().1@)
    }
}

/// Position of the last entry for key `k`, or -1 when there is none.
pub open spec fn last_index(entries: Seq<(String, String)>, k: Seq<char>) -> int
    decreases entries.len(),
{
    if entries.len() == 0 {
        -1
    } else if entries.last().0@ == k {
        entries.len() - 1
    } else {
        last_index(entries.drop_last(), k)
    }
}

proof fn lemma_entries_map_lookup(entries: Seq<(String, String)>, k: Seq<char>)
    ensures
        -1 <= last_index(entries, k) < entries.len(),
        entries_map(entries).contains_key(k) <==> last_index(entries, k) >= 0,
        last_index(entries, k) >= 0 ==> entries_map(entries)[k] == entries[last_index(entries, k)].1@,
    decreases entries.len(),
{
    if entries.len() > 0 {
        let init = entries.drop_last();
        lemma_entries_map_lookup(init, k);
        if entries.last().0@ != k && last_index(init, k) >= 0 {
            assert(init[last_index(init, k)] == entries[last_index(init, k)]);
        }
    }
}

proof fn lemma_last_index_found(entries: Seq<(String, String)>, k: Seq<char>, i: int)
    requires
        0 <= i < entries.len(),
        entries[i].0@ == k,
        forall|m: int| i < m < entries.len() ==> entries[m].0@ != k,
    ensures
        last_index(entries, k) == i,
    decreases entries.len(),
{
    if i < entries.len() - 1 {
        let init = entries.drop_last();
        assert(entries.last() == entries[entries.len() - 1]);
        assert forall|m: int| i < m < init.len() implies init[m].0@ != k by {
            assert(init[m] == entries[m]);
        }
        lemma_last_index_found(init, k, i);
    }
}

proof fn lemma_last_index_absent(entries: Seq<(String, String)>, k: Seq<char>)
    requires
        forall|m: int| 0 <= m < entries.len() ==> entries[m].0@ != k,
    ensures
        last_index(entries, k) == -1,
    decreases entries.len(),
{
    if entries.len() > 0 {
        let init = entries.drop_last();
        assert(entries.last() == entries[entries.len() - 1]);
        assert forall|m: int| 0 <= m < init.len() implies init[m].0@ != k by {
            assert(init[m] == entries[m]);
        }
        lemma_last_index_absent(init, k);
    }
}

/// A fingerprint is exactly 12 lower-case hex digits.
pub open spec fn is_fingerprint(h: Seq<char>) -> bool {
    h.len() == FINGERPRINT_LEN && forall|i: int| 0 <= i < h.len() ==> is_lower_hex(#[trigger] h[i])
}

proof fn lemma_hex_lower_shape(bytes: Seq<u8>)
    ensures
        hex_lower(bytes).len() == 2 * bytes.len(),
        forall|i: int| 0 <= i < hex_lower(bytes).len() ==> is_lower_hex(#[trigger] hex_lower(bytes)[i]),
    decreases bytes.len(),
{
    if bytes.len() > 0 {
        let init = bytes.drop_last();
        lemma_hex_lower_shape(init);
        let hi = bytes.last() as nat / 16;
        let lo = bytes.last() as nat % 16;
        assert(is_lower_hex(hex_digit(hi)));
        assert(is_lower_hex(hex_digit(lo)));
        let tail = seq![hex_digit(hi), hex_digit(lo)];
        assert forall|i: int| 0 <= i < hex_lower(bytes).len() implies is_lower_hex(#[trigger] hex_lower(bytes)[i]) by {
            if i < hex_lower(init).len() {
                assert(hex_lower(bytes)[i] == hex_lower(init)[i]);
            } else {
                assert(hex_lower(bytes)[i] == tail[i - hex_lower(init).len()]);
            }
        }
    }
}

proof fn lemma_fingerprint_shape(contents: Seq<u8>)
    requires
        spec_sha256(contents).len() == 32,
    ensures
        is_fingerprint(fingerprint(contents)),
{
    lemma_hex_lower_shape(spec_sha256(contents).take(6));
}

impl View for AssetHashes {
    type V = Map<Seq<char>, Seq<char>>;

    closed spec fn view(&self) -> Map<Seq<char>, Seq<char>> {
        entries_map(self.entries@)
    }
}

/// `/static/<file>?v=<fingerprint>`.
pub open spec fn versioned_url(file: Seq<char>, hash: Seq<char>) -> Seq<char> {
    "/static/"@ + file + "?v="@ + hash
}

/// The hex digit text of `d`.
fn hex_digit_str(d: u8) -> (s: &'static str)
    requires
        d < 16,
    ensures
        s@ == seq![hex_digit(d as nat)],
{
    proof {
        reveal_strlit("0");
        reveal_strlit("1");
        reveal_strlit("2");
        reveal_strlit("3");
        reveal_strlit("4");
        reveal_strlit("5");
        reveal_strlit("6");
        reveal_strlit("7");
        reveal_strlit("8");
        reveal_strlit("9");
        reveal_strlit("a");
        reveal_strlit("b");
        reveal_strlit("c");
        reveal_strlit("d");
        reveal_strlit("e");
        reveal_strlit("f");
    }
    match d {
        0 => "0",
        1 => "1",
        2 => "2",
        3 => "3",
        4 => "4",
        5 => "5",
        6 => "6",
        7 => "7",
        8 => "8",
        9 => "9",
        10 => "a",
        11 => "b",
        12 => "c",
        13 => "d",
        14 => "e",
        _ => "f",
    }
}

/// Lower-case hex text of the first `n` bytes of `bytes`.
fn hex_prefix(bytes: &Vec<u8>, n: usize) -> (s: String)
    requires
        n <= bytes@.len(),
    ensures
        s@ == hex_lower(bytes@.take(n as int)),
{
    let mut s = String::new();
    let mut i: usize = 0;
    assert(bytes@.take(0) =~= Seq::<u8>::empty());
    while i < n
        invariant
            n <= bytes@.len(),
            0 <= i <= n,
            s@ == hex_lower(bytes@.take(i as int)),
        decreases n - i,
    {
        let b = bytes[i];
        s.append(hex_digit_str(b / 16));
        s.append(hex_digit_str(b % 16));
        proof {
            let next = bytes@.take(i + 1);
            assert(next.drop_last() =~= bytes@.take(i as int));
            assert(next.last() == b);
        }
        i = i + 1;
    }
    s
}

/// The fingerprint of a file's contents: the first 12 hex digits of its
/// SHA-256 digest.
pub fn fingerprint_of(contents: &[u8]) -> (h: String)
    ensures
        h@ == fingerprint(contents@),
        is_fingerprint(h@),
{
    let digest = sha256_digest(contents);
    proof {
        lemma_fingerprint_shape(contents@);
    }
    hex_prefix(&digest, 6)
}

/// The path of `path` relative to `dir`.
fn relative_path_of(dir: &str, path: &str) -> (r: String)
    requires
        under_dir(dir@, path@),
    ensures
        r@ == relative_path(dir@, path@),
{
    let len = path.unicode_len();
    let skip = dir.unicode_len() + 1;
    String::from_str(path.substring_char(skip, len))
}

/// Hash every file found under `dir`, keyed by its path relative to `dir`.
/// Each key maps to the 12-hex-digit fingerprint of that file's contents.
pub fn hash_all(dir: &str, files: &Vec<AssetFile>) -> (hashes: AssetHashes)
    requires
        forall|i: int| 0 <= i < files@.len() ==> under_dir(dir@, #[trigger] files@[i].path@),
    ensures
        hashes@ == fingerprints(dir@, files@),
        forall|k: Seq<char>| #[trigger] hashes@.contains_key(k) ==> is_fingerprint(hashes@[k]),
{
    let mut entries: Vec<(String, String)> = Vec::new();
    let mut i: usize = 0;
    assert(files@.take(0) =~= Seq::<AssetFile>::empty());
    while i < files.len()
        invariant
            0 <= i <= files@.len(),
            forall|j: int| 0 <= j < files@.len() ==> under_dir(dir@, #[trigger] files@[j].path@),
            entries_map(entries@) == fingerprints(dir@, files@.take(i as int)),
            forall|k: Seq<char>| #[trigger] entries_map(entries@).contains_key(k) ==> is_fingerprint(entries_map(entries@)[k]),
        decreases files@.len() - i,
    {
        let file = &files[i];
        let key = relative_path_of(dir, file.path.as_str());
        let hash = fingerprint_of(file.contents.as_slice());
        let ghost before = entries@;
        entries.push((key, hash));
        proof {
            assert(entries@.drop_last() =~= before);
            let next = files@.take(i + 1);
            assert(next.drop_last() =~= files@.take(i as int));
            assert(next.last() == files@[i as int]);
        }
        i = i + 1;
    }
    assert(files@.take(files@.len() as int) =~= files@);
    AssetHashes { entries }
}

impl AssetHashes {
    /// The fingerprint recorded for `file`, if it is a known asset.
    pub fn get(&self, file: &str) -> (r: Option<&String>)
        ensures
            match r {
                Some(h) => self@.contains_key(file@) && h@ == self@[file@],
                None => !self@.contains_key(file@),
            },
    {
        let key = String::from_str(file);
        let mut i = self.entries.len();
        while i > 0
            invariant
                i <= self.entries@.len(),
                key@ == file@,
                forall|m: int| i <= m < self.entries@.len() ==> self.entries@[m].0@ != file@,
            decreases i,
        {
            i = i - 1;
            if self.entries[i].0 == key {
                proof {
                    lemma_last_index_found(self.entries@, file@, i as int);
                    lemma_entries_map_lookup(self.entries@, file@);
                }
                return Some(&self.entries[i].1);
            }
        }
        proof {
            lemma_last_index_absent(self.entries@, file@);
            lemma_entries_map_lookup(self.entries@, file@);
        }
        None
    }

    /// Whether `file` is a known asset.
    pub fn contains(&self, file: &str) -> (b: bool)
        ensures
            b == self@.contains_key(file@),
    {
        self.get(file).is_some()
    }
}

/// `/static/<file>?v=<12-hex sha256 prefix>` for a known asset `file`.
pub fn asset_url(hashes: &AssetHashes, file: &str) -> (url: String)
    requires
        hashes@.contains_key(file@),
    ensures
        url@ == versioned_url(file@, hashes@[file@]),
{
    let hash = match hashes.get(file) {
        Some(h) => h,
        None => {
            assert(false);
            return String::new();
        },
    };
    String::from_str("/static/").concat(file).concat("?v=").concat(hash.as_str())
}

} // verus!
