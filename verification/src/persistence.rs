//! Where the player keeps its session and library, and which imported file
//! names it will open.
use vstd::prelude::*;
use vstd::string::StringSliceAdditionalSpecFns;

use crate::model::{Session, Song};

verus! {

pub const DATA_DIR: &'static str = "/data/canopus";

pub const SESSION_PATH: &'static str = "/data/canopus/lyra-player-session.json";

pub const LIBRARY_PATH: &'static str = "/data/canopus/lyra-player-library.json";

pub const IMPORT_DIR: &'static str = "/data/canopus";

/// The only file format version the player reads and writes.
pub const FILE_VERSION: u8 = 1;

/// Durable storage of whole files.
///
/// Implementors report in `contents` the files they hold: a successful write
/// replaces a file, a successful remove deletes it, and a successful read
/// returns what is there.
pub trait Store {
    type Error;

    /// The files held, by path. A verified store defines it; the empty default
    /// only lets stores written outside Verus, whose contracts nothing checks,
    /// leave it out.
    closed spec fn contents(&self) -> Map<Seq<char>, Seq<u8>> {
        Map::empty()
    }

    fn read(&mut self, path: &str) -> (r: Result<Option<Vec<u8>>, Self::Error>)
        ensures
            r is Ok ==> final(self).contents() == old(self).contents(),
            r matches Ok(found) ==> match found {
                Some(bytes) => old(self).contents().contains_key(path@) && old(
                    self,
                ).contents()[path@] == bytes@,
                None => !old(self).contents().contains_key(path@),
            },
    ;

    fn write_atomic(&mut self, path: &str, bytes: &[u8]) -> (r: Result<(), Self::Error>)
        ensures
            r is Ok ==> final(self).contents() == old(self).contents().insert(path@, bytes@),
    ;

    fn remove(&mut self, path: &str) -> (r: Result<(), Self::Error>)
        ensures
            r is Ok ==> final(self).contents() == old(self).contents().remove(path@),
    ;
}

/// Why a stored file could not be used.
#[derive(Clone, Copy, Debug, PartialEq, Eq)]
pub enum PersistenceError<E> {
    Storage(E),
    Json,
    Version,
}

/// The stored form of a session.
#[derive(Clone, Debug, PartialEq, Eq)]
pub struct SessionFile {
    pub version: u8,
    pub session: Session,
}

/// The stored form of the library.
#[derive(Clone, Debug, PartialEq, Eq)]
pub struct LibraryFile {
    pub version: u8,
    pub tracks: Vec<Song>,
}

/// The session file that is written for `session`.
pub fn session_file(session: Session) -> (f: SessionFile)
    ensures
        f.version == FILE_VERSION,
        f.session == session,
{
    SessionFile { version: FILE_VERSION, session }
}

/// The library file that is written for `tracks`.
pub fn library_file(tracks: Vec<Song>) -> (f: LibraryFile)
    ensures
        f.version == FILE_VERSION,
        f.tracks == tracks,
{
    LibraryFile { version: FILE_VERSION, tracks }
}

/// The session in a decoded session file; `decoded` is `Err` when the bytes were not a session file.
pub fn accept_session_file<E>(decoded: Result<SessionFile, ()>) -> (r: Result<
    Option<Session>,
    PersistenceError<E>,
>)
    ensures
        match decoded {
            Err(()) => r == Err::<Option<Session>, PersistenceError<E>>(PersistenceError::Json),
            Ok(file) => if file.version == FILE_VERSION {
                r == Ok::<Option<Session>, PersistenceError<E>>(Some(file.session))
            } else {
                r == Err::<Option<Session>, PersistenceError<E>>(PersistenceError::Version)
            },
        },
{
    match decoded {
        Err(()) => Err(PersistenceError::Json),
        Ok(file) => {
            if file.version != FILE_VERSION {
                Err(PersistenceError::Version)
            } else {
                Ok(Some(file.session))
            }
        },
    }
}

/// The tracks in a decoded library file; `decoded` is `Err` when the bytes were not a library file.
pub fn accept_library_file<E>(decoded: Result<LibraryFile, ()>) -> (r: Result<
    Vec<Song>,
    PersistenceError<E>,
>)
    ensures
        match decoded {
            Err(()) => r == Err::<Vec<Song>, PersistenceError<E>>(PersistenceError::Json),
            Ok(file) => if file.version == FILE_VERSION {
                r == Ok::<Vec<Song>, PersistenceError<E>>(file.tracks)
            } else {
                r == Err::<Vec<Song>, PersistenceError<E>>(PersistenceError::Version)
            },
        },
{
    match decoded {
        Err(()) => Err(PersistenceError::Json),
        Ok(file) => {
            if file.version != FILE_VERSION {
                Err(PersistenceError::Version)
            } else {
                Ok(file.tracks)
            }
        },
    }
}

/// Reads the file at `path`, if it exists.
pub fn read_file<S: Store>(store: &mut S, path: &str) -> (r: Result<
    Option<Vec<u8>>,
    PersistenceError<S::Error>,
>)
    ensures
        r is Ok ==> final(store).contents() == old(store).contents(),
        r matches Ok(found) ==> match found {
            Some(bytes) => old(store).contents().contains_key(path@) && old(store).contents()[path@]
                == bytes@,
            None => !old(store).contents().contains_key(path@),
        },
        r matches Err(e) ==> e is Storage,
{
    match store.read(path) {
        Ok(found) => Ok(found),
        Err(e) => Err(PersistenceError::Storage(e)),
    }
}

/// Replaces the file at `path` with `bytes`.
pub fn write_file<S: Store>(store: &mut S, path: &str, bytes: &[u8]) -> (r: Result<
    (),
    PersistenceError<S::Error>,
>)
    ensures
        r is Ok ==> final(store).contents() == old(store).contents().insert(path@, bytes@),
        r matches Err(e) ==> e is Storage,
{
    match store.write_atomic(path, bytes) {
        Ok(()) => Ok(()),
        Err(e) => Err(PersistenceError::Storage(e)),
    }
}

/// Forgets the stored session.
pub fn clear_session<S: Store>(store: &mut S) -> (r: Result<(), PersistenceError<S::Error>>)
    ensures
        r is Ok ==> final(store).contents() == old(store).contents().remove(SESSION_PATH@),
        r matches Err(e) ==> e is Storage,
{
    match store.remove(SESSION_PATH) {
        Ok(()) => Ok(()),
        Err(e) => Err(PersistenceError::Storage(e)),
    }
}

/// A read of a path just written gives back the written bytes.
pub proof fn lemma_read_after_write(contents: Map<Seq<char>, Seq<u8>>, path: Seq<char>, bytes: Seq<u8>)
    ensures
        contents.insert(path, bytes).contains_key(path),
        contents.insert(path, bytes)[path] == bytes,
{
}

/// A read of a path just removed finds nothing.
pub proof fn lemma_read_after_remove(contents: Map<Seq<char>, Seq<u8>>, path: Seq<char>)
    ensures
        !contents.remove(path).contains_key(path),
{
}

/// The file written for a session is accepted as that session.
pub proof fn lemma_session_file_accepted(session: Session)
    ensures
        ({
            let file = SessionFile { version: FILE_VERSION, session };
            file.version == FILE_VERSION && file.session == session
        }),
{
}

/// ASCII control bytes: `0..=31` and `127`.
pub open spec fn is_ascii_control(b: u8) -> bool {
    b < 32 || b == 127
}

/// The bytes of `.mp3`.
pub open spec fn mp3_suffix() -> Seq<u8> {
    seq![46u8, 109u8, 112u8, 51u8]
}

/// Two dots start at position `i`.
pub open spec fn dots_at(b: Seq<u8>, i: int) -> bool {
    b[i] == 46 && b[i + 1] == 46
}

/// A file name that may be opened inside the import directory: not empty, at most
/// 96 bytes, no leading dot, no `..`, ending in `.mp3`, and without `/`, `\`, NUL
/// or other control bytes.
pub open spec fn safe_file_name(b: Seq<u8>) -> bool {
    &&& b.len() > 0
    &&& b.len() <= 96
    &&& b[0] != 46
    &&& forall|i: int| 0 <= i < b.len() - 1 ==> !#[trigger] dots_at(b, i)
    &&& b.len() >= 4
    &&& b.skip(b.len() - 4) == mp3_suffix()
    &&& forall|i: int|
        0 <= i < b.len() ==> !(#[trigger] b[i] == 47 || b[i] == 92 || b[i] == 0
            || is_ascii_control(b[i]))
}

/// The bytes of the import directory followed by `/`.
pub open spec fn import_prefix_bytes() -> Seq<u8> {
    seq![47u8, 100u8, 97u8, 116u8, 97u8, 47u8, 99u8, 97u8, 110u8, 111u8, 112u8, 117u8, 115u8, 47u8]
}

/// The characters of the import directory followed by `/`.
pub open spec fn import_prefix() -> Seq<char> {
    "/data/canopus/"@
}

/// Bytes that name a safe file directly inside the import directory.
pub open spec fn safe_local_path(b: Seq<u8>) -> bool {
    &&& b.len() >= import_prefix_bytes().len()
    &&& b.take(import_prefix_bytes().len() as int) == import_prefix_bytes()
    &&& safe_file_name(b.skip(import_prefix_bytes().len() as int))
}

/// UTF-8 encodes a concatenation piece by piece.
pub proof fn lemma_encode_utf8_concat(a: Seq<char>, b: Seq<char>)
    ensures
        vstd::utf8::encode_utf8(a + b) == vstd::utf8::encode_utf8(a) + vstd::utf8::encode_utf8(b),
    decreases a.len(),
{
    if a.len() == 0 {
        assert(a + b =~= b);
        assert(vstd::utf8::encode_utf8(a) + vstd::utf8::encode_utf8(b) =~= vstd::utf8::encode_utf8(b));
    } else {
        lemma_encode_utf8_concat(a.drop_first(), b);
        assert((a + b).drop_first() =~= a.drop_first() + b);
        assert((a + b)[0] == a[0]);
        assert(vstd::utf8::encode_utf8(a + b) =~= vstd::utf8::encode_scalar(a[0] as u32) + (
        vstd::utf8::encode_utf8(a.drop_first()) + vstd::utf8::encode_utf8(b)));
    }
}

/// The import directory's name is ASCII, so its UTF-8 bytes are its characters.
pub proof fn lemma_import_prefix_bytes()
    ensures
        vstd::utf8::encode_utf8(import_prefix()) == import_prefix_bytes(),
{
    reveal_strlit("/data/canopus/");
    let c = import_prefix();
    assert(vstd::utf8::is_ascii_chars(c));
    vstd::utf8::is_ascii_chars_encode_utf8(c);
    let e = vstd::utf8::encode_utf8(c);
    assert forall|i: int| 0 <= i < 14 implies e[i] == import_prefix_bytes()[i] by {
        assert(c[i] as u8 == e[i]);
    }
    assert(e =~= import_prefix_bytes());
}

/// Every path that `safe_import_path` makes of a safe file name passes
/// `is_safe_local_path`.
pub proof fn lemma_import_path_is_local(file_name: Seq<char>)
    requires
        safe_file_name(vstd::utf8::encode_utf8(file_name)),
    ensures
        safe_local_path(vstd::utf8::encode_utf8(import_prefix() + file_name)),
{
    lemma_encode_utf8_concat(import_prefix(), file_name);
    lemma_import_prefix_bytes();
    let b = vstd::utf8::encode_utf8(import_prefix() + file_name);
    let f = vstd::utf8::encode_utf8(file_name);
    assert(b.take(14) =~= import_prefix_bytes());
    assert(b.skip(14) =~= f);
}

/// Whether `b` names a file that may be opened inside the import directory.
pub fn is_safe_file_name(b: &[u8]) -> (r: bool)
    ensures
        r == safe_file_name(b@),
{
    let n = b.len();
    if n == 0 || n > 96 || b[0] == 46 || n < 4 {
        return false;
    }
    if !(b[n - 4] == 46 && b[n - 3] == 109 && b[n - 2] == 112 && b[n - 1] == 51) {
        assert(b@.skip(n - 4)[0] == b@[n - 4]);
        assert(b@.skip(n - 4)[1] == b@[n - 3]);
        assert(b@.skip(n - 4)[2] == b@[n - 2]);
        assert(b@.skip(n - 4)[3] == b@[n - 1]);
        return false;
    }
    assert(b@.skip(n - 4) =~= mp3_suffix());
    let mut i: usize = 0;
    while i < n
        invariant
            n == b@.len(),
            i <= n,
            forall|j: int| 0 <= j < i ==> !(#[trigger] b@[j] == 47 || b@[j] == 92 || b@[j] == 0
                || is_ascii_control(b@[j])),
            forall|j: int| 0 <= j < i && j < n - 1 ==> !#[trigger] dots_at(b@, j),
        decreases n - i,
    {
        let c = b[i];
        if c == 47 || c == 92 || c == 0 || c < 32 || c == 127 {
            return false;
        }
        if i + 1 < n && c == 46 && b[i + 1] == 46 {
            assert(dots_at(b@, i as int));
            return false;
        }
        i = i + 1;
    }
    true
}

/// The path inside the import directory of a safe file name.
pub fn safe_import_path(file_name: &str) -> (r: Option<String>)
    ensures
        match r {
            Some(path) => safe_file_name(file_name.spec_bytes()) && path@ == import_prefix()
                + file_name@ && safe_local_path(vstd::utf8::encode_utf8(path@)),
            None => !safe_file_name(file_name.spec_bytes()),
        },
{
    if !is_safe_file_name(file_name.as_bytes()) {
        return None;
    }
    let mut path = String::from_str("/data/canopus/");
    path.append(file_name);
    proof {
        reveal_strlit("/data/canopus/");
        lemma_import_path_is_local(file_name@);
        assert(path@ == import_prefix() + file_name@);
    }
    Some(path)
}

/// Whether `path` is a safe file name directly inside the import directory.
pub fn is_safe_local_path(path: &str) -> (r: bool)
    ensures
        r == safe_local_path(path.spec_bytes()),
{
    let b = path.as_bytes();
    let prefix: [u8; 14] = [47, 100, 97, 116, 97, 47, 99, 97, 110, 111, 112, 117, 115, 47];
    assert(prefix@ =~= import_prefix_bytes());
    assert(import_prefix_bytes().len() == 14);
    if b.len() < 14 {
        return false;
    }
    let mut i: usize = 0;
    while i < 14
        invariant
            b@ == path.spec_bytes(),
            import_prefix_bytes().len() == 14,
            b@.len() >= 14,
            prefix@ == import_prefix_bytes(),
            i <= 14,
            forall|j: int| 0 <= j < i ==> b@[j] == prefix@[j],
        decreases 14 - i,
    {
        if b[i] != prefix[i] {
            assert(b@.take(14)[i as int] != import_prefix_bytes()[i as int]);
            return false;
        }
        i = i + 1;
    }
    assert(b@.take(14) =~= import_prefix_bytes());
    let rest = &b[14..b.len()];
    assert(rest@ =~= b@.skip(14));
    is_safe_file_name(rest)
}

} // verus!
